use vstd::prelude::*;

use crate::event::{
    availability_of, bool_literal, bool_text, event_json, interpret, product_id_of, published_of,
    InputError, Interpretation,
};
use crate::publish::{build_record, PublishOutcome, SinkRecord};
use crate::query::QueryParams;
use crate::timestamp::{in_four_digit_years, is_rfc3339, rfc3339_text, UnixTime};

verus! {

/// A request that is ready to publish: what it asked for, and the record to submit.
pub struct Prepared {
    pub interpretation: Interpretation,
    pub record: SinkRecord,
}

/// The HTTP reply to a request.
pub struct Reply {
    pub status: u16,
    pub content_type: String,
    pub body: String,
}

/// The reply text: the product id, the flag texts as given, whether the
/// record was delivered, and the capture time.
pub open spec fn message_text(
    id: Seq<char>,
    published_text: Seq<char>,
    availability_text: Seq<char>,
    delivered: bool,
    timestamp: Seq<char>,
) -> Seq<char> {
    "Hello "@ + id + ", this is an AWS Lambda HTTP response, product status: "@ + published_text
        + ", product availability: "@ + availability_text + ", put record result --> "@ + bool_text(
        delivered,
    ) + " @ "@ + timestamp
}

/// Reads the request and builds the one record to submit for it. An error
/// means that nothing is to be submitted.
pub fn prepare(params: &QueryParams, now: &UnixTime) -> (r: Result<Prepared, InputError>)
    requires
        now.wf(),
    ensures
        r == Err::<Prepared, InputError>(InputError::BadAvailability) <==> bool_literal(
            availability_of(params@),
        ) is None,
        r == Err::<Prepared, InputError>(InputError::BadPublished) <==> bool_literal(
            availability_of(params@),
        ) is Some && bool_literal(published_of(params@)) is None,
        r == Err::<Prepared, InputError>(InputError::ClockOutOfRange) ==> !in_four_digit_years(
            now.secs as int,
        ),
        bool_literal(availability_of(params@)) is Some && bool_literal(published_of(params@)) is Some
            && in_four_digit_years(now.secs as int) ==> r is Ok,
        r matches Ok(p) ==> {
            &&& p.interpretation.event.product_id@ == product_id_of(params@)
            &&& Some(p.interpretation.event.product_availability) == bool_literal(
                availability_of(params@),
            )
            &&& Some(p.interpretation.event.product_is_published) == bool_literal(
                published_of(params@),
            )
            &&& p.interpretation.event.timestamp@ == rfc3339_text(now.secs as int, now.nanos as nat)
            &&& in_four_digit_years(now.secs as int) ==> is_rfc3339(
                p.interpretation.event.timestamp@,
            )
            &&& p.interpretation.availability_text@ == availability_of(params@)
            &&& p.interpretation.published_text@ == published_of(params@)
            &&& p.record.partition_key@ == p.interpretation.event.product_id@
            &&& p.record.payload@ == event_json(
                p.interpretation.event.product_id@,
                p.interpretation.event.product_availability,
                p.interpretation.event.product_is_published,
                p.interpretation.event.timestamp@,
            )
        },
{
    match interpret(params, now) {
        Ok(interpretation) => {
            let record = build_record(&interpretation.event);
            Ok(Prepared { interpretation, record })
        },
        Err(e) => Err(e),
    }
}

/// The reply to a request whose record met `outcome`: always status 200,
/// with the outcome told in the body.
pub fn respond(interpretation: &Interpretation, outcome: &PublishOutcome) -> (r: Reply)
    ensures
        r.status == 200,
        r.content_type@ == "text/html"@,
        r.body@ == message_text(
            interpretation.event.product_id@,
            interpretation.published_text@,
            interpretation.availability_text@,
            outcome is Delivered,
            interpretation.event.timestamp@,
        ),
{
    let delivered = outcome.succeeded();
    let mut body = String::from_str("Hello ");
    body.append(interpretation.event.product_id.as_str());
    body.append(", this is an AWS Lambda HTTP response, product status: ");
    body.append(interpretation.published_text.as_str());
    body.append(", product availability: ");
    body.append(interpretation.availability_text.as_str());
    body.append(", put record result --> ");
    body.append(if delivered { "true" } else { "false" });
    body.append(" @ ");
    body.append(interpretation.event.timestamp.as_str());
    Reply { status: 200, content_type: String::from_str("text/html"), body }
}

} // verus!
