use vstd::prelude::*;

use crate::json::{json_quoted, json_string};
use crate::query::{first_value, QueryParams};
use crate::timestamp::{capture_text, in_four_digit_years, is_rfc3339, rfc3339_text, UnixTime};

verus! {

/// The product id used when a request names none.
pub const DEFAULT_PRODUCT_ID: &'static str = "prod1234";

/// The flag text used when a request leaves a flag out.
pub const DEFAULT_FLAG: &'static str = "true";

/// One observation of a product, as published to the record stream.
pub struct QueryEvent {
    pub product_id: String,
    pub product_availability: bool,
    pub product_is_published: bool,
    pub timestamp: String,
}

/// What a request asked for: the event, and the flag texts as the caller wrote them.
pub struct Interpretation {
    pub event: QueryEvent,
    pub availability_text: String,
    pub published_text: String,
}

/// Why a request cannot become an event.
#[derive(PartialEq, Eq, Structural, Debug, Clone, Copy)]
pub enum InputError {
    /// `product_avail` is neither `true` nor `false`.
    BadAvailability,
    /// `product_is_published` is neither `true` nor `false`.
    BadPublished,
    /// The capture time lies outside the range that can be written as a date.
    ClockOutOfRange,
}

/// `Some(true)` for exactly `true`, `Some(false)` for exactly `false`.
pub open spec fn bool_literal(s: Seq<char>) -> Option<bool> {
    if s == "true"@ {
        Some(true)
    } else if s == "false"@ {
        Some(false)
    } else {
        None
    }
}

pub open spec fn bool_text(b: bool) -> Seq<char> {
    if b {
        "true"@
    } else {
        "false"@
    }
}

/// The first value of parameter `name`, or `default` where it is absent.
pub open spec fn param_or(params: Seq<(Seq<char>, Seq<char>)>, name: Seq<char>, default: Seq<char>) -> Seq<char> {
    match first_value(params, name) {
        Some(v) => v,
        None => default,
    }
}

pub open spec fn product_id_of(params: Seq<(Seq<char>, Seq<char>)>) -> Seq<char> {
    param_or(params, "product_id"@, DEFAULT_PRODUCT_ID@)
}

pub open spec fn availability_of(params: Seq<(Seq<char>, Seq<char>)>) -> Seq<char> {
    param_or(params, "product_avail"@, DEFAULT_FLAG@)
}

pub open spec fn published_of(params: Seq<(Seq<char>, Seq<char>)>) -> Seq<char> {
    param_or(params, "product_is_published"@, DEFAULT_FLAG@)
}

/// The event as a JSON object, fields in declaration order, no whitespace.
pub open spec fn event_json(id: Seq<char>, available: bool, published: bool, timestamp: Seq<char>) -> Seq<char> {
    "{\"product_id\":"@ + json_quoted(id) + ",\"product_availability\":"@ + bool_text(available)
        + ",\"product_is_published\":"@ + bool_text(published) + ",\"timestamp\":"@ + json_quoted(
        timestamp,
    ) + "}"@
}

/// Relies on `str::parse::<bool>`, which accepts exactly `true` and `false`
/// and fails on any other text.
#[verifier::external_body]
fn parse_bool(s: &str) -> (r: Option<bool>)
    ensures
        r == bool_literal(s@),
{
    s.parse::<bool>().ok()
}

/// `text` read as a boolean literal.
pub fn parse_flag(text: &str) -> (r: Option<bool>)
    ensures
        r == bool_literal(text@),
{
    parse_bool(text)
}

/// The value of parameter `name`, or `default`.
fn param_or_default(params: &QueryParams, name: &str, default: &str) -> (r: String)
    ensures
        r@ == param_or(params@, name@, default@),
{
    match params.first(name) {
        Some(v) => v,
        None => String::from_str(default),
    }
}

/// Reads the product id and the two flags from the query, each defaulted
/// where absent, and stamps the event with `now`.
pub fn interpret(params: &QueryParams, now: &UnixTime) -> (r: Result<Interpretation, InputError>)
    requires
        now.wf(),
    ensures
        r == Err::<Interpretation, InputError>(InputError::BadAvailability) <==> bool_literal(
            availability_of(params@),
        ) is None,
        r == Err::<Interpretation, InputError>(InputError::BadPublished) <==> bool_literal(
            availability_of(params@),
        ) is Some && bool_literal(published_of(params@)) is None,
        r == Err::<Interpretation, InputError>(InputError::ClockOutOfRange) ==> !in_four_digit_years(
            now.secs as int,
        ),
        bool_literal(availability_of(params@)) is Some && bool_literal(published_of(params@)) is Some
            && in_four_digit_years(now.secs as int) ==> r is Ok,
        r matches Ok(i) ==> {
            &&& i.event.product_id@ == product_id_of(params@)
            &&& Some(i.event.product_availability) == bool_literal(availability_of(params@))
            &&& Some(i.event.product_is_published) == bool_literal(published_of(params@))
            &&& i.event.timestamp@ == rfc3339_text(now.secs as int, now.nanos as nat)
            &&& in_four_digit_years(now.secs as int) ==> is_rfc3339(i.event.timestamp@)
            &&& i.availability_text@ == availability_of(params@)
            &&& i.published_text@ == published_of(params@)
        },
{
    let product_id = param_or_default(params, "product_id", DEFAULT_PRODUCT_ID);
    let availability_text = param_or_default(params, "product_avail", DEFAULT_FLAG);
    let published_text = param_or_default(params, "product_is_published", DEFAULT_FLAG);
    let product_availability = match parse_flag(availability_text.as_str()) {
        Some(b) => b,
        None => {
            return Err(InputError::BadAvailability);
        },
    };
    let product_is_published = match parse_flag(published_text.as_str()) {
        Some(b) => b,
        None => {
            return Err(InputError::BadPublished);
        },
    };
    let timestamp = match capture_text(now) {
        Some(t) => t,
        None => {
            return Err(InputError::ClockOutOfRange);
        },
    };
    Ok(
        Interpretation {
            event: QueryEvent {
                product_id,
                product_availability,
                product_is_published,
                timestamp,
            },
            availability_text,
            published_text,
        },
    )
}

impl QueryEvent {
    /// The event as compact JSON, as a serialiser of its four fields writes it.
    pub fn to_json(&self) -> (r: String)
        ensures
            r@ == event_json(
                self.product_id@,
                self.product_availability,
                self.product_is_published,
                self.timestamp@,
            ),
    {
        let mut out = String::from_str("{\"product_id\":");
        let id = json_string(self.product_id.as_str());
        out.append(id.as_str());
        out.append(",\"product_availability\":");
        out.append(if self.product_availability { "true" } else { "false" });
        out.append(",\"product_is_published\":");
        out.append(if self.product_is_published { "true" } else { "false" });
        out.append(",\"timestamp\":");
        let ts = json_string(self.timestamp.as_str());
        out.append(ts.as_str());
        out.append("}");
        out
    }
}

/// A flag left out of the query reads as `true`; a flag written `true` or
/// `false` reads as that value; the availability and publication flags
/// follow the same rule.
pub proof fn lemma_flag_values(params: Seq<(Seq<char>, Seq<char>)>, name: Seq<char>)
    ensures
        first_value(params, name) is None ==> bool_literal(param_or(params, name, DEFAULT_FLAG@))
            == Some(true),
        first_value(params, name) == Some("true"@) ==> bool_literal(
            param_or(params, name, DEFAULT_FLAG@),
        ) == Some(true),
        first_value(params, name) == Some("false"@) ==> bool_literal(
            param_or(params, name, DEFAULT_FLAG@),
        ) == Some(false),
        availability_of(params) == param_or(params, "product_avail"@, DEFAULT_FLAG@),
        published_of(params) == param_or(params, "product_is_published"@, DEFAULT_FLAG@),
{
    reveal_strlit("true");
    reveal_strlit("false");
    assert("true"@ != "false"@) by {
        assert("true"@[0] != "false"@[0]);
    }
}

/// The product id is the first `product_id` parameter where there is one,
/// else the fixed default.
pub proof fn lemma_product_id(params: Seq<(Seq<char>, Seq<char>)>)
    ensures
        first_value(params, "product_id"@) matches Some(v) ==> product_id_of(params) == v,
        first_value(params, "product_id"@) is None ==> product_id_of(params) == DEFAULT_PRODUCT_ID@,
        DEFAULT_PRODUCT_ID@.len() > 0,
{
    reveal_strlit("prod1234");
}

} // verus!
