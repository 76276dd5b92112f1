use vstd::prelude::*;

verus! {

/// The value of the first pair in `pairs` whose name is `name`.
pub open spec fn first_value(pairs: Seq<(Seq<char>, Seq<char>)>, name: Seq<char>) -> Option<
    Seq<char>,
>
    decreases pairs.len(),
{
    if pairs.len() == 0 {
        None
    } else if pairs[0].0 == name {
        Some(pairs[0].1)
    } else {
        first_value(pairs.drop_first(), name)
    }
}

/// The query string of a request: its name/value pairs in the order given,
/// repeats included.
pub struct QueryParams {
    pub pairs: Vec<(String, String)>,
}

impl View for QueryParams {
    type V = Seq<(Seq<char>, Seq<char>)>;

    open spec fn view(&self) -> Seq<(Seq<char>, Seq<char>)> {
        self.pairs@.map_values(|p: (String, String)| (p.0@, p.1@))
    }
}

impl QueryParams {
    /// A query with no parameters.
    pub fn new() -> (r: QueryParams)
        ensures
            r@ == Seq::<(Seq<char>, Seq<char>)>::empty(),
    {
        let r = QueryParams { pairs: Vec::new() };
        assert(r@ =~= Seq::<(Seq<char>, Seq<char>)>::empty());
        r
    }

    /// Appends one parameter after those already present.
    pub fn push(&mut self, name: &str, value: &str)
        ensures
            final(self)@ == old(self)@.push((name@, value@)),
    {
        self.pairs.push((String::from_str(name), String::from_str(value)));
        assert(self@ =~= old(self)@.push((name@, value@)));
    }

    /// The value of the first parameter called `name`, if there is one.
    pub fn first(&self, name: &str) -> (r: Option<String>)
        ensures
            r matches Some(v) ==> first_value(self@, name@) == Some(v@),
            r is None ==> first_value(self@, name@) is None,
    {
        let key = String::from_str(name);
        let mut i: usize = 0;
        assert(self@.subrange(0, self@.len() as int) =~= self@);
        while i < self.pairs.len()
            invariant
                0 <= i <= self.pairs@.len(),
                key@ == name@,
                first_value(self@, name@) == first_value(self@.subrange(i as int, self@.len() as int), name@),
            decreases self.pairs@.len() - i,
        {
            proof {
                let rest = self@.subrange(i as int, self@.len() as int);
                assert(rest.drop_first() =~= self@.subrange(i + 1, self@.len() as int));
            }
            if self.pairs[i].0 == key {
                return Some(self.pairs[i].1.clone());
            }
            i = i + 1;
        }
        assert(self@.subrange(i as int, self@.len() as int).len() == 0);
        None
    }
}

} // verus!
