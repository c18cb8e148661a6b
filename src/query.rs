//! Query parameters and sorting requests.

use vstd::prelude::*;

verus! {

/// The decimal digit `d`.
pub open spec fn digit_char(d: nat) -> char {
    if d == 0 {
        '0'
    } else if d == 1 {
        '1'
    } else if d == 2 {
        '2'
    } else if d == 3 {
        '3'
    } else if d == 4 {
        '4'
    } else if d == 5 {
        '5'
    } else if d == 6 {
        '6'
    } else if d == 7 {
        '7'
    } else if d == 8 {
        '8'
    } else {
        '9'
    }
}

/// The decimal text of `n`, without leading zeros.
pub open spec fn decimal(n: nat) -> Seq<char>
    decreases n,
{
    if n < 10 {
        seq![digit_char(n)]
    } else {
        decimal(n / 10).push(digit_char(n % 10))
    }
}

/// The text of a boolean value.
pub open spec fn bool_text(b: bool) -> Seq<char> {
    if b {
        "true"@
    } else {
        "false"@
    }
}

fn digit_text(d: usize) -> (r: &'static str)
    requires
        d < 10,
    ensures
        r@ == seq![digit_char(d as nat)],
{
    if d == 0 {
        proof { reveal_strlit("0"); }
        "0"
    } else if d == 1 {
        proof { reveal_strlit("1"); }
        "1"
    } else if d == 2 {
        proof { reveal_strlit("2"); }
        "2"
    } else if d == 3 {
        proof { reveal_strlit("3"); }
        "3"
    } else if d == 4 {
        proof { reveal_strlit("4"); }
        "4"
    } else if d == 5 {
        proof { reveal_strlit("5"); }
        "5"
    } else if d == 6 {
        proof { reveal_strlit("6"); }
        "6"
    } else if d == 7 {
        proof { reveal_strlit("7"); }
        "7"
    } else if d == 8 {
        proof { reveal_strlit("8"); }
        "8"
    } else {
        proof { reveal_strlit("9"); }
        "9"
    }
}

/// Render `n` in decimal.
pub fn render_decimal(n: usize) -> (r: String)
    ensures
        r@ == decimal(n as nat),
    decreases n,
{
    if n < 10 {
        String::from_str(digit_text(n))
    } else {
        let mut s = render_decimal(n / 10);
        s.append(digit_text(n % 10));
        s
    }
}

/// Render a boolean as `true` or `false`.
pub fn render_bool(b: bool) -> (r: String)
    ensures
        r@ == bool_text(b),
{
    if b {
        String::from_str("true")
    } else {
        String::from_str("false")
    }
}

/// The text of a query parameter pair.
pub open spec fn pair_view(p: (String, String)) -> (Seq<char>, Seq<char>) {
    (p.0@, p.1@)
}

/// Query parameters, in the order they are sent.
#[derive(Clone, Debug)]
pub struct Query(pub Vec<(String, String)>);

impl Query {
    /// The parameters as text, in order.
    pub open spec fn pairs(&self) -> Seq<(Seq<char>, Seq<char>)> {
        self.0@.map_values(|p: (String, String)| pair_view(p))
    }

    /// Empty query.
    pub fn new() -> (r: Query)
        ensures
            r.pairs() == Seq::<(Seq<char>, Seq<char>)>::empty(),
    {
        let r = Query(Vec::new());
        assert(r.pairs() =~= Seq::<(Seq<char>, Seq<char>)>::empty());
        r
    }

    /// Add a string item to the query.
    pub fn push_str(&mut self, param: &str, value: String)
        ensures
            final(self).pairs() == old(self).pairs().push((param@, value@)),
    {
        let key = String::from_str(param);
        self.0.push((key, value));
        assert(final(self).pairs() =~= old(self).pairs().push((param@, value@)));
    }

    /// Add a number to the query, in decimal.
    pub fn push(&mut self, param: &str, value: usize)
        ensures
            final(self).pairs() == old(self).pairs().push((param@, decimal(value as nat))),
    {
        self.push_str(param, render_decimal(value));
    }

    /// Add a boolean to the query.
    pub fn push_bool(&mut self, param: &str, value: bool)
        ensures
            final(self).pairs() == old(self).pairs().push((param@, bool_text(value))),
    {
        self.push_str(param, render_bool(value));
    }

    /// A copy of this query.
    pub fn duplicate(&self) -> (r: Query)
        ensures
            r.pairs() == self.pairs(),
    {
        let mut out: Vec<(String, String)> = Vec::new();
        let mut i: usize = 0;
        while i < self.0.len()
            invariant
                i <= self.0@.len(),
                out@.len() == i,
                forall|k: int| 0 <= k < i ==> pair_view(#[trigger] out@[k]) == pair_view(self.0@[k]),
            decreases self.0@.len() - i,
        {
            let (k, v) = &self.0[i];
            out.push((k.clone(), v.clone()));
            i = i + 1;
        }
        let r = Query(out);
        assert(r.pairs() =~= self.pairs());
        r
    }

    /// Whether some parameter is named `param`.
    pub fn has_param(&self, param: &str) -> (r: bool)
        ensures
            r == exists|k: int| 0 <= k < self.pairs().len() && (#[trigger] self.pairs()[k]).0 == param@,
    {
        let key = String::from_str(param);
        let mut i: usize = 0;
        while i < self.0.len()
            invariant
                i <= self.0@.len(),
                key@ == param@,
                forall|k: int| 0 <= k < i ==> (#[trigger] self.pairs()[k]).0 != param@,
            decreases self.0@.len() - i,
        {
            if self.0[i].0 == key {
                assert(self.pairs()[i as int].0 == param@);
                return true;
            }
            i = i + 1;
        }
        false
    }
}

/// A field that results can be sorted by.
pub trait SortKey {
    /// The field's name in a query.
    spec fn key_name(&self) -> Seq<char>;

    /// The field's name in a query.
    fn name(&self) -> (r: String)
        ensures
            r@ == self.key_name(),
    ;
}

/// Sorting request.
#[derive(Clone, Debug)]
pub enum Sort<T> {
    /// Sorting by given field in ascendant order.
    Asc(T),
    /// Sorting by given field in descendant order.
    Desc(T),
}

impl<T: SortKey> Sort<T> {
    /// The field name and the direction (`asc` or `desc`).
    pub open spec fn pair(&self) -> (Seq<char>, Seq<char>) {
        match self {
            Sort::Asc(k) => (k.key_name(), "asc"@),
            Sort::Desc(k) => (k.key_name(), "desc"@),
        }
    }

    /// The field name and the direction of this request.
    pub fn into_pair(self) -> (r: (String, String))
        ensures
            (r.0@, r.1@) == self.pair(),
    {
        match self {
            Sort::Asc(k) => (k.name(), String::from_str("asc")),
            Sort::Desc(k) => (k.name(), String::from_str("desc")),
        }
    }
}

} // verus!
