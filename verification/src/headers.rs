//! An HTTP header collection: ordered name/value pairs of text, looked up
//! by ASCII case-insensitive field name, first match first.

use vstd::prelude::*;

use crate::ascii::eq_ignore_case;
use crate::ascii::str_eq_ignore_case;

verus! {

/// An ordered collection of HTTP header fields. The collection is only
/// ever read during extraction; insertion order decides which of several
/// case-variant fields wins a lookup.
pub struct Headers {
    entries: Vec<(String, String)>,
}

impl View for Headers {
    type V = Seq<(Seq<char>, Seq<char>)>;

    closed spec fn view(&self) -> Seq<(Seq<char>, Seq<char>)> {
        self.entries@.map_values(|e: (String, String)| (e.0@, e.1@))
    }
}

/// The value of the first field of `h` whose name matches `name` up to
/// ASCII case, if any field does.
pub open spec fn lookup(h: Seq<(Seq<char>, Seq<char>)>, name: Seq<char>) -> Option<Seq<char>>
    decreases h.len(),
{
    if h.len() == 0 {
        None
    } else if eq_ignore_case(h[0].0, name) {
        Some(h[0].1)
    } else {
        lookup(h.drop_first(), name)
    }
}

impl Headers {
    /// An empty collection.
    pub fn new() -> (r: Self)
        ensures
            r@ == Seq::<(Seq<char>, Seq<char>)>::empty(),
    {
        let r = Headers { entries: Vec::new() };
        proof {
            assert(r@ =~= Seq::<(Seq<char>, Seq<char>)>::empty());
        }
        r
    }

    /// Appends a field after all existing ones, leaving earlier
    /// case-variant fields of the same name ahead of it in lookup order.
    pub fn insert(&mut self, name: String, value: String)
        ensures
            final(self)@ == old(self)@.push((name@, value@)),
    {
        let ghost before = self@;
        let ghost pair = (name@, value@);
        self.entries.push((name, value));
        proof {
            assert(self@ =~= before.push(pair));
        }
    }

    /// The number of fields held.
    pub fn len(&self) -> (r: usize)
        ensures
            r == self@.len(),
    {
        self.entries.len()
    }

    /// Finds the value of the first field whose name is an ASCII
    /// case-insensitive match of `name`.
    pub fn find(&self, name: &str) -> (r: Option<String>)
        ensures
            match r {
                Some(v) => lookup(self@, name@) == Some(v@),
                None => lookup(self@, name@) is None,
            },
    {
        let n: usize = self.entries.len();
        let mut i: usize = 0;
        proof {
            assert(self@.skip(0) =~= self@);
        }
        while i < n
            invariant
                n == self.entries.len(),
                i <= n,
                self@.len() == n,
                lookup(self@, name@) == lookup(self@.skip(i as int), name@),
            decreases n - i,
        {
            let entry: &(String, String) = &self.entries[i];
            if str_eq_ignore_case(entry.0.as_str(), name) {
                return Some(entry.1.clone());
            }
            proof {
                assert(self@.skip(i as int).drop_first() =~= self@.skip(i as int + 1));
            }
            i += 1;
        }
        None
    }
}

} // verus!
