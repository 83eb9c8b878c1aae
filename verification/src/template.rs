//! The parameter model of a parsed template invocation: ordered unnamed
//! parameters and a name-to-value mapping for named parameters.

use vstd::prelude::*;
use crate::text::str_eq;

verus! {

/// A parsed template invocation. `unnamed` holds the positional parameters in
/// order; `named` holds the keyword parameters, with unique names. The first
/// pair whose name matches is the binding, so a well-formed value (unique
/// names) reads as a mapping.
pub struct Template {
    pub unnamed: Vec<String>,
    pub named: Vec<(String, String)>,
}

/// The value bound to `name` among the named parameters: the first pair whose
/// name matches.
pub open spec fn named_lookup(pairs: Seq<(Seq<char>, Seq<char>)>, name: Seq<char>) -> Option<
    Seq<char>,
>
    decreases pairs.len(),
{
    if pairs.len() == 0 {
        None
    } else if pairs[0].0 == name {
        Some(pairs[0].1)
    } else {
        named_lookup(pairs.drop_first(), name)
    }
}

impl Template {
    /// The named parameters as the spec-level association list that
    /// `named_lookup` reads.
    pub open spec fn named_view(&self) -> Seq<(Seq<char>, Seq<char>)> {
        self.named.deep_view()
    }

    /// The unnamed parameters as a sequence of character sequences.
    pub open spec fn unnamed_view(&self) -> Seq<Seq<char>> {
        self.unnamed.deep_view()
    }

    /// The value of the named parameter `name`, if bound.
    pub fn get_named(&self, name: &str) -> (r: Option<&String>)
        ensures
            match r {
                Some(v) => named_lookup(self.named_view(), name@) == Some(v@),
                None => named_lookup(self.named_view(), name@) is None,
            },
    {
        proof {
            assert(self.named_view().skip(0) =~= self.named_view());
        }
        let mut i: usize = 0;
        while i < self.named.len()
            invariant
                i <= self.named.len(),
                named_lookup(self.named_view(), name@) == named_lookup(
                    self.named_view().skip(i as int),
                    name@,
                ),
            decreases self.named.len() - i,
        {
            proof {
                assert(self.named_view().skip(i as int).drop_first() =~= self.named_view().skip(
                    i as int + 1,
                ));
                assert(self.named_view().skip(i as int)[0] == self.named_view()[i as int]);
            }
            if str_eq(self.named[i].0.as_str(), name) {
                return Some(&self.named[i].1);
            }
            i = i + 1;
        }
        proof {
            assert(self.named_view().skip(self.named.len() as int).len() == 0);
        }
        None
    }

    /// The unnamed parameter at `index`, if provided.
    pub fn get_unnamed(&self, index: usize) -> (r: Option<&String>)
        ensures
            match r {
                Some(v) => index < self.unnamed_view().len() && v@ == self.unnamed_view()[
                    index as int
                ],
                None => index >= self.unnamed_view().len(),
            },
    {
        if index < self.unnamed.len() {
            Some(&self.unnamed[index])
        } else {
            None
        }
    }
}

} // verus!
