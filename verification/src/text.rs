//! Comparisons on string slices, stated over their character sequences.

use vstd::prelude::*;
use vstd::std_specs::iter::IteratorSpec;

verus! {

/// The first character of `s`, if it has one.
pub fn first_char(s: &str) -> (r: Option<char>)
    ensures
        r == (if s@.len() > 0 { Some(s@[0]) } else { None }),
{
    broadcast use vstd::string::group_string_axioms;
    let mut it = s.chars();
    it.next()
}

/// Whether `prefix` is a prefix of `s` that ends where a component of `s`
/// ends, the components of `s` being what `separator` parts: `prefix` is all
/// of `s`, or it ends with the separator, or the separator follows it in `s`.
pub open spec fn is_prefix_at_boundary(prefix: Seq<char>, s: Seq<char>, separator: char) -> bool {
    &&& prefix.is_prefix_of(s)
    &&& {
        ||| s.len() == prefix.len()
        ||| (prefix.len() > 0 && prefix.last() == separator)
        ||| (s.len() > prefix.len() && s[prefix.len() as int] == separator)
    }
}

/// Whether `prefix` is a prefix of `s` that ends where a component of `s`
/// ends. Both strings are walked once, as far as `prefix` reaches.
pub fn starts_with_at_boundary(s: &str, prefix: &str, separator: char) -> (r: bool)
    ensures
        r == is_prefix_at_boundary(prefix@, s@, separator),
{
    broadcast use vstd::string::group_string_axioms;
    let mut rest = s.chars();
    let mut wanted = prefix.chars();
    let mut last: Option<char> = None;
    let ghost mut seen: int = 0;
    loop
        invariant
            0 <= seen <= prefix@.len(),
            seen <= s@.len(),
            rest.remaining() == s@.subrange(seen, s@.len() as int),
            wanted.remaining() == prefix@.subrange(seen, prefix@.len() as int),
            s@.subrange(0, seen) == prefix@.subrange(0, seen),
            last == (if seen > 0 {
                Some(prefix@[seen - 1])
            } else {
                None::<char>
            }),
        decreases prefix@.len() - seen,
    {
        match wanted.next() {
            None => {
                // All of the prefix was found; what follows it decides.
                return match rest.next() {
                    None => true,
                    Some(next) => {
                        let closed = match last {
                            Some(c) => c == separator,
                            None => false,
                        };
                        closed || next == separator
                    },
                };
            },
            Some(w) => {
                match rest.next() {
                    None => {
                        return false;
                    },
                    Some(c) => {
                        if c != w {
                            return false;
                        }
                        last = Some(w);
                        proof {
                            seen = seen + 1;
                        }
                    },
                }
            },
        }
    }
}

/// Whether `a` and `b` hold the same characters.
pub fn equals(a: &str, b: &str) -> (r: bool)
    ensures
        r == (a@ == b@),
{
    broadcast use vstd::string::group_string_axioms;
    let mut left = a.chars();
    let mut right = b.chars();
    let ghost mut seen: int = 0;
    loop
        invariant
            0 <= seen <= a@.len(),
            seen <= b@.len(),
            left.remaining() == a@.subrange(seen, a@.len() as int),
            right.remaining() == b@.subrange(seen, b@.len() as int),
            a@.subrange(0, seen) == b@.subrange(0, seen),
        decreases a@.len() - seen,
    {
        match left.next() {
            None => {
                match right.next() {
                    None => {
                        assert(a@ =~= a@.subrange(0, seen));
                        assert(b@ =~= b@.subrange(0, seen));
                        return true;
                    },
                    Some(_) => {
                        return false;
                    },
                }
            },
            Some(x) => {
                match right.next() {
                    None => {
                        return false;
                    },
                    Some(y) => {
                        if x != y {
                            return false;
                        }
                        proof {
                            seen = seen + 1;
                        }
                    },
                }
            },
        }
    }
}

} // verus!
