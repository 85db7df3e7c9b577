//! Inline numeric predicates of function policies: a short string such as
//! `">100"` or `"=<100"` denotes an ordering relation and a bound, and
//! `assert_value` holds a concrete value against it.

use vstd::prelude::*;

use crate::util::parse_i64;
use crate::util::parse_i64_spec;

verus! {

/// Ordering relation denoted by a predicate string.
#[derive(Debug, Clone, Copy, PartialEq, Eq, Structural)]
pub enum NumOrd {
    GT,
    GE,
    EQ,
    LE,
    LT,
    UN,
}

/// The predicate string could not be interpreted.
#[derive(Debug, Clone, PartialEq, Eq, Structural)]
pub struct FunctionPolicyError;

/// An inline numeric predicate, kept as its source string.
#[derive(Debug, Clone)]
pub struct FunctionPolicyDef {
    num: String,
}

impl View for FunctionPolicyDef {
    type V = Seq<char>;

    closed spec fn view(&self) -> Seq<char> {
        self.num@
    }
}

/// The predicate string with every comparison character removed: what is
/// left is parsed as the numeric bound.
pub open spec fn strip_cmp(s: Seq<char>) -> Seq<char> {
    s.filter(|c: char| !(c == '<' || c == '>' || c == '='))
}

/// Relation and bound denoted by a predicate string: a leading `=` makes the
/// relation inclusive (`=<`, `=>`) or exact, a bare `<` or `>` is strict, and
/// anything else is unknown.
pub open spec fn pred_of(s: Seq<char>) -> (NumOrd, int) {
    match parse_i64_spec(strip_cmp(s)) {
        None => (NumOrd::UN, 0),
        Some(v) => if s.len() == 0 {
            (NumOrd::UN, 0)
        } else if s[0] == '=' {
            if s.len() == 1 {
                (NumOrd::UN, 0)
            } else if s[1] == '<' {
                (NumOrd::LE, v)
            } else if s[1] == '>' {
                (NumOrd::GE, v)
            } else {
                (NumOrd::EQ, v)
            }
        } else if s[0] == '<' {
            (NumOrd::LT, v)
        } else if s[0] == '>' {
            (NumOrd::GT, v)
        } else {
            (NumOrd::UN, 0)
        },
    }
}

/// Copy of `s` without `<`, `>` or `=`.
fn strip_cmp_exec(s: &str) -> (r: String)
    ensures
        r@ == strip_cmp(s@),
{
    let n: usize = s.unicode_len();
    let mut out = String::new();
    let mut i: usize = 0;
    while i < n
        invariant
            0 <= i <= n,
            n == s@.len(),
            out@ == strip_cmp(s@.subrange(0, i as int)),
        decreases n - i,
    {
        let c = s.get_char(i);
        let ghost pre = s@.subrange(0, i as int);
        let ghost t = s@.subrange(0, i as int + 1);
        proof {
            reveal_with_fuel(Seq::<char>::filter, 2);
            assert(t.drop_last() =~= pre);
            assert(t.last() == s@[i as int]);
            assert(t.len() == i + 1);
        }
        if !(c == '<' || c == '>' || c == '=') {
            crate::util::push_char(&mut out, c);
            proof {
                assert(strip_cmp(t) == strip_cmp(pre).push(t.last()));
            }
        } else {
            proof {
                assert(strip_cmp(t) == strip_cmp(pre));
            }
        }
        i = i + 1;
    }
    proof {
        assert(s@.subrange(0, n as int) =~= s@);
    }
    out
}

impl FunctionPolicyDef {
    pub fn new(num: &str) -> (r: Self)
        ensures
            r@ == num@,
    {
        FunctionPolicyDef { num: num.to_owned() }
    }

    /// Relation and bound of this predicate, as `pred_of` reads them.
    pub fn get_num(&self) -> (r: (NumOrd, i64))
        ensures
            pred_of(self@) == (r.0, r.1 as int),
    {
        let stripped = strip_cmp_exec(self.num.as_str());
        let value = match parse_i64(stripped.as_str()) {
            None => {
                return (NumOrd::UN, 0);
            },
            Some(v) => v,
        };
        let n: usize = self.num.as_str().unicode_len();
        if n == 0 {
            return (NumOrd::UN, 0);
        }
        let first = self.num.as_str().get_char(0);
        if first == '=' {
            if n == 1 {
                return (NumOrd::UN, 0);
            }
            let sec = self.num.as_str().get_char(1);
            if sec == '<' {
                (NumOrd::LE, value)
            } else if sec == '>' {
                (NumOrd::GE, value)
            } else {
                (NumOrd::EQ, value)
            }
        } else if first == '<' {
            (NumOrd::LT, value)
        } else if first == '>' {
            (NumOrd::GT, value)
        } else {
            (NumOrd::UN, 0)
        }
    }

    /// Holds `value` against the predicate: `Ok(true)` when the relation is
    /// met, `Ok(false)` when it is not, and an error when the predicate
    /// cannot be interpreted.
    pub fn assert_value(&self, value: i64) -> (r: Result<bool, FunctionPolicyError>)
        ensures
            ({
                let p = pred_of(self@);
                match p.0 {
                    NumOrd::GT => r == Ok::<bool, FunctionPolicyError>(value > p.1),
                    NumOrd::GE => r == Ok::<bool, FunctionPolicyError>(value >= p.1),
                    NumOrd::EQ => r == Ok::<bool, FunctionPolicyError>(value == p.1),
                    NumOrd::LE => r == Ok::<bool, FunctionPolicyError>(value <= p.1),
                    NumOrd::LT => r == Ok::<bool, FunctionPolicyError>(value < p.1),
                    NumOrd::UN => r == Err::<bool, FunctionPolicyError>(FunctionPolicyError),
                }
            }),
    {
        let (ord, v) = self.get_num();
        match ord {
            NumOrd::GT => Ok(value > v),
            NumOrd::GE => Ok(value >= v),
            NumOrd::EQ => Ok(value == v),
            NumOrd::LE => Ok(value <= v),
            NumOrd::LT => Ok(value < v),
            NumOrd::UN => Err(FunctionPolicyError),
        }
    }
}

} // verus!
