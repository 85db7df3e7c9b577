//! Small verified helpers shared across the crate: character classes,
//! decimal parsing and printing, and string building.

use vstd::prelude::*;

verus! {

/// True when `c` is an ASCII letter.
pub open spec fn is_letter(c: char) -> bool {
    ('a' <= c && c <= 'z') || ('A' <= c && c <= 'Z')
}

/// True when `c` is an ASCII decimal digit.
pub open spec fn is_digit(c: char) -> bool {
    '0' <= c && c <= '9'
}

/// Numeric value of a decimal digit character.
pub open spec fn digit_val(c: char) -> int {
    c as u32 - 48
}

/// Every character of `s` is a decimal digit.
pub open spec fn all_digits(s: Seq<char>) -> bool {
    forall|i: int| 0 <= i < s.len() ==> is_digit(#[trigger] s[i])
}

/// Value of a digit string read in base ten.
pub open spec fn digits_val(s: Seq<char>) -> int
    decreases s.len(),
{
    if s.len() == 0 {
        0
    } else {
        digits_val(s.drop_last()) * 10 + digit_val(s.last())
    }
}

/// The digit part of a signed decimal literal: everything after an optional
/// leading sign.
pub open spec fn sign_skip(s: Seq<char>) -> Seq<char> {
    if s.len() > 0 && (s[0] == '-' || s[0] == '+') {
        s.subrange(1, s.len() as int)
    } else {
        s
    }
}

/// What `i64::from_str` accepts: an optional sign, then one or more digits,
/// and a value within the type's range.
pub open spec fn parse_i64_spec(s: Seq<char>) -> Option<int> {
    if s.len() == 0 {
        None
    } else {
        let neg = s[0] == '-';
        let body = sign_skip(s);
        if body.len() == 0 || !all_digits(body) {
            None
        } else {
            let v = if neg {
                -digits_val(body)
            } else {
                digits_val(body)
            };
            if i64::MIN <= v <= i64::MAX {
                Some(v)
            } else {
                None
            }
        }
    }
}

pub proof fn lemma_digits_val_nonneg(s: Seq<char>)
    requires
        all_digits(s),
    ensures
        digits_val(s) >= 0,
    decreases s.len(),
{
    if s.len() > 0 {
        lemma_digits_val_nonneg(s.drop_last());
    }
}

/// A digit character is recovered from its value.
pub proof fn lemma_digit_char_inverse(c: char)
    requires
        is_digit(c),
    ensures
        digit_char(digit_val(c)) == c,
{
}

/// A non-empty digit string without a leading zero has a positive value.
pub proof fn lemma_digits_val_pos(s: Seq<char>)
    requires
        all_digits(s),
        s.len() >= 1,
        s[0] != '0',
    ensures
        digits_val(s) >= 1,
    decreases s.len(),
{
    if s.len() == 1 {
        assert(digit_val(s[0]) >= 1);
    } else {
        assert(all_digits(s.drop_last())) by {
            assert(forall|i: int|
                0 <= i < s.drop_last().len() ==> #[trigger] s.drop_last()[i] == s[i]);
        }
        lemma_digits_val_pos(s.drop_last());
        assert(digits_val(s.drop_last()) * 10 >= 10) by (nonlinear_arith)
            requires
                digits_val(s.drop_last()) >= 1,
        ;
        lemma_digits_val_nonneg(s);
    }
}

/// A digit string without a leading zero is the decimal rendering of its
/// own value: the canonical form is unique.
pub proof fn lemma_dec_str_canonical(s: Seq<char>)
    requires
        all_digits(s),
        s.len() >= 1,
        s.len() == 1 || s[0] != '0',
    ensures
        dec_str(digits_val(s) as nat) == s,
    decreases s.len(),
{
    lemma_digits_val_nonneg(s);
    if s.len() == 1 {
        lemma_digit_char_inverse(s[0]);
        assert(s.drop_last() =~= Seq::<char>::empty());
        assert(digits_val(Seq::<char>::empty()) == 0);
        assert(s.last() == s[0]);
        assert(digits_val(s) == digit_val(s[0]));
        assert(dec_str(digits_val(s) as nat) =~= s);
    } else {
        let w = s.drop_last();
        let d = digit_val(s.last());
        assert(all_digits(w)) by {
            assert(forall|i: int| 0 <= i < w.len() ==> #[trigger] w[i] == s[i]);
        }
        lemma_digits_val_pos(w);
        lemma_digits_val_nonneg(w);
        let v = digits_val(s);
        assert(v == digits_val(w) * 10 + d);
        assert(v / 10 == digits_val(w) && v % 10 == d) by (nonlinear_arith)
            requires
                v == digits_val(w) * 10 + d,
                0 <= d < 10,
                digits_val(w) >= 0,
        ;
        assert(v >= 10) by (nonlinear_arith)
            requires
                v == digits_val(w) * 10 + d,
                digits_val(w) >= 1,
                d >= 0,
        ;
        lemma_dec_str_canonical(w);
        lemma_digit_char_inverse(s.last());
        assert(dec_str(v as nat) == dec_str((v as nat) / 10).push(
            digit_char(((v as nat) % 10) as int),
        ));
        assert(dec_str((v as nat) / 10).push(digit_char(((v as nat) % 10) as int)) =~= s);
    }
}

/// Byte-for-byte equality of two byte vectors.
pub fn bytes_eq(a: &Vec<u8>, b: &Vec<u8>) -> (r: bool)
    ensures
        r == (a@ == b@),
{
    if a.len() != b.len() {
        return false;
    }
    let mut i: usize = 0;
    while i < a.len()
        invariant
            0 <= i <= a@.len(),
            a@.len() == b@.len(),
            forall|j: int| 0 <= j < i ==> a@[j] == b@[j],
        decreases a@.len() - i,
    {
        if a[i] != b[i] {
            return false;
        }
        i = i + 1;
    }
    proof {
        assert(a@ =~= b@);
    }
    true
}

/// A byte-for-byte copy of a byte vector.
pub fn copy_bytes(v: &Vec<u8>) -> (r: Vec<u8>)
    ensures
        r@ == v@,
{
    let mut out: Vec<u8> = Vec::new();
    let mut i: usize = 0;
    while i < v.len()
        invariant
            0 <= i <= v@.len(),
            out@ == v@.subrange(0, i as int),
        decreases v@.len() - i,
    {
        out.push(v[i]);
        proof {
            assert(v@.subrange(0, i as int + 1) =~= v@.subrange(0, i as int).push(v@[i as int]));
        }
        i = i + 1;
    }
    proof {
        assert(v@.subrange(0, v@.len() as int) =~= v@);
    }
    out
}

/// Character-for-character equality of two string slices.
pub fn str_eq(a: &str, b: &str) -> (r: bool)
    ensures
        r == (a@ == b@),
{
    let n: usize = a.unicode_len();
    let m: usize = b.unicode_len();
    if n != m {
        return false;
    }
    let mut i: usize = 0;
    while i < n
        invariant
            0 <= i <= n,
            n == a@.len(),
            n == b@.len(),
            forall|j: int| 0 <= j < i ==> a@[j] == b@[j],
        decreases n - i,
    {
        if a.get_char(i) != b.get_char(i) {
            return false;
        }
        i = i + 1;
    }
    proof {
        assert(a@ =~= b@);
    }
    true
}

/// Relies on `String::push`: appends exactly one character.
#[verifier::external_body]
pub fn push_char(s: &mut String, c: char)
    ensures
        final(s)@ == old(s)@.push(c),
{
    s.push(c);
}

/// Parses a decimal integer exactly as `i64::from_str` would.
pub fn parse_i64(s: &str) -> (r: Option<i64>)
    ensures
        match parse_i64_spec(s@) {
            Some(v) => r == Some(v as i64),
            None => r is None,
        },
{
    let n: usize = s.unicode_len();
    if n == 0 {
        return None;
    }
    let first = s.get_char(0);
    let neg = first == '-';
    let start: usize = if first == '-' || first == '+' {
        1
    } else {
        0
    };
    if n == start {
        return None;
    }
    let ghost body = sign_skip(s@);
    // One more than the largest magnitude an `i64` can carry (that of `i64::MIN`).
    let limit: u64 = 9223372036854775808u64;
    let mut acc: u64 = 0;
    let mut too_big = false;
    let mut i: usize = start;
    while i < n
        invariant
            start <= i <= n,
            n == s@.len(),
            start == 0 || start == 1,
            start == 1 ==> (s@[0] == '-' || s@[0] == '+'),
            start == 0 ==> !(s@[0] == '-' || s@[0] == '+'),
            n > start,
            limit == 9223372036854775808u64,
            body == s@.subrange(start as int, n as int),
            all_digits(body.subrange(0, i - start)),
            !too_big ==> acc <= limit && acc == digits_val(body.subrange(0, i - start)),
            too_big ==> digits_val(body.subrange(0, i - start)) > limit,
        decreases n - i,
    {
        let c = s.get_char(i);
        if !('0' <= c && c <= '9') {
            proof {
                assert(body =~= sign_skip(s@));
                assert(body[i - start] == c);
                assert(!is_digit(body[i - start]));
                assert(!all_digits(body));
            }
            return None;
        }
        let d: u64 = (c as u32 - 48) as u64;
        proof {
            assert(body.subrange(0, i + 1 - start).drop_last() =~= body.subrange(0, i - start));
        }
        if !too_big {
            if acc >= 922337203685477581u64 {
                proof {
                    assert(acc * 10 >= 922337203685477581i64 * 10);
                }
                too_big = true;
            } else {
                let next: u64 = acc * 10 + d;
                if next > limit {
                    too_big = true;
                } else {
                    acc = next;
                }
            }
        } else {
            proof {
                lemma_digits_val_nonneg(body.subrange(0, i - start));
                assert(digits_val(body.subrange(0, i - start)) * 10 >= digits_val(
                    body.subrange(0, i - start),
                )) by (nonlinear_arith)
                    requires
                        digits_val(body.subrange(0, i - start)) >= 0,
                ;
            }
        }
        i = i + 1;
    }
    proof {
        assert(body.subrange(0, n - start) =~= body);
    }
    if too_big {
        return None;
    }
    if neg {
        if acc == 9223372036854775808u64 {
            return Some(i64::MIN);
        }
        let v: i64 = acc as i64;
        Some(-v)
    } else {
        if acc > 9223372036854775807u64 {
            return None;
        }
        Some(acc as i64)
    }
}

/// Decimal digit string of a natural number, most significant digit first.
pub open spec fn dec_str(n: nat) -> Seq<char>
    decreases n,
{
    if n < 10 {
        seq![digit_char(n as int)]
    } else {
        dec_str(n / 10).push(digit_char((n % 10) as int))
    }
}

/// Digit character for a value between zero and nine.
pub open spec fn digit_char(d: int) -> char {
    if d == 0 {
        '0'
    } else if d == 1 {
        '1'
    } else if d == 2 {
        '2'
    } else if d == 3 {
        '3'
    } else if d == 4 {
        '4'
    } else if d == 5 {
        '5'
    } else if d == 6 {
        '6'
    } else if d == 7 {
        '7'
    } else if d == 8 {
        '8'
    } else {
        '9'
    }
}

fn digit_char_exec(d: u64) -> (c: char)
    requires
        d < 10,
    ensures
        c == digit_char(d as int),
{
    if d == 0 {
        '0'
    } else if d == 1 {
        '1'
    } else if d == 2 {
        '2'
    } else if d == 3 {
        '3'
    } else if d == 4 {
        '4'
    } else if d == 5 {
        '5'
    } else if d == 6 {
        '6'
    } else if d == 7 {
        '7'
    } else if d == 8 {
        '8'
    } else {
        '9'
    }
}

/// Writes `n` in decimal at the end of `out`.
pub fn append_u64_dec(out: &mut String, n: u64)
    ensures
        final(out)@ == old(out)@ + dec_str(n as nat),
{
    let mut digits: Vec<char> = Vec::new();
    let mut m: u64 = n;
    loop
        invariant_except_break
            dec_str(n as nat) == dec_str(m as nat) + digits@,
        ensures
            dec_str(n as nat) == digits@,
        decreases m,
    {
        proof {
            reveal_with_fuel(dec_str, 2);
        }
        let ghost olddigits = digits@;
        let d = digit_char_exec(m % 10);
        if m < 10 {
            digits.insert(0, d);
            proof {
                assert(digits@ =~= seq![digit_char(m as int)] + olddigits);
                assert(dec_str(m as nat) =~= seq![digit_char(m as int)]);
                assert(dec_str(n as nat) =~= digits@);
            }
            break;
        } else {
            digits.insert(0, d);
            proof {
                assert(digits@ =~= seq![digit_char((m % 10) as int)] + olddigits);
                assert(dec_str(m as nat) =~= dec_str((m as nat) / 10).push(
                    digit_char(((m as nat) % 10) as int),
                ));
                assert(dec_str((m as nat) / 10) + digits@ =~= dec_str(m as nat) + olddigits);
            }
            m = m / 10;
        }
    }
    let mut i: usize = 0;
    while i < digits.len()
        invariant
            0 <= i <= digits@.len(),
            dec_str(n as nat) == digits@,
            out@ == old(out)@ + digits@.subrange(0, i as int),
        decreases digits@.len() - i,
    {
        push_char(out, digits[i]);
        proof {
            assert(old(out)@ + digits@.subrange(0, i + 1 as int) =~= (old(out)@ + digits@.subrange(
                0,
                i as int,
            )).push(digits@[i as int]));
        }
        i = i + 1;
    }
    proof {
        assert(digits@.subrange(0, digits@.len() as int) =~= digits@);
    }
}

} // verus!
