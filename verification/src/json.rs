//! A small JSON reader and writer for the crate's documents: policy files,
//! tickets and the other records that travel as JSON text.
//!
//! The reader is a plain recursive-descent scanner over characters; the
//! writer's output is pinned exactly by spec functions, so that what a
//! document serialises to is part of its contract.

use vstd::prelude::*;

use crate::handshake::hex_digit;
use crate::util::push_char;

verus! {

/// The text is not the JSON shape the caller expected.
#[derive(Debug, Clone, PartialEq, Eq, Structural)]
pub struct JsonError;

/// JSON whitespace.
pub open spec fn is_ws(c: char) -> bool {
    c == ' ' || c == '\t' || c == '\n' || c == '\r'
}

/// The JSON escape of one character, as the writer emits it: quote and
/// backslash get a backslash, the named control characters their short
/// escape, other control characters a `\u00..` escape, and everything else
/// stands as itself.
pub open spec fn esc_char(c: char) -> Seq<char> {
    if c == '"' {
        "\\\""@
    } else if c == '\\' {
        "\\\\"@
    } else if c == '\n' {
        "\\n"@
    } else if c == '\t' {
        "\\t"@
    } else if c == '\r' {
        "\\r"@
    } else if c == '\u{0008}' {
        "\\b"@
    } else if c == '\u{000C}' {
        "\\f"@
    } else if (c as u32) < 32 {
        "\\u00"@ + seq![hex_digit(((c as u32) / 16) as int), hex_digit(((c as u32) % 16) as int)]
    } else {
        seq![c]
    }
}

/// The body of a JSON string literal for `s`.
pub open spec fn esc_str(s: Seq<char>) -> Seq<char>
    decreases s.len(),
{
    if s.len() == 0 {
        Seq::empty()
    } else {
        esc_str(s.drop_last()) + esc_char(s.last())
    }
}

/// The JSON string literal for `s`, quotes included.
pub open spec fn json_string(s: Seq<char>) -> Seq<char> {
    "\""@ + esc_str(s) + "\""@
}

/// The JSON array of string literals for `v`.
pub open spec fn json_string_array(v: Seq<Seq<char>>) -> Seq<char> {
    "["@ + json_string_items(v) + "]"@
}

/// The comma-separated items of a string array.
pub open spec fn json_string_items(v: Seq<Seq<char>>) -> Seq<char>
    decreases v.len(),
{
    if v.len() == 0 {
        Seq::empty()
    } else if v.len() == 1 {
        json_string(v[0])
    } else {
        json_string_items(v.drop_last()) + ","@ + json_string(v.last())
    }
}

fn hex_digit_exec(d: u32) -> (c: char)
    requires
        d < 16,
    ensures
        c == hex_digit(d as int),
{
    if d == 0 {
        '0'
    } else if d == 1 {
        '1'
    } else if d == 2 {
        '2'
    } else if d == 3 {
        '3'
    } else if d == 4 {
        '4'
    } else if d == 5 {
        '5'
    } else if d == 6 {
        '6'
    } else if d == 7 {
        '7'
    } else if d == 8 {
        '8'
    } else if d == 9 {
        '9'
    } else if d == 10 {
        'a'
    } else if d == 11 {
        'b'
    } else if d == 12 {
        'c'
    } else if d == 13 {
        'd'
    } else if d == 14 {
        'e'
    } else {
        'f'
    }
}

/// Appends the JSON string literal for `s` to `out`.
pub fn append_json_string(out: &mut String, s: &str)
    ensures
        final(out)@ == old(out)@ + json_string(s@),
{
    push_char(out, '"');
    proof {
        reveal_strlit("\"");
        assert(s@.subrange(0, 0) =~= Seq::<char>::empty());
        assert(out@ =~= old(out)@ + "\""@ + esc_str(s@.subrange(0, 0)));
    }
    let n: usize = s.unicode_len();
    let mut i: usize = 0;
    while i < n
        invariant
            0 <= i <= n,
            n == s@.len(),
            out@ == old(out)@ + "\""@ + esc_str(s@.subrange(0, i as int)),
        decreases n - i,
    {
        let c = s.get_char(i);
        proof {
            let t = s@.subrange(0, i as int + 1);
            assert(t.drop_last() =~= s@.subrange(0, i as int));
            assert(t.last() == s@[i as int]);
        }
        if c == '"' {
            push_char(out, '\\');
            push_char(out, '"');
            proof {
                reveal_strlit("\\\"");
                assert(out@ =~= old(out)@ + "\""@ + esc_str(s@.subrange(0, i as int + 1)));
            }
        } else if c == '\\' {
            push_char(out, '\\');
            push_char(out, '\\');
            proof {
                reveal_strlit("\\\\");
                assert(out@ =~= old(out)@ + "\""@ + esc_str(s@.subrange(0, i as int + 1)));
            }
        } else if c == '\n' {
            push_char(out, '\\');
            push_char(out, 'n');
            proof {
                reveal_strlit("\\n");
                assert(out@ =~= old(out)@ + "\""@ + esc_str(s@.subrange(0, i as int + 1)));
            }
        } else if c == '\t' {
            push_char(out, '\\');
            push_char(out, 't');
            proof {
                reveal_strlit("\\t");
                assert(out@ =~= old(out)@ + "\""@ + esc_str(s@.subrange(0, i as int + 1)));
            }
        } else if c == '\r' {
            push_char(out, '\\');
            push_char(out, 'r');
            proof {
                reveal_strlit("\\r");
                assert(out@ =~= old(out)@ + "\""@ + esc_str(s@.subrange(0, i as int + 1)));
            }
        } else if c == '\u{0008}' {
            push_char(out, '\\');
            push_char(out, 'b');
            proof {
                reveal_strlit("\\b");
                assert(out@ =~= old(out)@ + "\""@ + esc_str(s@.subrange(0, i as int + 1)));
            }
        } else if c == '\u{000C}' {
            push_char(out, '\\');
            push_char(out, 'f');
            proof {
                reveal_strlit("\\f");
                assert(out@ =~= old(out)@ + "\""@ + esc_str(s@.subrange(0, i as int + 1)));
            }
        } else if (c as u32) < 32 {
            push_char(out, '\\');
            push_char(out, 'u');
            push_char(out, '0');
            push_char(out, '0');
            push_char(out, hex_digit_exec(c as u32 / 16));
            push_char(out, hex_digit_exec(c as u32 % 16));
            proof {
                reveal_strlit("\\u00");
                assert(out@ =~= old(out)@ + "\""@ + esc_str(s@.subrange(0, i as int + 1)));
            }
        } else {
            push_char(out, c);
            proof {
                assert(out@ =~= old(out)@ + "\""@ + esc_str(s@.subrange(0, i as int + 1)));
            }
        }
        i = i + 1;
    }
    push_char(out, '"');
    proof {
        reveal_strlit("\"");
        assert(s@.subrange(0, n as int) =~= s@);
        assert(out@ =~= old(out)@ + json_string(s@));
    }
}

/// Appends the JSON array of string literals for `v` to `out`.
pub fn append_json_string_array(out: &mut String, v: &Vec<String>)
    ensures
        final(out)@ == old(out)@ + json_string_array(v.deep_view()),
{
    push_char(out, '[');
    proof {
        reveal_strlit("[");
        assert(v.deep_view().subrange(0, 0) =~= Seq::<Seq<char>>::empty());
        assert(out@ =~= old(out)@ + "["@ + json_string_items(v.deep_view().subrange(0, 0)));
    }
    let mut i: usize = 0;
    while i < v.len()
        invariant
            0 <= i <= v@.len(),
            out@ == old(out)@ + "["@ + json_string_items(v.deep_view().subrange(0, i as int)),
        decreases v@.len() - i,
    {
        proof {
            let t = v.deep_view().subrange(0, i as int + 1);
            assert(t.drop_last() =~= v.deep_view().subrange(0, i as int));
            assert(t.last() == v.deep_view()[i as int]);
            assert(v.deep_view()[i as int] == v@[i as int]@);
        }
        if i > 0 {
            push_char(out, ',');
        }
        append_json_string(out, v[i].as_str());
        proof {
            reveal_strlit(",");
            assert(out@ =~= old(out)@ + "["@ + json_string_items(
                v.deep_view().subrange(0, i as int + 1),
            ));
        }
        i = i + 1;
    }
    push_char(out, ']');
    proof {
        reveal_strlit("]");
        assert(v.deep_view().subrange(0, v.deep_view().len() as int) =~= v.deep_view());
        assert(out@ =~= old(out)@ + json_string_array(v.deep_view()));
    }
}

/// The decimal JSON rendering of a byte array.
pub open spec fn json_u8_array(v: Seq<u8>) -> Seq<char> {
    "["@ + json_u8_items(v) + "]"@
}

/// The comma-separated decimal items of a byte array.
pub open spec fn json_u8_items(v: Seq<u8>) -> Seq<char>
    decreases v.len(),
{
    if v.len() == 0 {
        Seq::empty()
    } else if v.len() == 1 {
        crate::util::dec_str(v[0] as nat)
    } else {
        json_u8_items(v.drop_last()) + ","@ + crate::util::dec_str(v.last() as nat)
    }
}

/// Appends the decimal JSON array for `v` to `out`.
pub fn append_json_u8_array(out: &mut String, v: &Vec<u8>)
    ensures
        final(out)@ == old(out)@ + json_u8_array(v@),
{
    push_char(out, '[');
    proof {
        reveal_strlit("[");
        assert(v@.subrange(0, 0) =~= Seq::<u8>::empty());
        assert(out@ =~= old(out)@ + "["@ + json_u8_items(v@.subrange(0, 0)));
    }
    let mut i: usize = 0;
    while i < v.len()
        invariant
            0 <= i <= v@.len(),
            out@ == old(out)@ + "["@ + json_u8_items(v@.subrange(0, i as int)),
        decreases v@.len() - i,
    {
        proof {
            let t = v@.subrange(0, i as int + 1);
            assert(t.drop_last() =~= v@.subrange(0, i as int));
            assert(t.last() == v@[i as int]);
        }
        if i > 0 {
            push_char(out, ',');
        }
        crate::util::append_u64_dec(out, v[i] as u64);
        proof {
            reveal_strlit(",");
            assert(out@ =~= old(out)@ + "["@ + json_u8_items(v@.subrange(0, i as int + 1)));
        }
        i = i + 1;
    }
    push_char(out, ']');
    proof {
        reveal_strlit("]");
        assert(v@.subrange(0, v@.len() as int) =~= v@);
        assert(out@ =~= old(out)@ + json_u8_array(v@));
    }
}

/// Reads a non-negative integer at `pos`, in canonical decimal — no
/// leading zeroes, as JSON demands — so the consumed text is exactly the
/// decimal rendering of the value. Values near the top of `u64` are
/// refused.
pub fn parse_json_u64(s: &str, pos: usize) -> (r: Result<(u64, usize), JsonError>)
    requires
        pos <= s@.len(),
    ensures
        r matches Ok(p) ==> pos < p.1 <= s@.len() && s@.subrange(pos as int, p.1 as int)
            == crate::util::dec_str(p.0 as nat),
{
    let n: usize = s.unicode_len();
    let mut acc: u64 = 0;
    let mut i: usize = pos;
    while i < n
        invariant
            pos <= i <= n,
            n == s@.len(),
            acc <= 18446744073709551609u64,
            crate::util::all_digits(s@.subrange(pos as int, i as int)),
            acc == crate::util::digits_val(s@.subrange(pos as int, i as int)),
        decreases n - i,
    {
        let c = s.get_char(i);
        if '0' <= c && c <= '9' {
            if acc > 1844674407370955160u64 {
                return Err(JsonError);
            }
            proof {
                let t = s@.subrange(pos as int, i as int + 1);
                assert(t.drop_last() =~= s@.subrange(pos as int, i as int));
                assert(t.last() == s@[i as int]);
            }
            acc = acc * 10 + ((c as u32 - 48) as u64);
            i = i + 1;
        } else {
            break ;
        }
    }
    if i == pos {
        return Err(JsonError);
    }
    if i - pos > 1 && s.get_char(pos) == '0' {
        return Err(JsonError);
    }
    proof {
        crate::util::lemma_dec_str_canonical(s@.subrange(pos as int, i as int));
    }
    Ok((acc, i))
}

/// Reads `true` or `false` at `pos`.
pub fn parse_json_bool(s: &str, pos: usize) -> (r: Result<(bool, usize), JsonError>)
    requires
        pos <= s@.len(),
    ensures
        r matches Ok(p) ==> pos < p.1 <= s@.len(),
{
    let n: usize = s.unicode_len();
    if pos < n && s.get_char(pos) == 't' {
        if n - pos >= 4 && s.get_char(pos + 1) == 'r' && s.get_char(pos + 2) == 'u' && s.get_char(
            pos + 3,
        ) == 'e' {
            Ok((true, pos + 4))
        } else {
            Err(JsonError)
        }
    } else if pos < n && s.get_char(pos) == 'f' {
        if n - pos >= 5 && s.get_char(pos + 1) == 'a' && s.get_char(pos + 2) == 'l' && s.get_char(
            pos + 3,
        ) == 's' && s.get_char(pos + 4) == 'e' {
            Ok((false, pos + 5))
        } else {
            Err(JsonError)
        }
    } else {
        Err(JsonError)
    }
}

/// Reads an array of byte-sized integers at `pos`, in canonical form —
/// no whitespace, decimal elements — so the consumed text is exactly the
/// array's rendering.
#[verifier::loop_isolation(false)]
pub fn parse_u8_array(s: &str, pos: usize) -> (r: Result<(Vec<u8>, usize), JsonError>)
    requires
        pos <= s@.len(),
    ensures
        r matches Ok(p) ==> pos < p.1 <= s@.len() && s@.subrange(pos as int, p.1 as int)
            == json_u8_array(p.0@),
{
    let n: usize = s.unicode_len();
    if pos >= n || s.get_char(pos) != '[' {
        return Err(JsonError);
    }
    let mut out: Vec<u8> = Vec::new();
    let mut i: usize = pos + 1;
    if i < n && s.get_char(i) == ']' {
        proof {
            reveal_strlit("[");
            reveal_strlit("]");
            assert(s@.subrange(pos as int, pos + 2) =~= json_u8_array(out@));
        }
        return Ok((out, i + 1));
    }
    loop
        invariant
            pos < i <= n,
            out@.len() == 0 ==> i == pos + 1,
            out@.len() > 0 ==> s@.subrange(pos as int + 1, i as int) == json_u8_items(out@)
                + ","@,
        decreases n - i,
    {
        let ghost pre = out@;
        let (v, p) = parse_json_u64(s, i)?;
        if v > 255 {
            return Err(JsonError);
        }
        out.push(v as u8);
        proof {
            reveal_strlit(",");
            assert(out@.drop_last() =~= pre);
            assert(out@.last() == v as u8);
            assert(crate::util::dec_str((v as u8) as nat) == crate::util::dec_str(v as nat));
            if pre.len() == 0 {
                assert(s@.subrange(pos as int + 1, p as int) =~= json_u8_items(out@));
            } else {
                assert(s@.subrange(pos as int + 1, p as int) =~= json_u8_items(pre) + ","@
                    + crate::util::dec_str(v as nat));
                assert(json_u8_items(out@) == json_u8_items(pre) + ","@ + crate::util::dec_str(
                    (v as u8) as nat,
                ));
                assert(s@.subrange(pos as int + 1, p as int) =~= json_u8_items(out@));
            }
        }
        if p >= n {
            return Err(JsonError);
        }
        let c = s.get_char(p);
        if c == ']' {
            proof {
                reveal_strlit("[");
                reveal_strlit("]");
                assert(s@.subrange(pos as int, p + 1) =~= json_u8_array(out@));
            }
            return Ok((out, p + 1));
        }
        if c != ',' {
            return Err(JsonError);
        }
        proof {
            reveal_strlit(",");
            assert(s@.subrange(pos as int + 1, p + 1) =~= json_u8_items(out@) + ","@);
        }
        i = p + 1;
    }
}

/// First position at or after `pos` that holds no whitespace.
pub fn skip_ws(s: &str, pos: usize) -> (r: usize)
    requires
        pos <= s@.len(),
    ensures
        pos <= r <= s@.len(),
        forall|i: int| pos <= i < r ==> is_ws(#[trigger] s@[i]),
        r < s@.len() ==> !is_ws(s@[r as int]),
{
    let n: usize = s.unicode_len();
    let mut i: usize = pos;
    while i < n
        invariant
            pos <= i <= n,
            n == s@.len(),
            forall|j: int| pos <= j < i ==> is_ws(#[trigger] s@[j]),
        decreases n - i,
    {
        let c = s.get_char(i);
        if !(c == ' ' || c == '\t' || c == '\n' || c == '\r') {
            return i;
        }
        i = i + 1;
    }
    i
}

/// Value of one hexadecimal digit character.
fn hex_val(c: char) -> (r: Option<u32>)
    ensures
        r matches Some(v) ==> v < 16,
{
    if '0' <= c && c <= '9' {
        Some(c as u32 - 48)
    } else if 'a' <= c && c <= 'f' {
        Some(c as u32 - 87)
    } else if 'A' <= c && c <= 'F' {
        Some(c as u32 - 55)
    } else {
        None
    }
}

/// Reads the string literal that starts at `pos` (which must hold `"`).
/// Exactly the escapes the writer emits are accepted — the named short
/// escapes, and `\u00..` in lowercase for the remaining control
/// characters — so an accepted literal is precisely the canonical
/// encoding of the returned value.
#[verifier::loop_isolation(false)]
pub fn parse_string(s: &str, pos: usize) -> (r: Result<(String, usize), JsonError>)
    requires
        pos <= s@.len(),
    ensures
        r matches Ok(p) ==> pos < p.1 <= s@.len() && s@.subrange(pos as int, p.1 as int)
            == json_string(p.0@),
        forall|v: Seq<char>, rest: Seq<char>|
            (#[trigger] (json_string(v) + rest)) == s@.skip(pos as int) && plain_text(v) ==> (
            r matches Ok(p) && p.0@ == v && p.1 == pos + json_string(v).len()),
{
    let n: usize = s.unicode_len();
    if pos >= n || s.get_char(pos) != '"' {
        proof {
            assert forall|v: Seq<char>, rest: Seq<char>|
                (json_string(v) + rest) == s@.skip(pos as int) && plain_text(v) implies false by {
                let w = json_string(v) + rest;
                reveal_strlit("\"");
                assert(w.len() >= 2);
                assert(s@.skip(pos as int).len() == s@.len() - pos);
                assert(pos < s@.len());
                assert(w[0] == '"');
                assert(s@.skip(pos as int)[0] == s@[pos as int]);
            }
        }
        return Err(JsonError);
    }
    let mut out = String::new();
    let mut i: usize = pos + 1;
    proof {
        assert(s@.subrange(pos as int + 1, pos as int + 1) =~= esc_str(out@));
    }
    while i < n
        invariant
            pos < i <= n,
            s@.subrange(pos as int + 1, i as int) == esc_str(out@),
            forall|v: Seq<char>, rest: Seq<char>|
                (#[trigger] (json_string(v) + rest)) == s@.skip(pos as int) && plain_text(v) ==> (
                i - pos - 1 <= v.len() && out@ == v.subrange(0, i - pos - 1)),
        decreases n - i,
    {
        let c = s.get_char(i);
        let ghost pre = out@;
        if c == '"' {
            proof {
                reveal_strlit("\"");
                assert(s@.subrange(pos as int, i as int + 1) =~= json_string(out@));
                assert forall|v: Seq<char>, rest: Seq<char>|
                    (json_string(v) + rest) == s@.skip(pos as int) && plain_text(v) implies out@
                    == v && i + 1 == pos + json_string(v).len() by {
                    let w = json_string(v) + rest;
                    lemma_esc_plain(v);
                    assert(json_string(v) =~= seq!['"'] + v + seq!['"']);
                    let j0 = i - pos - 1;
                    assert(s@[i as int] == w[i - pos as int]);
                    if j0 < v.len() {
                        assert(w[j0 + 1] == v[j0 as int]);
                        assert(v[j0 as int] != '"');
                    }
                    assert(j0 == v.len());
                    assert(out@ =~= v);
                }
            }
            return Ok((out, i + 1));
        } else if c == '\\' {
            proof {
                assert forall|v: Seq<char>, rest: Seq<char>|
                    (json_string(v) + rest) == s@.skip(pos as int) && plain_text(v) implies false by {
                    let w = json_string(v) + rest;
                    lemma_esc_plain(v);
                    reveal_strlit("\"");
                    assert(json_string(v) =~= seq!['"'] + v + seq!['"']);
                    let j0 = i - pos - 1;
                    assert(s@[i as int] == w[i - pos as int]);
                    if j0 < v.len() {
                        assert(w[j0 + 1] == v[j0 as int]);
                        assert(v[j0 as int] != '\\');
                    } else {
                        assert(w[j0 + 1] == '"');
                    }
                }
            }
            if i + 1 >= n {
                return Err(JsonError);
            }
            let e = s.get_char(i + 1);
            if e == '"' {
                push_char(&mut out, '"');
                proof {
                    reveal_strlit("\\\"");
                    assert(pre.push('"').drop_last() =~= pre);
                    assert(s@.subrange(pos as int + 1, i as int + 2) =~= esc_str(pre.push('"')));
                }
            } else if e == '\\' {
                push_char(&mut out, '\\');
                proof {
                    reveal_strlit("\\\\");
                    assert(pre.push('\\').drop_last() =~= pre);
                    assert(s@.subrange(pos as int + 1, i as int + 2) =~= esc_str(pre.push('\\')));
                }
            } else if e == 'n' {
                push_char(&mut out, '\n');
                proof {
                    reveal_strlit("\\n");
                    assert(pre.push('\n').drop_last() =~= pre);
                    assert(s@.subrange(pos as int + 1, i as int + 2) =~= esc_str(pre.push('\n')));
                }
            } else if e == 't' {
                push_char(&mut out, '\t');
                proof {
                    reveal_strlit("\\t");
                    assert(pre.push('\t').drop_last() =~= pre);
                    assert(s@.subrange(pos as int + 1, i as int + 2) =~= esc_str(pre.push('\t')));
                }
            } else if e == 'r' {
                push_char(&mut out, '\r');
                proof {
                    reveal_strlit("\\r");
                    assert(pre.push('\r').drop_last() =~= pre);
                    assert(s@.subrange(pos as int + 1, i as int + 2) =~= esc_str(pre.push('\r')));
                }
            } else if e == 'b' {
                push_char(&mut out, '\u{0008}');
                proof {
                    reveal_strlit("\\b");
                    assert(pre.push('\u{0008}').drop_last() =~= pre);
                    assert(s@.subrange(pos as int + 1, i as int + 2) =~= esc_str(
                        pre.push('\u{0008}'),
                    ));
                }
            } else if e == 'f' {
                push_char(&mut out, '\u{000C}');
                proof {
                    reveal_strlit("\\f");
                    assert(pre.push('\u{000C}').drop_last() =~= pre);
                    assert(s@.subrange(pos as int + 1, i as int + 2) =~= esc_str(
                        pre.push('\u{000C}'),
                    ));
                }
            } else if e == 'u' {
                if n - i < 6 {
                    return Err(JsonError);
                }
                if s.get_char(i + 2) != '0' || s.get_char(i + 3) != '0' {
                    return Err(JsonError);
                }
                let d3 = match hex_val(s.get_char(i + 4)) {
                    Some(v) => v,
                    None => {
                        return Err(JsonError);
                    },
                };
                let d4 = match hex_val(s.get_char(i + 5)) {
                    Some(v) => v,
                    None => {
                        return Err(JsonError);
                    },
                };
                let v: u32 = d3 * 16 + d4;
                if v >= 32 {
                    return Err(JsonError);
                }
                if v == 8 || v == 9 || v == 10 || v == 12 || v == 13 {
                    return Err(JsonError);
                }
                if s.get_char(i + 4) != hex_digit_exec(d3) || s.get_char(i + 5) != hex_digit_exec(
                    d4,
                ) {
                    return Err(JsonError);
                }
                let cc = (v as u8) as char;
                push_char(&mut out, cc);
                proof {
                    reveal_strlit("\\u00");
                    assert(cc as u32 == v);
                    assert(esc_char(cc) =~= "\\u00"@ + seq![
                        hex_digit(((cc as u32) / 16) as int),
                        hex_digit(((cc as u32) % 16) as int),
                    ]);
                    assert(pre.push(cc).drop_last() =~= pre);
                    assert(s@.subrange(pos as int + 1, i as int + 6) =~= esc_str(pre.push(cc)));
                }
                i = i + 6;
                continue ;
            } else {
                return Err(JsonError);
            }
            i = i + 2;
        } else {
            if (c as u32) < 32 {
                proof {
                    assert forall|v: Seq<char>, rest: Seq<char>|
                        (json_string(v) + rest) == s@.skip(pos as int) && plain_text(v) implies false by {
                        let w = json_string(v) + rest;
                        lemma_esc_plain(v);
                        reveal_strlit("\"");
                        assert(json_string(v) =~= seq!['"'] + v + seq!['"']);
                        let j0 = i - pos - 1;
                        assert(s@[i as int] == w[i - pos as int]);
                        if j0 < v.len() {
                            assert(w[j0 + 1] == v[j0 as int]);
                            assert((v[j0 as int] as u32) >= 32);
                        } else {
                            assert(w[j0 + 1] == '"');
                        }
                    }
                }
                return Err(JsonError);
            }
            push_char(&mut out, c);
            proof {
                assert(esc_char(c) =~= seq![c]);
                assert(pre.push(c).drop_last() =~= pre);
                assert(s@.subrange(pos as int + 1, i as int + 1) =~= esc_str(pre.push(c)));
                assert forall|v: Seq<char>, rest: Seq<char>|
                    (json_string(v) + rest) == s@.skip(pos as int) && plain_text(v) implies (i + 1
                    - pos - 1 <= v.len() && out@ == v.subrange(0, i + 1 - pos - 1)) by {
                    let w = json_string(v) + rest;
                    lemma_esc_plain(v);
                    reveal_strlit("\"");
                    assert(json_string(v) =~= seq!['"'] + v + seq!['"']);
                    let j0 = i - pos - 1;
                    assert(s@[i as int] == w[i - pos as int]);
                    if j0 < v.len() {
                        assert(w[j0 + 1] == v[j0 as int]);
                        assert(c == v[j0 as int]);
                        assert(out@ =~= v.subrange(0, j0 + 1));
                    } else {
                        assert(w[j0 + 1] == '"');
                        assert(c == '"');
                    }
                }
            }
            i = i + 1;
        }
    }
    proof {
        assert forall|v: Seq<char>, rest: Seq<char>|
            (json_string(v) + rest) == s@.skip(pos as int) && plain_text(v) implies false by {
            let w = json_string(v) + rest;
            lemma_esc_plain(v);
            reveal_strlit("\"");
            assert(json_string(v) =~= seq!['"'] + v + seq!['"']);
            assert(w.len() == v.len() + 2 + rest.len());
            assert(s@.len() - pos == w.len());
        }
    }
    Err(JsonError)
}

/// Text that needs no escaping: no control characters, quotes or
/// backslashes. Every valid SQL identifier is plain.
pub open spec fn plain_text(v: Seq<char>) -> bool {
    forall|i: int|
        0 <= i < v.len() ==> (#[trigger] v[i]) as u32 >= 32 && v[i] != '"' && v[i] != '\\'
}

/// Plain text is its own escape.
pub proof fn lemma_esc_plain(v: Seq<char>)
    requires
        plain_text(v),
    ensures
        esc_str(v) == v,
    decreases v.len(),
{
    if v.len() > 0 {
        assert(plain_text(v.drop_last())) by {
            assert(forall|i: int|
                0 <= i < v.drop_last().len() ==> #[trigger] v.drop_last()[i] == v[i]);
        }
        lemma_esc_plain(v.drop_last());
        assert(esc_char(v.last()) =~= seq![v.last()]);
        assert(esc_str(v.drop_last()) + esc_char(v.last()) =~= v);
    }
}

/// Demands the exact text `lit` at `pos` and steps over it: it succeeds
/// precisely when the text is there.
#[verifier::loop_isolation(false)]
pub fn parse_exact(s: &str, pos: usize, lit: &str) -> (r: Result<usize, JsonError>)
    requires
        pos <= s@.len(),
    ensures
        r matches Ok(p) ==> pos + lit@.len() == p && p <= s@.len(),
        r is Ok <==> pos + lit@.len() <= s@.len() && s@.subrange(
            pos as int,
            pos + lit@.len(),
        ) == lit@,
{
    let n: usize = s.unicode_len();
    let m: usize = lit.unicode_len();
    if n - pos < m {
        return Err(JsonError);
    }
    let mut j: usize = 0;
    while j < m
        invariant
            0 <= j <= m,
            forall|k: int| 0 <= k < j ==> s@[pos + k] == lit@[k],
        decreases m - j,
    {
        if s.get_char(pos + j) != lit.get_char(j) {
            proof {
                assert(s@[pos + j] != lit@[j as int]);
            }
            return Err(JsonError);
        }
        j = j + 1;
    }
    proof {
        assert(s@.subrange(pos as int, pos + m as int) =~= lit@);
    }
    Ok(pos + m)
}

/// Reads `null` at `pos`.
fn parse_null(s: &str, pos: usize) -> (r: Result<usize, JsonError>)
    requires
        pos <= s@.len(),
    ensures
        r matches Ok(p) ==> pos < p <= s@.len(),
{
    let n: usize = s.unicode_len();
    if n - pos >= 4 && s.get_char(pos) == 'n' && s.get_char(pos + 1) == 'u' && s.get_char(pos + 2)
        == 'l' && s.get_char(pos + 3) == 'l' {
        Ok(pos + 4)
    } else {
        Err(JsonError)
    }
}

/// Reads a string literal or `null` at `pos`.
pub fn parse_opt_string(s: &str, pos: usize) -> (r: Result<(Option<String>, usize), JsonError>)
    requires
        pos <= s@.len(),
    ensures
        r matches Ok(p) ==> pos < p.1 <= s@.len(),
{
    let n: usize = s.unicode_len();
    if pos < n && s.get_char(pos) == '"' {
        let (v, p) = parse_string(s, pos)?;
        Ok((Some(v), p))
    } else {
        let p = parse_null(s, pos)?;
        Ok((None, p))
    }
}

/// Reads an array of string literals at `pos`.
pub fn parse_string_array(s: &str, pos: usize) -> (r: Result<(Vec<String>, usize), JsonError>)
    requires
        pos <= s@.len(),
    ensures
        r matches Ok(p) ==> pos < p.1 <= s@.len(),
{
    let n: usize = s.unicode_len();
    if pos >= n || s.get_char(pos) != '[' {
        return Err(JsonError);
    }
    let mut out: Vec<String> = Vec::new();
    let mut i: usize = skip_ws(s, pos + 1);
    if i < n && s.get_char(i) == ']' {
        return Ok((out, i + 1));
    }
    loop
        invariant
            pos < i <= n,
            n == s@.len(),
        decreases n - i,
    {
        let (v, p) = parse_string(s, i)?;
        out.push(v);
        let q = skip_ws(s, p);
        if q >= n {
            return Err(JsonError);
        }
        let c = s.get_char(q);
        if c == ']' {
            return Ok((out, q + 1));
        }
        if c != ',' {
            return Err(JsonError);
        }
        let next = skip_ws(s, q + 1);
        if next <= i {
            return Err(JsonError);
        }
        i = next;
    }
}

/// Skips a number at `pos`: a sign, digits, a fraction and an exponent are
/// consumed without being interpreted.
fn skip_number(s: &str, pos: usize) -> (r: Result<usize, JsonError>)
    requires
        pos <= s@.len(),
    ensures
        r matches Ok(p) ==> pos < p <= s@.len(),
{
    let n: usize = s.unicode_len();
    let mut i: usize = pos;
    while i < n
        invariant
            pos <= i <= n,
            n == s@.len(),
        decreases n - i,
    {
        let c = s.get_char(i);
        if ('0' <= c && c <= '9') || c == '-' || c == '+' || c == '.' || c == 'e' || c == 'E' {
            i = i + 1;
        } else {
            break;
        }
    }
    if i == pos {
        Err(JsonError)
    } else {
        Ok(i)
    }
}

/// Skips one JSON value of any shape at `pos`, without interpreting it.
pub fn skip_value(s: &str, pos: usize) -> (r: Result<usize, JsonError>)
    requires
        pos <= s@.len(),
    ensures
        r matches Ok(p) ==> pos < p <= s@.len(),
    decreases s@.len() - pos,
{
    let n: usize = s.unicode_len();
    if pos >= n {
        return Err(JsonError);
    }
    let c = s.get_char(pos);
    if c == '"' {
        let (_, p) = parse_string(s, pos)?;
        Ok(p)
    } else if c == '[' {
        let mut i: usize = skip_ws(s, pos + 1);
        if i < n && s.get_char(i) == ']' {
            return Ok(i + 1);
        }
        loop
            invariant
                pos < i <= n,
                n == s@.len(),
            decreases n - i,
        {
            let p = skip_value(s, i)?;
            let q = skip_ws(s, p);
            if q >= n {
                return Err(JsonError);
            }
            let c2 = s.get_char(q);
            if c2 == ']' {
                return Ok(q + 1);
            }
            if c2 != ',' {
                return Err(JsonError);
            }
            let next = skip_ws(s, q + 1);
            if next <= i {
                return Err(JsonError);
            }
            i = next;
        }
    } else if c == '{' {
        let mut i: usize = skip_ws(s, pos + 1);
        if i < n && s.get_char(i) == '}' {
            return Ok(i + 1);
        }
        loop
            invariant
                pos < i <= n,
                n == s@.len(),
            decreases n - i,
        {
            let (_, p) = parse_string(s, i)?;
            let q = skip_ws(s, p);
            if q >= n || s.get_char(q) != ':' {
                return Err(JsonError);
            }
            let v = skip_ws(s, q + 1);
            if v <= i {
                return Err(JsonError);
            }
            let p2 = skip_value(s, v)?;
            let q2 = skip_ws(s, p2);
            if q2 >= n {
                return Err(JsonError);
            }
            let c2 = s.get_char(q2);
            if c2 == '}' {
                return Ok(q2 + 1);
            }
            if c2 != ',' {
                return Err(JsonError);
            }
            let next = skip_ws(s, q2 + 1);
            if next <= i {
                return Err(JsonError);
            }
            i = next;
        }
    } else if c == 't' {
        if n - pos >= 4 && s.get_char(pos + 1) == 'r' && s.get_char(pos + 2) == 'u' && s.get_char(
            pos + 3,
        ) == 'e' {
            Ok(pos + 4)
        } else {
            Err(JsonError)
        }
    } else if c == 'f' {
        if n - pos >= 5 && s.get_char(pos + 1) == 'a' && s.get_char(pos + 2) == 'l' && s.get_char(
            pos + 3,
        ) == 's' && s.get_char(pos + 4) == 'e' {
            Ok(pos + 5)
        } else {
            Err(JsonError)
        }
    } else if c == 'n' {
        parse_null(s, pos)
    } else {
        skip_number(s, pos)
    }
}

} // verus!
