//! Executable encoding and decoding of the wire format.
//!
//! Every function here is proved to agree exactly with the spec functions
//! of [`crate::wire`]: serializers produce `expense_json` / `genre_json`
//! verbatim, and parsers return precisely what the `sp_*` parsers denote.

use vstd::prelude::*;
use vstd::string::StrSliceExecFns;
use vstd::string::StringExecFns;

use crate::models::{ApiMessage, Expense, ExpenseWithId, Genre, GenreWithId};
use crate::text::{char_from_u32, push_char, str_to_chars};
use crate::wire::{
    dec_chars, digit_char, digit_val, escape_char, escape_seq, expense_json, genre_json, hex_char,
    hex_val, int_chars, is_digit_char, is_hex_char, json_string, sp_api_message_obj, sp_digits,
    sp_expense_items, sp_expense_list, sp_expense_obj, sp_expense_with_id_obj, sp_genre_items,
    sp_genre_list, sp_genre_obj, sp_genre_with_id_obj, sp_int_field, sp_lit,
    sp_parse_api_message, sp_parse_expense, sp_parse_expense_list, sp_parse_genre,
    sp_parse_genre_list, sp_str_field, sp_string_body, sp_ws, tok_int, tok_lit, tok_string,
    unescaped_simple,
};

verus! {

// ---------------------------------------------------------------------------
// Sequence bookkeeping
// ---------------------------------------------------------------------------

/// The code point of a character. Stated over both the `u32` and the
/// mathematical casts, so callers can move between the two.
fn char_code(c: char) -> (u: u32)
    ensures
        u == c as u32,
        u as int == c as int,
{
    c as u32
}

/// Stepping one character into a suffix.
proof fn lemma_suffix_step(s: Seq<char>, k: int)
    requires
        0 <= k < s.len(),
    ensures
        s.skip(k).drop_first() == s.skip(k + 1),
        s.skip(k)[0] == s[k],
{
    assert(s.skip(k).drop_first() =~= s.skip(k + 1));
}

/// Suffixes of suffixes.
proof fn lemma_skip_skip(s: Seq<char>, a: int, b: int)
    requires
        0 <= a,
        0 <= b,
        a + b <= s.len(),
    ensures
        s.skip(a).skip(b) == s.skip(a + b),
{
    assert(s.skip(a).skip(b) =~= s.skip(a + b));
}

/// Escaping a sequence one character longer appends that character's escape.
proof fn lemma_escape_snoc(s: Seq<char>, c: char)
    ensures
        escape_seq(s.push(c)) == escape_seq(s) + escape_char(c),
    decreases s.len(),
{
    if s.len() == 0 {
        assert(s.push(c)[0] == c);
        assert(s.push(c).drop_first() =~= Seq::<char>::empty());
        assert(escape_seq(s.push(c)) == escape_char(c) + escape_seq(Seq::<char>::empty()));
        assert(escape_seq(s.push(c)) =~= escape_seq(s) + escape_char(c));
    } else {
        assert(s.push(c)[0] == s[0]);
        assert(s.push(c).drop_first() =~= s.drop_first().push(c));
        lemma_escape_snoc(s.drop_first(), c);
        assert(escape_seq(s.push(c)) == escape_char(s[0]) + escape_seq(s.drop_first().push(c)));
        assert(escape_seq(s.push(c)) =~= escape_seq(s) + escape_char(c));
    }
}

// ---------------------------------------------------------------------------
// Character tables, executable side
// ---------------------------------------------------------------------------

/// The decimal digit character for a value below ten.
fn digit_to_char(d: u32) -> (c: char)
    requires
        d < 10,
    ensures
        c == digit_char(d as int),
{
    if d == 0 {
        '0'
    } else if d == 1 {
        '1'
    } else if d == 2 {
        '2'
    } else if d == 3 {
        '3'
    } else if d == 4 {
        '4'
    } else if d == 5 {
        '5'
    } else if d == 6 {
        '6'
    } else if d == 7 {
        '7'
    } else if d == 8 {
        '8'
    } else {
        '9'
    }
}

/// The lower-case hexadecimal digit character for a value below sixteen.
fn hex_to_char(d: u32) -> (c: char)
    requires
        d < 16,
    ensures
        c == hex_char(d as int),
{
    if d < 10 {
        digit_to_char(d)
    } else if d == 10 {
        'a'
    } else if d == 11 {
        'b'
    } else if d == 12 {
        'c'
    } else if d == 13 {
        'd'
    } else if d == 14 {
        'e'
    } else {
        'f'
    }
}

/// Value of a hexadecimal digit character, if it is one.
fn hex_of(c: char) -> (r: Option<u32>)
    ensures
        r is Some <==> is_hex_char(c),
        r matches Some(x) ==> x == hex_val(c) && x < 16,
{
    let u = c as u32;
    if 48 <= u && u <= 57 {
        Some(u - 48)
    } else if 97 <= u && u <= 102 {
        Some(u - 97 + 10)
    } else if 65 <= u && u <= 70 {
        Some(u - 65 + 10)
    } else {
        None
    }
}

/// The character a simple two-character escape stands for.
fn unescape_simple(e: char) -> (c: char)
    ensures
        c == unescaped_simple(e),
{
    if e == 'b' {
        '\u{8}'
    } else if e == 'f' {
        '\u{c}'
    } else if e == 'n' {
        '\n'
    } else if e == 'r' {
        '\r'
    } else if e == 't' {
        '\t'
    } else {
        e
    }
}

// ---------------------------------------------------------------------------
// Serialization
// ---------------------------------------------------------------------------

/// Appends the JSON string token for `s` to `out`.
fn push_json_string(out: &mut String, s: &str)
    ensures
        final(out)@ == old(out)@ + json_string(s@),
{
    push_char(out, '"');
    let n = s.unicode_len();
    let mut i: usize = 0;
    while i < n
        invariant
            n == s@.len(),
            i <= n,
            out@ == old(out)@ + seq!['"'] + escape_seq(s@.take(i as int)),
        decreases n - i,
    {
        let c = s.get_char(i);
        if c == '"' {
            push_char(out, '\\');
            push_char(out, '"');
        } else if c == '\\' {
            push_char(out, '\\');
            push_char(out, '\\');
        } else if c == '\u{8}' {
            push_char(out, '\\');
            push_char(out, 'b');
        } else if c == '\t' {
            push_char(out, '\\');
            push_char(out, 't');
        } else if c == '\n' {
            push_char(out, '\\');
            push_char(out, 'n');
        } else if c == '\u{c}' {
            push_char(out, '\\');
            push_char(out, 'f');
        } else if c == '\r' {
            push_char(out, '\\');
            push_char(out, 'r');
        } else if (c as u32) < 0x20 {
            let u = c as u32;
            push_char(out, '\\');
            push_char(out, 'u');
            push_char(out, '0');
            push_char(out, '0');
            push_char(out, hex_to_char(u / 16));
            push_char(out, hex_to_char(u % 16));
        } else {
            push_char(out, c);
        }
        proof {
            lemma_escape_snoc(s@.take(i as int), s@[i as int]);
            assert(s@.take(i + 1) =~= s@.take(i as int).push(s@[i as int]));
            assert(out@ =~= old(out)@ + seq!['"'] + escape_seq(s@.take(i + 1)));
        }
        i += 1;
    }
    push_char(out, '"');
    proof {
        assert(s@.take(n as int) =~= s@);
        assert(out@ =~= old(out)@ + json_string(s@));
    }
}

/// Appends the decimal notation of `n` to `out`.
pub(crate) fn push_int(out: &mut String, n: i32)
    ensures
        final(out)@ == old(out)@ + int_chars(n as int),
{
    let mut a: i64 = n as i64;
    let neg = a < 0;
    if neg {
        push_char(out, '-');
        a = -a;
    }
    let ghost a0: int = a as int;
    let ghost signed: Seq<char> = if neg {
        seq!['-']
    } else {
        Seq::<char>::empty()
    };
    assert(out@ == old(out)@ + signed);
    let mut rev: Vec<char> = Vec::new();
    while a >= 10
        invariant
            0 <= a <= a0,
            dec_chars(a0) == dec_chars(a as int) + rev@.reverse(),
        decreases a,
    {
        let ghost prev: int = a as int;
        let d = (a % 10) as u32;
        rev.push(digit_to_char(d));
        a = a / 10;
        proof {
            assert(rev@.reverse() =~= seq![digit_char(prev % 10)] + rev@.drop_last().reverse());
            assert(dec_chars(a0) =~= dec_chars(a as int) + rev@.reverse());
        }
    }
    let d = a as u32;
    rev.push(digit_to_char(d));
    proof {
        assert(rev@.reverse() =~= seq![digit_char(a as int)] + rev@.drop_last().reverse());
        assert(dec_chars(a0) =~= rev@.reverse());
    }
    let m = rev.len();
    let mut k: usize = 0;
    while k < m
        invariant
            k <= m,
            m == rev.len(),
            rev@.reverse() == dec_chars(a0),
            m == dec_chars(a0).len(),
            out@ == old(out)@ + signed + dec_chars(a0).take(k as int),
        decreases m - k,
    {
        let c = rev[m - 1 - k];
        push_char(out, c);
        proof {
            assert(rev@[m - 1 - k] == rev@.reverse()[k as int]);
            assert(dec_chars(a0).take(k + 1) =~= dec_chars(a0).take(k as int).push(
                dec_chars(a0)[k as int],
            ));
            assert(out@ =~= old(out)@ + signed + dec_chars(a0).take(k + 1));
        }
        k += 1;
    }
    proof {
        assert(dec_chars(a0).take(m as int) =~= dec_chars(a0));
        assert(signed + dec_chars(a0) =~= int_chars(n as int));
        assert(out@ =~= old(out)@ + int_chars(n as int));
    }
}

/// Serializes an expense record to exactly the text [`expense_json`] names.
pub fn serialize_expense(e: &Expense) -> (r: String)
    ensures
        r@ == expense_json(e@),
{
    let mut out = String::new();
    out.append("{\"date\":");
    push_json_string(&mut out, e.date.as_str());
    out.append(",\"genre\":");
    push_json_string(&mut out, e.genre.as_str());
    out.append(",\"amount\":");
    push_int(&mut out, e.amount);
    out.append("}");
    proof {
        assert(out@ =~= expense_json(e@));
    }
    out
}

/// Serializes a genre record to exactly the text [`genre_json`] names.
pub fn serialize_genre(g: &Genre) -> (r: String)
    ensures
        r@ == genre_json(g@),
{
    let mut out = String::new();
    out.append("{\"name\":");
    push_json_string(&mut out, g.name.as_str());
    out.append("}");
    proof {
        assert(out@ =~= genre_json(g@));
    }
    out
}

// ---------------------------------------------------------------------------
// Lexing
// ---------------------------------------------------------------------------

/// Index just past the JSON whitespace at `i`.
fn skip_ws(v: &Vec<char>, i: usize) -> (j: usize)
    requires
        i <= v.len(),
    ensures
        i <= j <= v@.len(),
        v@.skip(j as int) == sp_ws(v@.skip(i as int)),
    decreases v.len() - i,
{
    if i < v.len() {
        let c = v[i];
        if c == ' ' || c == '\t' || c == '\n' || c == '\r' {
            proof {
                lemma_suffix_step(v@, i as int);
            }
            return skip_ws(v, i + 1);
        }
    }
    i
}

/// Expects the exact text `lit` at `i`.
fn expect_lit(v: &Vec<char>, i: usize, lit: &str) -> (r: Option<usize>)
    requires
        i <= v.len(),
    ensures
        match r {
            Some(j) => i <= j <= v@.len() && sp_lit(v@.skip(i as int), lit@) == Some(
                v@.skip(j as int),
            ),
            None => sp_lit(v@.skip(i as int), lit@) is None,
        },
{
    let n = lit.unicode_len();
    let vn = v.len();
    if n > vn - i {
        return None;
    }
    let mut k: usize = 0;
    while k < n
        invariant
            vn == v@.len(),
            i + n <= vn,
            k <= n,
            n == lit@.len(),
            forall|m: int| 0 <= m < k ==> v@[i + m] == lit@[m],
        decreases n - k,
    {
        if v[i + k] != lit.get_char(k) {
            proof {
                assert(v@.skip(i as int).take(n as int)[k as int] == v@[i + k]);
                assert(v@.skip(i as int).take(n as int) != lit@);
            }
            return None;
        }
        k += 1;
    }
    proof {
        assert(v@.skip(i as int).take(n as int) =~= lit@);
        assert(v@.skip(i as int).skip(n as int) =~= v@.skip(i + n));
    }
    Some(i + n)
}

/// Expects `lit` after optional whitespace.
fn lex_lit(v: &Vec<char>, i: usize, lit: &str) -> (r: Option<usize>)
    requires
        i <= v.len(),
    ensures
        match r {
            Some(j) => i <= j <= v@.len() && tok_lit(v@.skip(i as int), lit@) == Some(
                v@.skip(j as int),
            ),
            None => tok_lit(v@.skip(i as int), lit@) is None,
        },
{
    let j = skip_ws(v, i);
    expect_lit(v, j, lit)
}

/// Parses the rest of a string token after its opening quote.
fn lex_string_body(v: &Vec<char>, k: usize) -> (r: Option<(Vec<char>, usize)>)
    requires
        k <= v.len(),
    ensures
        match r {
            Some(p) => k <= p.1 <= v@.len() && sp_string_body(v@.skip(k as int)) == Some(
                (p.0@, v@.skip(p.1 as int)),
            ),
            None => sp_string_body(v@.skip(k as int)) is None,
        },
    decreases v.len() - k,
{
    if k >= v.len() {
        return None;
    }
    let ghost sk: Seq<char> = v@.skip(k as int);
    proof {
        lemma_suffix_step(v@, k as int);
    }
    let c = v[k];
    let u = char_code(c);
    if c == '"' {
        let out: Vec<char> = Vec::new();
        proof {
            assert(out@ =~= Seq::<char>::empty());
        }
        return Some((out, k + 1));
    }
    if c == '\\' {
        if v.len() - k < 2 {
            return None;
        }
        proof {
            assert(sk[1] == v@[k + 1]);
        }
        let e = v[k + 1];
        if e == '"' || e == '\\' || e == '/' || e == 'b' || e == 'f' || e == 'n' || e == 'r' || e
            == 't' {
            let uc = unescape_simple(e);
            proof {
                lemma_skip_skip(v@, k as int, 2);
            }
            match lex_string_body(v, k + 2) {
                Some((mut out, j)) => {
                    let ghost tail = out@;
                    out.insert(0, uc);
                    proof {
                        assert(out@ =~= seq![uc] + tail);
                    }
                    Some((out, j))
                },
                None => None,
            }
        } else if e == 'u' {
            if v.len() - k < 6 {
                return None;
            }
            proof {
                assert(sk[2] == v@[k + 2]);
                assert(sk[3] == v@[k + 3]);
                assert(sk[4] == v@[k + 4]);
                assert(sk[5] == v@[k + 5]);
            }
            let h0 = match hex_of(v[k + 2]) {
                Some(h) => h,
                None => {
                    return None;
                },
            };
            let h1 = match hex_of(v[k + 3]) {
                Some(h) => h,
                None => {
                    return None;
                },
            };
            let h2 = match hex_of(v[k + 4]) {
                Some(h) => h,
                None => {
                    return None;
                },
            };
            let h3 = match hex_of(v[k + 5]) {
                Some(h) => h,
                None => {
                    return None;
                },
            };
            let val = h0 * 0x1000 + h1 * 0x100 + h2 * 0x10 + h3;
            let ghost vspec: int = hex_val(sk[2]) * 0x1000 + hex_val(sk[3]) * 0x100 + hex_val(
                sk[4],
            ) * 0x10 + hex_val(sk[5]);
            proof {
                assert(vspec == val as int);
                assert(0 <= vspec <= 0xFFFF);
                assert((vspec as u32) == val);
            }
            if 0xD800 <= val && val < 0xDC00 {
                if v.len() - k < 12 {
                    return None;
                }
                proof {
                    assert(sk[6] == v@[k + 6]);
                    assert(sk[7] == v@[k + 7]);
                    assert(sk[8] == v@[k + 8]);
                    assert(sk[9] == v@[k + 9]);
                    assert(sk[10] == v@[k + 10]);
                    assert(sk[11] == v@[k + 11]);
                }
                if !(v[k + 6] == '\\' && v[k + 7] == 'u') {
                    return None;
                }
                let g0 = match hex_of(v[k + 8]) {
                    Some(h) => h,
                    None => {
                        return None;
                    },
                };
                let g1 = match hex_of(v[k + 9]) {
                    Some(h) => h,
                    None => {
                        return None;
                    },
                };
                let g2 = match hex_of(v[k + 10]) {
                    Some(h) => h,
                    None => {
                        return None;
                    },
                };
                let g3 = match hex_of(v[k + 11]) {
                    Some(h) => h,
                    None => {
                        return None;
                    },
                };
                let low = g0 * 0x1000 + g1 * 0x100 + g2 * 0x10 + g3;
                let ghost wspec: int = hex_val(sk[8]) * 0x1000 + hex_val(sk[9]) * 0x100 + hex_val(
                    sk[10],
                ) * 0x10 + hex_val(sk[11]);
                proof {
                    assert(wspec == low as int);
                }
                if !(0xDC00 <= low && low < 0xE000) {
                    return None;
                }
                let cp = 0x10000 + (val - 0xD800) * 0x400 + (low - 0xDC00);
                let ghost cpspec: int = 0x10000 + (vspec - 0xD800) * 0x400 + (wspec - 0xDC00);
                proof {
                    assert(cpspec == cp as int);
                    assert(0x10000 <= cpspec <= 0x10FFFF);
                    assert((cpspec as u32) == cp);
                }
                match char_from_u32(cp) {
                    None => {
                        proof {
                            assert(false);
                        }
                        None
                    },
                    Some(c2) => {
                        proof {
                            vstd::utf8::char_u32_cast(c2, cp);
                            assert((cpspec as u32) as char == c2);
                            lemma_skip_skip(v@, k as int, 12);
                        }
                        match lex_string_body(v, k + 12) {
                            Some((mut out, j)) => {
                                let ghost tail = out@;
                                out.insert(0, c2);
                                proof {
                                    assert(out@ =~= seq![c2] + tail);
                                }
                                Some((out, j))
                            },
                            None => None,
                        }
                    },
                }
            } else {
                match char_from_u32(val) {
                    None => None,
                    Some(c2) => {
                        proof {
                            vstd::utf8::char_u32_cast(c2, val);
                            assert((vspec as u32) as char == c2);
                            lemma_skip_skip(v@, k as int, 6);
                        }
                        match lex_string_body(v, k + 6) {
                            Some((mut out, j)) => {
                                let ghost tail = out@;
                                out.insert(0, c2);
                                proof {
                                    assert(out@ =~= seq![c2] + tail);
                                }
                                Some((out, j))
                            },
                            None => None,
                        }
                    },
                }
            }
        } else {
            None
        }
    } else if u < 0x20 {
        None
    } else {
        match lex_string_body(v, k + 1) {
            Some((mut out, j)) => {
                let ghost tail = out@;
                out.insert(0, c);
                proof {
                    assert(out@ =~= seq![c] + tail);
                }
                Some((out, j))
            },
            None => None,
        }
    }
}

/// Builds a string from its characters.
fn chars_to_string(v: &Vec<char>) -> (r: String)
    ensures
        r@ == v@,
{
    let mut r = String::new();
    let mut i: usize = 0;
    while i < v.len()
        invariant
            i <= v@.len(),
            r@ == v@.take(i as int),
        decreases v.len() - i,
    {
        push_char(&mut r, v[i]);
        proof {
            assert(v@.take(i + 1) =~= v@.take(i as int).push(v@[i as int]));
        }
        i += 1;
    }
    proof {
        assert(v@.take(v@.len() as int) =~= v@);
    }
    r
}

/// Parses a string token after optional whitespace.
fn lex_string(v: &Vec<char>, i: usize) -> (r: Option<(String, usize)>)
    requires
        i <= v.len(),
    ensures
        match r {
            Some(p) => i <= p.1 <= v@.len() && tok_string(v@.skip(i as int)) == Some(
                (p.0@, v@.skip(p.1 as int)),
            ),
            None => tok_string(v@.skip(i as int)) is None,
        },
{
    let start = skip_ws(v, i);
    if start >= v.len() {
        return None;
    }
    if v[start] != '"' {
        return None;
    }
    proof {
        lemma_suffix_step(v@, start as int);
    }
    match lex_string_body(v, start + 1) {
        Some((out, j)) => Some((chars_to_string(&out), j)),
        None => None,
    }
}

/// Reads a run of decimal digits into `acc`.
fn lex_digits(v: &Vec<char>, k: usize, acc: i64) -> (r: Option<(i64, usize)>)
    requires
        k <= v.len(),
        0 <= acc <= 0x8000_0000,
    ensures
        match r {
            Some(p) => k <= p.1 <= v@.len() && 0 <= p.0 <= 0x8000_0000 && sp_digits(
                v@.skip(k as int),
                acc as int,
            ) == Some((p.0 as int, v@.skip(p.1 as int))),
            None => sp_digits(v@.skip(k as int), acc as int) is None,
        },
    decreases v.len() - k,
{
    if k < v.len() {
        let c = v[k];
        let u = char_code(c);
        if 48 <= u && u <= 57 {
            proof {
                lemma_suffix_step(v@, k as int);
                assert(is_digit_char(v@.skip(k as int)[0]));
                assert(digit_val(v@.skip(k as int)[0]) == u - 48);
            }
            let acc2 = acc * 10 + ((u - 48) as i64);
            if acc2 > 0x8000_0000 {
                return None;
            }
            return lex_digits(v, k + 1, acc2);
        }
        proof {
            assert(v@.skip(k as int)[0] == v@[k as int]);
            assert(!is_digit_char(v@.skip(k as int)[0]));
        }
    }
    Some((acc, k))
}

/// Parses an integer token after optional whitespace.
fn lex_int(v: &Vec<char>, i: usize) -> (r: Option<(i32, usize)>)
    requires
        i <= v.len(),
    ensures
        match r {
            Some(p) => i <= p.1 <= v@.len() && tok_int(v@.skip(i as int)) == Some(
                (p.0 as int, v@.skip(p.1 as int)),
            ),
            None => tok_int(v@.skip(i as int)) is None,
        },
{
    let start = skip_ws(v, i);
    let mut k = start;
    let mut neg = false;
    if k < v.len() && v[k] == '-' {
        neg = true;
        proof {
            lemma_suffix_step(v@, k as int);
        }
        k = k + 1;
    }
    if k >= v.len() {
        return None;
    }
    proof {
        assert(v@.skip(k as int)[0] == v@[k as int]);
        assert(v@.skip(start as int)[0] == v@[start as int]);
    }
    let c0 = v[k];
    let u0 = char_code(c0);
    if !(48 <= u0 && u0 <= 57) {
        proof {
            assert(!is_digit_char(c0));
        }
        return None;
    }
    proof {
        assert(is_digit_char(c0));
    }
    let value: i64;
    let j: usize;
    if c0 == '0' {
        proof {
            lemma_suffix_step(v@, k as int);
        }
        value = 0;
        j = k + 1;
    } else {
        match lex_digits(v, k, 0) {
            Some(p) => {
                value = p.0;
                j = p.1;
            },
            None => {
                return None;
            },
        }
    }
    if neg {
        Some(((-value) as i32, j))
    } else {
        if value > 0x7FFF_FFFF {
            return None;
        }
        Some((value as i32, j))
    }
}

// ---------------------------------------------------------------------------
// Object members
// ---------------------------------------------------------------------------

/// Parses one string-valued member: quoted key, colon, string value.
fn field_string(v: &Vec<char>, i: usize, qkey: &str) -> (r: Option<(String, usize)>)
    requires
        i <= v.len(),
    ensures
        match r {
            Some(p) => i <= p.1 <= v@.len() && sp_str_field(v@.skip(i as int), qkey@) == Some(
                (p.0@, v@.skip(p.1 as int)),
            ),
            None => sp_str_field(v@.skip(i as int), qkey@) is None,
        },
{
    let j1 = match lex_lit(v, i, qkey) {
        Some(j) => j,
        None => {
            return None;
        },
    };
    let j2 = match lex_lit(v, j1, ":") {
        Some(j) => j,
        None => {
            return None;
        },
    };
    lex_string(v, j2)
}

/// Parses one integer-valued member: quoted key, colon, integer value.
fn field_int(v: &Vec<char>, i: usize, qkey: &str) -> (r: Option<(i32, usize)>)
    requires
        i <= v.len(),
    ensures
        match r {
            Some(p) => i <= p.1 <= v@.len() && sp_int_field(v@.skip(i as int), qkey@) == Some(
                (p.0 as int, v@.skip(p.1 as int)),
            ),
            None => sp_int_field(v@.skip(i as int), qkey@) is None,
        },
{
    let j1 = match lex_lit(v, i, qkey) {
        Some(j) => j,
        None => {
            return None;
        },
    };
    let j2 = match lex_lit(v, j1, ":") {
        Some(j) => j,
        None => {
            return None;
        },
    };
    lex_int(v, j2)
}

// ---------------------------------------------------------------------------
// Objects
// ---------------------------------------------------------------------------

/// Parses an expense object at `i`.
fn parse_expense_at(v: &Vec<char>, i: usize) -> (r: Option<(Expense, usize)>)
    requires
        i <= v.len(),
    ensures
        match r {
            Some(p) => i <= p.1 <= v@.len() && sp_expense_obj(v@.skip(i as int)) == Some(
                (p.0@, v@.skip(p.1 as int)),
            ),
            None => sp_expense_obj(v@.skip(i as int)) is None,
        },
{
    let j1 = match lex_lit(v, i, "{") {
        Some(j) => j,
        None => {
            return None;
        },
    };
    let (date, j2) = match field_string(v, j1, "\"date\"") {
        Some(p) => p,
        None => {
            return None;
        },
    };
    let j3 = match lex_lit(v, j2, ",") {
        Some(j) => j,
        None => {
            return None;
        },
    };
    let (genre, j4) = match field_string(v, j3, "\"genre\"") {
        Some(p) => p,
        None => {
            return None;
        },
    };
    let j5 = match lex_lit(v, j4, ",") {
        Some(j) => j,
        None => {
            return None;
        },
    };
    let (amount, j6) = match field_int(v, j5, "\"amount\"") {
        Some(p) => p,
        None => {
            return None;
        },
    };
    let j7 = match lex_lit(v, j6, "}") {
        Some(j) => j,
        None => {
            return None;
        },
    };
    Some((Expense { date, genre, amount }, j7))
}

/// Parses a genre object at `i`.
fn parse_genre_at(v: &Vec<char>, i: usize) -> (r: Option<(Genre, usize)>)
    requires
        i <= v.len(),
    ensures
        match r {
            Some(p) => i <= p.1 <= v@.len() && sp_genre_obj(v@.skip(i as int)) == Some(
                (p.0@, v@.skip(p.1 as int)),
            ),
            None => sp_genre_obj(v@.skip(i as int)) is None,
        },
{
    let j1 = match lex_lit(v, i, "{") {
        Some(j) => j,
        None => {
            return None;
        },
    };
    let (name, j2) = match field_string(v, j1, "\"name\"") {
        Some(p) => p,
        None => {
            return None;
        },
    };
    let j3 = match lex_lit(v, j2, "}") {
        Some(j) => j,
        None => {
            return None;
        },
    };
    Some((Genre { name }, j3))
}

/// Parses an expense-with-identifier object at `i`.
fn parse_expense_with_id_at(v: &Vec<char>, i: usize) -> (r: Option<(ExpenseWithId, usize)>)
    requires
        i <= v.len(),
    ensures
        match r {
            Some(p) => i <= p.1 <= v@.len() && sp_expense_with_id_obj(v@.skip(i as int)) == Some(
                (p.0@, v@.skip(p.1 as int)),
            ),
            None => sp_expense_with_id_obj(v@.skip(i as int)) is None,
        },
{
    let j1 = match lex_lit(v, i, "{") {
        Some(j) => j,
        None => {
            return None;
        },
    };
    let (id, j2) = match field_int(v, j1, "\"id\"") {
        Some(p) => p,
        None => {
            return None;
        },
    };
    let j3 = match lex_lit(v, j2, ",") {
        Some(j) => j,
        None => {
            return None;
        },
    };
    let (date, j4) = match field_string(v, j3, "\"date\"") {
        Some(p) => p,
        None => {
            return None;
        },
    };
    let j5 = match lex_lit(v, j4, ",") {
        Some(j) => j,
        None => {
            return None;
        },
    };
    let (genre, j6) = match field_string(v, j5, "\"genre\"") {
        Some(p) => p,
        None => {
            return None;
        },
    };
    let j7 = match lex_lit(v, j6, ",") {
        Some(j) => j,
        None => {
            return None;
        },
    };
    let (amount, j8) = match field_int(v, j7, "\"amount\"") {
        Some(p) => p,
        None => {
            return None;
        },
    };
    let j9 = match lex_lit(v, j8, "}") {
        Some(j) => j,
        None => {
            return None;
        },
    };
    Some((ExpenseWithId { id, date, genre, amount }, j9))
}

/// Parses a genre-with-identifier object at `i`.
fn parse_genre_with_id_at(v: &Vec<char>, i: usize) -> (r: Option<(GenreWithId, usize)>)
    requires
        i <= v.len(),
    ensures
        match r {
            Some(p) => i <= p.1 <= v@.len() && sp_genre_with_id_obj(v@.skip(i as int)) == Some(
                (p.0@, v@.skip(p.1 as int)),
            ),
            None => sp_genre_with_id_obj(v@.skip(i as int)) is None,
        },
{
    let j1 = match lex_lit(v, i, "{") {
        Some(j) => j,
        None => {
            return None;
        },
    };
    let (id, j2) = match field_int(v, j1, "\"id\"") {
        Some(p) => p,
        None => {
            return None;
        },
    };
    let j3 = match lex_lit(v, j2, ",") {
        Some(j) => j,
        None => {
            return None;
        },
    };
    let (name, j4) = match field_string(v, j3, "\"name\"") {
        Some(p) => p,
        None => {
            return None;
        },
    };
    let j5 = match lex_lit(v, j4, ",") {
        Some(j) => j,
        None => {
            return None;
        },
    };
    let (created_at, j6) = match field_string(v, j5, "\"created_at\"") {
        Some(p) => p,
        None => {
            return None;
        },
    };
    let j7 = match lex_lit(v, j6, "}") {
        Some(j) => j,
        None => {
            return None;
        },
    };
    Some((GenreWithId { id, name, created_at }, j7))
}

/// Parses a response envelope object at `i`.
fn parse_api_message_at(v: &Vec<char>, i: usize) -> (r: Option<(ApiMessage, usize)>)
    requires
        i <= v.len(),
    ensures
        match r {
            Some(p) => i <= p.1 <= v@.len() && sp_api_message_obj(v@.skip(i as int)) == Some(
                (p.0@, v@.skip(p.1 as int)),
            ),
            None => sp_api_message_obj(v@.skip(i as int)) is None,
        },
{
    let j1 = match lex_lit(v, i, "{") {
        Some(j) => j,
        None => {
            return None;
        },
    };
    match lex_lit(v, j1, "}") {
        Some(j2) => {
            return Some((ApiMessage { message: None, error: None }, j2));
        },
        None => {},
    }
    match field_string(v, j1, "\"message\"") {
        Some((message, j2)) => {
            match lex_lit(v, j2, "}") {
                Some(j3) => {
                    return Some((ApiMessage { message: Some(message), error: None }, j3));
                },
                None => {},
            }
            let j3 = match lex_lit(v, j2, ",") {
                Some(j) => j,
                None => {
                    return None;
                },
            };
            let (error, j4) = match field_string(v, j3, "\"error\"") {
                Some(p) => p,
                None => {
                    return None;
                },
            };
            let j5 = match lex_lit(v, j4, "}") {
                Some(j) => j,
                None => {
                    return None;
                },
            };
            Some((ApiMessage { message: Some(message), error: Some(error) }, j5))
        },
        None => {
            let (error, j2) = match field_string(v, j1, "\"error\"") {
                Some(p) => p,
                None => {
                    return None;
                },
            };
            let j3 = match lex_lit(v, j2, "}") {
                Some(j) => j,
                None => {
                    return None;
                },
            };
            Some((ApiMessage { message: None, error: Some(error) }, j3))
        },
    }
}

// ---------------------------------------------------------------------------
// Arrays
// ---------------------------------------------------------------------------

/// Mapping a pushed record to views.
proof fn lemma_map_view_push_expense(l: Seq<ExpenseWithId>, e: ExpenseWithId)
    ensures
        l.push(e).map_values(|x: ExpenseWithId| x@) == l.map_values(|x: ExpenseWithId| x@).push(
            e@,
        ),
{
    assert(l.push(e).map_values(|x: ExpenseWithId| x@) =~= l.map_values(
        |x: ExpenseWithId| x@,
    ).push(e@));
}

/// Mapping a pushed record to views.
proof fn lemma_map_view_push_genre(l: Seq<GenreWithId>, g: GenreWithId)
    ensures
        l.push(g).map_values(|x: GenreWithId| x@) == l.map_values(|x: GenreWithId| x@).push(g@),
{
    assert(l.push(g).map_values(|x: GenreWithId| x@) =~= l.map_values(
        |x: GenreWithId| x@,
    ).push(g@));
}

/// Parses an array of expense records at `i`.
fn parse_expense_list_at(v: &Vec<char>, i: usize) -> (r: Option<(Vec<ExpenseWithId>, usize)>)
    requires
        i <= v.len(),
    ensures
        match r {
            Some(p) => i <= p.1 <= v@.len() && sp_expense_list(v@.skip(i as int)) == Some(
                (p.0@.map_values(|x: ExpenseWithId| x@), v@.skip(p.1 as int)),
            ),
            None => sp_expense_list(v@.skip(i as int)) is None,
        },
{
    let j1 = match lex_lit(v, i, "[") {
        Some(j) => j,
        None => {
            return None;
        },
    };
    match lex_lit(v, j1, "]") {
        Some(j2) => {
            let out: Vec<ExpenseWithId> = Vec::new();
            proof {
                assert(out@.map_values(|x: ExpenseWithId| x@) =~= Seq::<
                    crate::models::ExpenseWithIdV,
                >::empty());
            }
            return Some((out, j2));
        },
        None => {},
    }
    let mut acc: Vec<ExpenseWithId> = Vec::new();
    let mut k = j1;
    loop
        invariant
            i <= j1 <= k <= v@.len(),
            tok_lit(v@.skip(i as int), "["@) == Some(v@.skip(j1 as int)),
            tok_lit(v@.skip(j1 as int), "]"@) is None,
            (match sp_expense_items(v@.skip(k as int)) {
                Some(p) => sp_expense_items(v@.skip(j1 as int)) == Some(
                    (acc@.map_values(|x: ExpenseWithId| x@) + p.0, p.1),
                ),
                None => sp_expense_items(v@.skip(j1 as int)) is None,
            }),
        decreases v@.len() - k,
    {
        let ghost acc0 = acc@;
        let (e, j2) = match parse_expense_with_id_at(v, k) {
            Some(p) => p,
            None => {
                return None;
            },
        };
        acc.push(e);
        proof {
            lemma_map_view_push_expense(acc0, e);
        }
        match lex_lit(v, j2, ",") {
            Some(j3) => {
                if j3 <= k {
                    return None;
                }
                proof {
                    assert(acc0.map_values(|x: ExpenseWithId| x@) + (seq![e@]
                        + (sp_expense_items(v@.skip(j3 as int))->0).0) =~= acc@.map_values(
                        |x: ExpenseWithId| x@,
                    ) + (sp_expense_items(v@.skip(j3 as int))->0).0);
                }
                k = j3;
            },
            None => {
                let j3 = match lex_lit(v, j2, "]") {
                    Some(j) => j,
                    None => {
                        return None;
                    },
                };
                proof {
                    assert(acc0.map_values(|x: ExpenseWithId| x@) + seq![e@] =~= acc@.map_values(
                        |x: ExpenseWithId| x@,
                    ));
                }
                return Some((acc, j3));
            },
        }
    }
}

/// Parses an array of genre records at `i`.
fn parse_genre_list_at(v: &Vec<char>, i: usize) -> (r: Option<(Vec<GenreWithId>, usize)>)
    requires
        i <= v.len(),
    ensures
        match r {
            Some(p) => i <= p.1 <= v@.len() && sp_genre_list(v@.skip(i as int)) == Some(
                (p.0@.map_values(|x: GenreWithId| x@), v@.skip(p.1 as int)),
            ),
            None => sp_genre_list(v@.skip(i as int)) is None,
        },
{
    let j1 = match lex_lit(v, i, "[") {
        Some(j) => j,
        None => {
            return None;
        },
    };
    match lex_lit(v, j1, "]") {
        Some(j2) => {
            let out: Vec<GenreWithId> = Vec::new();
            proof {
                assert(out@.map_values(|x: GenreWithId| x@) =~= Seq::<
                    crate::models::GenreWithIdV,
                >::empty());
            }
            return Some((out, j2));
        },
        None => {},
    }
    let mut acc: Vec<GenreWithId> = Vec::new();
    let mut k = j1;
    loop
        invariant
            i <= j1 <= k <= v@.len(),
            tok_lit(v@.skip(i as int), "["@) == Some(v@.skip(j1 as int)),
            tok_lit(v@.skip(j1 as int), "]"@) is None,
            (match sp_genre_items(v@.skip(k as int)) {
                Some(p) => sp_genre_items(v@.skip(j1 as int)) == Some(
                    (acc@.map_values(|x: GenreWithId| x@) + p.0, p.1),
                ),
                None => sp_genre_items(v@.skip(j1 as int)) is None,
            }),
        decreases v@.len() - k,
    {
        let ghost acc0 = acc@;
        let (g, j2) = match parse_genre_with_id_at(v, k) {
            Some(p) => p,
            None => {
                return None;
            },
        };
        acc.push(g);
        proof {
            lemma_map_view_push_genre(acc0, g);
        }
        match lex_lit(v, j2, ",") {
            Some(j3) => {
                if j3 <= k {
                    return None;
                }
                proof {
                    assert(acc0.map_values(|x: GenreWithId| x@) + (seq![g@] + (sp_genre_items(
                        v@.skip(j3 as int),
                    )->0).0) =~= acc@.map_values(|x: GenreWithId| x@) + (sp_genre_items(
                        v@.skip(j3 as int),
                    )->0).0);
                }
                k = j3;
            },
            None => {
                let j3 = match lex_lit(v, j2, "]") {
                    Some(j) => j,
                    None => {
                        return None;
                    },
                };
                proof {
                    assert(acc0.map_values(|x: GenreWithId| x@) + seq![g@] =~= acc@.map_values(
                        |x: GenreWithId| x@,
                    ));
                }
                return Some((acc, j3));
            },
        }
    }
}

// ---------------------------------------------------------------------------
// Whole bodies
// ---------------------------------------------------------------------------

/// Index just past the leading whitespace; `true` when nothing else is left.
fn at_end(v: &Vec<char>, j: usize) -> (b: bool)
    requires
        j <= v.len(),
    ensures
        b == crate::wire::only_ws(v@.skip(j as int)),
{
    let j2 = skip_ws(v, j);
    j2 >= v.len()
}

/// Parses a whole body as an expense record: exactly what
/// [`sp_parse_expense`] accepts.
pub fn parse_expense(s: &str) -> (r: Option<Expense>)
    ensures
        match r {
            Some(e) => sp_parse_expense(s@) == Some(e@),
            None => sp_parse_expense(s@) is None,
        },
{
    let v = str_to_chars(s);
    proof {
        assert(v@.skip(0) =~= s@);
    }
    let (e, j) = match parse_expense_at(&v, 0) {
        Some(p) => p,
        None => {
            return None;
        },
    };
    if !at_end(&v, j) {
        return None;
    }
    Some(e)
}

/// Parses a whole body as a genre record: exactly what [`sp_parse_genre`]
/// accepts.
pub fn parse_genre(s: &str) -> (r: Option<Genre>)
    ensures
        match r {
            Some(g) => sp_parse_genre(s@) == Some(g@),
            None => sp_parse_genre(s@) is None,
        },
{
    let v = str_to_chars(s);
    proof {
        assert(v@.skip(0) =~= s@);
    }
    let (g, j) = match parse_genre_at(&v, 0) {
        Some(p) => p,
        None => {
            return None;
        },
    };
    if !at_end(&v, j) {
        return None;
    }
    Some(g)
}

/// Parses a whole body as a response envelope: exactly what
/// [`sp_parse_api_message`] accepts.
pub fn parse_api_message(s: &str) -> (r: Option<ApiMessage>)
    ensures
        match r {
            Some(m) => sp_parse_api_message(s@) == Some(m@),
            None => sp_parse_api_message(s@) is None,
        },
{
    let v = str_to_chars(s);
    proof {
        assert(v@.skip(0) =~= s@);
    }
    let (m, j) = match parse_api_message_at(&v, 0) {
        Some(p) => p,
        None => {
            return None;
        },
    };
    if !at_end(&v, j) {
        return None;
    }
    Some(m)
}

/// Parses a whole body as a list of expense records: exactly what
/// [`sp_parse_expense_list`] accepts.
pub fn parse_expense_list(s: &str) -> (r: Option<Vec<ExpenseWithId>>)
    ensures
        match r {
            Some(l) => sp_parse_expense_list(s@) == Some(l@.map_values(|x: ExpenseWithId| x@)),
            None => sp_parse_expense_list(s@) is None,
        },
{
    let v = str_to_chars(s);
    proof {
        assert(v@.skip(0) =~= s@);
    }
    let (l, j) = match parse_expense_list_at(&v, 0) {
        Some(p) => p,
        None => {
            return None;
        },
    };
    if !at_end(&v, j) {
        return None;
    }
    Some(l)
}

/// Parses a whole body as a list of genre records: exactly what
/// [`sp_parse_genre_list`] accepts.
pub fn parse_genre_list(s: &str) -> (r: Option<Vec<GenreWithId>>)
    ensures
        match r {
            Some(l) => sp_parse_genre_list(s@) == Some(l@.map_values(|x: GenreWithId| x@)),
            None => sp_parse_genre_list(s@) is None,
        },
{
    let v = str_to_chars(s);
    proof {
        assert(v@.skip(0) =~= s@);
    }
    let (l, j) = match parse_genre_list_at(&v, 0) {
        Some(p) => p,
        None => {
            return None;
        },
    };
    if !at_end(&v, j) {
        return None;
    }
    Some(l)
}

} // verus!
