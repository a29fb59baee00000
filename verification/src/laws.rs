//! The laws of the wire format.
//!
//! The two public proof functions at the bottom state the round-trip
//! guarantees: parsing what [`expense_json`] or [`genre_json`] produce
//! yields the record back, for every record the types allow. Everything
//! above them is the supporting induction.

use vstd::prelude::*;

use crate::models::{ExpenseV, GenreV};
use crate::wire::{
    dec_chars, digit_char, digit_val, escape_char, escape_seq, expense_json, genre_json, hex_char,
    hex_val, int_chars, is_control_char, is_digit_char, is_hex_char, is_scalar_val, is_ws_char,
    json_string, sp_digits, sp_expense_obj, sp_genre_obj, sp_int, sp_int_field, sp_lit,
    sp_parse_expense, sp_parse_genre, sp_str_field, sp_string_body, sp_uint, sp_ws,
    tok_int, tok_lit, tok_string, unescaped_simple,
};

verus! {

/// Ten to the `k`.
pub open spec fn pow10(k: nat) -> int
    decreases k,
{
    if k == 0 {
        1
    } else {
        10 * pow10((k - 1) as nat)
    }
}

proof fn lemma_pow10_pos(k: nat)
    ensures
        pow10(k) >= 1,
    decreases k,
{
    if k > 0 {
        lemma_pow10_pos((k - 1) as nat);
    }
}

/// Every character is a code point below 0x110000.
proof fn lemma_char_bounds(c: char)
    ensures
        0 <= (c as int) && (c as int) < 0x110000,
{
}

/// The hexadecimal digit table inverts itself.
proof fn lemma_hex_char_val(d: int)
    requires
        0 <= d < 16,
    ensures
        is_hex_char(hex_char(d)),
        hex_val(hex_char(d)) == d,
{
}

// ---------------------------------------------------------------------------
// Tokens
// ---------------------------------------------------------------------------

/// Whitespace skipping does nothing where no whitespace leads.
proof fn lemma_ws_nop(s: Seq<char>)
    requires
        s.len() == 0 || !is_ws_char(s[0]),
    ensures
        sp_ws(s) == s,
{
}

/// A literal is read off the front of what starts with it.
proof fn lemma_lit_prefix(lit: Seq<char>, rest: Seq<char>)
    ensures
        sp_lit(lit + rest, lit) == Some(rest),
{
    let s = lit + rest;
    assert(s.take(lit.len() as int) =~= lit);
    assert(s.skip(lit.len() as int) =~= rest);
}

/// The literal token parser on a text that starts with the literal.
proof fn lemma_tok_lit(lit: Seq<char>, rest: Seq<char>)
    requires
        lit.len() > 0,
        !is_ws_char(lit[0]),
    ensures
        tok_lit(lit + rest, lit) == Some(rest),
{
    assert((lit + rest)[0] == lit[0]);
    lemma_ws_nop(lit + rest);
    lemma_lit_prefix(lit, rest);
}

// ---------------------------------------------------------------------------
// Strings
// ---------------------------------------------------------------------------

/// Parsing undoes escaping: the body parser, run after the opening quote on
/// escaped content, a closing quote and anything after, returns exactly the
/// content and that remainder.
proof fn lemma_string_body_round(content: Seq<char>, rest: Seq<char>)
    ensures
        sp_string_body(escape_seq(content) + seq!['"'] + rest) == Some((content, rest)),
    decreases content.len(),
{
    let s = escape_seq(content) + seq!['"'] + rest;
    if content.len() == 0 {
        assert(escape_seq(content) =~= Seq::<char>::empty());
        assert(s =~= seq!['"'] + rest);
        assert(s[0] == '"');
        assert(s.drop_first() =~= rest);
        assert(content =~= Seq::<char>::empty());
    } else {
        let c0 = content[0];
        let tail = content.drop_first();
        let s2 = escape_seq(tail) + seq!['"'] + rest;
        lemma_string_body_round(tail, rest);
        assert(seq![c0] + tail =~= content);
        assert(escape_seq(content) == escape_char(c0) + escape_seq(tail));
        assert(s =~= escape_char(c0) + s2);
        if c0 == '"' {
            assert(s =~= seq!['\\', '"'] + s2);
            assert(s[0] == '\\' && s[1] == '"');
            assert(s.skip(2) =~= s2);
            assert(unescaped_simple('"') == '"');
        } else if c0 == '\\' {
            assert(s =~= seq!['\\', '\\'] + s2);
            assert(s[0] == '\\' && s[1] == '\\');
            assert(s.skip(2) =~= s2);
            assert(unescaped_simple('\\') == '\\');
        } else if c0 == '\u{8}' {
            assert(s =~= seq!['\\', 'b'] + s2);
            assert(s[0] == '\\' && s[1] == 'b');
            assert(s.skip(2) =~= s2);
            assert(unescaped_simple('b') == '\u{8}');
        } else if c0 == '\t' {
            assert(s =~= seq!['\\', 't'] + s2);
            assert(s[0] == '\\' && s[1] == 't');
            assert(s.skip(2) =~= s2);
            assert(unescaped_simple('t') == '\t');
        } else if c0 == '\n' {
            assert(s =~= seq!['\\', 'n'] + s2);
            assert(s[0] == '\\' && s[1] == 'n');
            assert(s.skip(2) =~= s2);
            assert(unescaped_simple('n') == '\n');
        } else if c0 == '\u{c}' {
            assert(s =~= seq!['\\', 'f'] + s2);
            assert(s[0] == '\\' && s[1] == 'f');
            assert(s.skip(2) =~= s2);
            assert(unescaped_simple('f') == '\u{c}');
        } else if c0 == '\r' {
            assert(s =~= seq!['\\', 'r'] + s2);
            assert(s[0] == '\\' && s[1] == 'r');
            assert(s.skip(2) =~= s2);
            assert(unescaped_simple('r') == '\r');
        } else if is_control_char(c0) {
            lemma_char_bounds(c0);
            let ci = c0 as int;
            let hi = ci / 16;
            let lo = ci % 16;
            assert(0 <= hi < 2);
            assert(0 <= lo < 16);
            lemma_hex_char_val(hi);
            lemma_hex_char_val(lo);
            assert(escape_char(c0) == seq!['\\', 'u', '0', '0', hex_char(hi), hex_char(lo)]);
            assert(s[0] == '\\' && s[1] == 'u');
            assert(s[2] == '0' && s[3] == '0');
            assert(s[4] == hex_char(hi) && s[5] == hex_char(lo));
            assert(s.len() >= 6);
            assert(is_hex_char('0') && hex_val('0') == 0);
            let vv = hex_val(s[2]) * 0x1000 + hex_val(s[3]) * 0x100 + hex_val(s[4]) * 0x10
                + hex_val(s[5]);
            assert(vv == hi * 16 + lo);
            assert(vv == ci);
            assert(is_scalar_val(vv));
            assert(c0 as u32 == vv as u32);
            vstd::utf8::char_u32_cast(c0, vv as u32);
            assert((vv as u32) as char == c0);
            assert(s.skip(6) =~= s2);
        } else {
            assert(escape_char(c0) == seq![c0]);
            assert(s =~= seq![c0] + s2);
            assert(s[0] == c0);
            assert(s.drop_first() =~= s2);
        }
    }
}

/// The string token parser on a serialized string: the round trip for one
/// string value.
proof fn lemma_tok_string(content: Seq<char>, rest: Seq<char>)
    ensures
        tok_string(json_string(content) + rest) == Some((content, rest)),
{
    let s = json_string(content) + rest;
    assert(s[0] == '"');
    lemma_ws_nop(s);
    assert(s.drop_first() =~= escape_seq(content) + seq!['"'] + rest);
    lemma_string_body_round(content, rest);
}

// ---------------------------------------------------------------------------
// Integers
// ---------------------------------------------------------------------------

/// The first digit of a decimal notation: it exists, it is a digit, and it
/// is zero only for zero.
proof fn lemma_dec_first(n: int)
    requires
        n >= 0,
    ensures
        dec_chars(n).len() >= 1,
        is_digit_char(dec_chars(n)[0]),
        n >= 1 ==> dec_chars(n)[0] != '0',
    decreases n,
{
    if n < 10 {
        assert(is_digit_char(digit_char(n)));
        if n >= 1 {
            assert(digit_char(n) != '0');
        }
    } else {
        lemma_dec_first(n / 10);
        assert(dec_chars(n)[0] == dec_chars(n / 10)[0]);
    }
}

/// The digit scanner runs through a whole decimal notation, accumulating
/// its value.
proof fn lemma_scan_through(n: int, acc: int, rest: Seq<char>)
    requires
        n >= 0,
        acc >= 0,
        acc * pow10(dec_chars(n).len()) + n <= 0x8000_0000,
    ensures
        sp_digits(dec_chars(n) + rest, acc) == sp_digits(
            rest,
            acc * pow10(dec_chars(n).len()) + n,
        ),
    decreases n,
{
    let s = dec_chars(n) + rest;
    lemma_pow10_pos(dec_chars(n).len());
    if n < 10 {
        assert(dec_chars(n) =~= seq![digit_char(n)]);
        assert(s[0] == digit_char(n));
        assert(is_digit_char(s[0]));
        assert(digit_val(digit_char(n)) == n);
        assert(pow10(1) == 10 * pow10(0));
        assert(s.drop_first() =~= rest);
        assert(acc * pow10(1) == acc * 10) by (nonlinear_arith)
            requires
                pow10(1nat) == 10,
        ;
        assert(pow10(1nat) == 10);
    } else {
        let m = n / 10;
        let d = n % 10;
        let ds1 = dec_chars(m);
        let l1 = ds1.len();
        assert(dec_chars(n) == ds1 + seq![digit_char(d)]);
        assert(dec_chars(n).len() == l1 + 1);
        let rest2 = seq![digit_char(d)] + rest;
        assert(s =~= ds1 + rest2);
        assert(pow10((l1 + 1) as nat) == 10 * pow10(l1));
        lemma_pow10_pos(l1);
        let accm = acc * pow10(l1) + m;
        assert(accm * 10 + d == acc * pow10((l1 + 1) as nat) + n) by (nonlinear_arith)
            requires
                pow10((l1 + 1) as nat) == 10 * pow10(l1),
                accm == acc * pow10(l1) + m,
                n == 10 * m + d,
        ;
        assert(accm >= 0) by (nonlinear_arith)
            requires
                acc >= 0,
                m >= 0,
                pow10(l1) >= 1,
                accm == acc * pow10(l1) + m,
        ;
        assert(accm <= accm * 10 + d) by (nonlinear_arith)
            requires
                accm >= 0,
                d >= 0,
        ;
        lemma_scan_through(m, acc, rest2);
        assert(sp_digits(s, acc) == sp_digits(rest2, accm));
        assert(rest2[0] == digit_char(d));
        assert(is_digit_char(rest2[0]));
        assert(digit_val(digit_char(d)) == d);
        assert(rest2.drop_first() =~= rest);
        assert(sp_digits(rest2, accm) == sp_digits(rest, accm * 10 + d));
    }
}

/// The unsigned-integer parser on a decimal notation.
proof fn lemma_uint_round(n: int, rest: Seq<char>)
    requires
        0 <= n <= 0x8000_0000,
        rest.len() == 0 || !is_digit_char(rest[0]),
    ensures
        sp_uint(dec_chars(n) + rest) == Some((n, rest)),
{
    let s = dec_chars(n) + rest;
    lemma_dec_first(n);
    assert(s[0] == dec_chars(n)[0]);
    if n == 0 {
        assert(dec_chars(0) =~= seq!['0']);
        assert(s[0] == '0');
        assert(s.drop_first() =~= rest);
    } else {
        assert(s[0] != '0');
        lemma_pow10_pos(dec_chars(n).len());
        assert(0 * pow10(dec_chars(n).len()) + n == n) by (nonlinear_arith);
        lemma_scan_through(n, 0, rest);
        assert(sp_digits(s, 0) == sp_digits(rest, n));
        assert(sp_digits(rest, n) == Some((n, rest)));
    }
}

/// The signed-integer parser on a decimal notation: the round trip for one
/// integer value, wherever no digit follows it.
proof fn lemma_tok_int(n: int, rest: Seq<char>)
    requires
        -0x8000_0000 <= n <= 0x7FFF_FFFF,
        rest.len() == 0 || !is_digit_char(rest[0]),
    ensures
        tok_int(int_chars(n) + rest) == Some((n, rest)),
{
    let s = int_chars(n) + rest;
    if n < 0 {
        assert(int_chars(n) == seq!['-'] + dec_chars(-n));
        assert(s[0] == '-');
        lemma_ws_nop(s);
        assert(s.drop_first() =~= dec_chars(-n) + rest);
        lemma_uint_round(-n, rest);
        assert(sp_int(s) == Some((n, rest)));
    } else {
        lemma_dec_first(n);
        assert(s[0] == dec_chars(n)[0]);
        assert(is_digit_char(s[0]));
        assert(s[0] != '-');
        assert(!is_ws_char(s[0]));
        lemma_ws_nop(s);
        lemma_uint_round(n, rest);
        assert(sp_int(s) == Some((n, rest)));
    }
}

// ---------------------------------------------------------------------------
// Members
// ---------------------------------------------------------------------------

/// A string-valued member parses back to its value.
proof fn lemma_str_field(qkey: Seq<char>, content: Seq<char>, rest: Seq<char>)
    requires
        qkey.len() > 0,
        !is_ws_char(qkey[0]),
    ensures
        sp_str_field(qkey + ":"@ + json_string(content) + rest, qkey) == Some((content, rest)),
{
    reveal_strlit(":");
    let s = qkey + ":"@ + json_string(content) + rest;
    let r1 = ":"@ + (json_string(content) + rest);
    assert(s =~= qkey + r1);
    lemma_tok_lit(qkey, r1);
    assert(":"@[0] == ':');
    assert(!is_ws_char(':'));
    lemma_tok_lit(":"@, json_string(content) + rest);
    lemma_tok_string(content, rest);
}

/// An integer-valued member parses back to its value, wherever no digit
/// follows it.
proof fn lemma_int_field(qkey: Seq<char>, n: int, rest: Seq<char>)
    requires
        qkey.len() > 0,
        !is_ws_char(qkey[0]),
        -0x8000_0000 <= n <= 0x7FFF_FFFF,
        rest.len() == 0 || !is_digit_char(rest[0]),
    ensures
        sp_int_field(qkey + ":"@ + int_chars(n) + rest, qkey) == Some((n, rest)),
{
    reveal_strlit(":");
    let s = qkey + ":"@ + int_chars(n) + rest;
    let r1 = ":"@ + (int_chars(n) + rest);
    assert(s =~= qkey + r1);
    lemma_tok_lit(qkey, r1);
    assert(":"@[0] == ':');
    assert(!is_ws_char(':'));
    lemma_tok_lit(":"@, int_chars(n) + rest);
    lemma_tok_int(n, rest);
}

// ---------------------------------------------------------------------------
// Records
// ---------------------------------------------------------------------------

/// Serializing an expense record and parsing the text back yields the same
/// record, for every date, genre and amount the types allow.
pub proof fn lemma_expense_round_trip(e: ExpenseV)
    requires
        -0x8000_0000 <= e.amount <= 0x7FFF_FFFF,
    ensures
        sp_parse_expense(expense_json(e)) == Some(e),
{
    reveal_strlit("{\"date\":");
    reveal_strlit(",\"genre\":");
    reveal_strlit(",\"amount\":");
    reveal_strlit("{");
    reveal_strlit("}");
    reveal_strlit(",");
    reveal_strlit(":");
    reveal_strlit("\"date\"");
    reveal_strlit("\"genre\"");
    reveal_strlit("\"amount\"");
    let s = expense_json(e);
    let s_amount = "\"amount\""@ + ":"@ + int_chars(e.amount) + "}"@;
    let rest_g = ","@ + s_amount;
    let s_genre = "\"genre\""@ + ":"@ + json_string(e.genre) + rest_g;
    let rest_d = ","@ + s_genre;
    let s_date = "\"date\""@ + ":"@ + json_string(e.date) + rest_d;
    assert(s =~= "{"@ + s_date);
    assert(!is_ws_char('{') && !is_ws_char(',') && !is_ws_char('}') && !is_ws_char('"'));
    assert("{"@[0] == '{' && ","@[0] == ',' && "}"@[0] == '}');
    assert("\"date\""@[0] == '"' && "\"genre\""@[0] == '"' && "\"amount\""@[0] == '"');
    lemma_tok_lit("{"@, s_date);
    lemma_str_field("\"date\""@, e.date, rest_d);
    lemma_tok_lit(","@, s_genre);
    lemma_str_field("\"genre\""@, e.genre, rest_g);
    lemma_tok_lit(","@, s_amount);
    assert(!is_digit_char('}'));
    lemma_int_field("\"amount\""@, e.amount, "}"@);
    assert("}"@ =~= "}"@ + Seq::<char>::empty());
    lemma_tok_lit("}"@, Seq::<char>::empty());
    assert(sp_expense_obj(s) == Some((e, Seq::<char>::empty())));
    assert(sp_ws(Seq::<char>::empty()).len() == 0);
    assert(sp_parse_expense(s) == Some(e));
}

/// Serializing a genre record and parsing the text back yields the same
/// record, for every name.
pub proof fn lemma_genre_round_trip(g: GenreV)
    ensures
        sp_parse_genre(genre_json(g)) == Some(g),
{
    reveal_strlit("{\"name\":");
    reveal_strlit("{");
    reveal_strlit("}");
    reveal_strlit(":");
    reveal_strlit("\"name\"");
    let s = genre_json(g);
    let s_name = "\"name\""@ + ":"@ + json_string(g.name) + "}"@;
    assert(s =~= "{"@ + s_name);
    assert(!is_ws_char('{') && !is_ws_char('}') && !is_ws_char('"'));
    assert("{"@[0] == '{' && "}"@[0] == '}' && "\"name\""@[0] == '"');
    lemma_tok_lit("{"@, s_name);
    lemma_str_field("\"name\""@, g.name, "}"@);
    assert("}"@ =~= "}"@ + Seq::<char>::empty());
    lemma_tok_lit("}"@, Seq::<char>::empty());
    assert(sp_genre_obj(s) == Some((g, Seq::<char>::empty())));
    assert(sp_ws(Seq::<char>::empty()).len() == 0);
    assert(sp_parse_genre(s) == Some(g));
}

} // verus!
