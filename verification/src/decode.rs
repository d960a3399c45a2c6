//! Decoding SSE frames back into event payloads, and the proof that
//! decoding inverts encoding: the wire format loses nothing.

use vstd::prelude::*;

use crate::encode::dec_digit;
use crate::encode::dec_str;
use crate::encode::escaped_char;
use crate::encode::escaped_text;
use crate::encode::hex_digit;
use crate::encode::int_str;
use crate::encode::json_opt_source;
use crate::encode::json_opt_string;
use crate::encode::json_partial_message;
use crate::encode::json_source;
use crate::encode::json_string;
use crate::encode::sse_frame;
use crate::model::PartialMessageModel;
use crate::model::SourceModel;

verus! {

/// The rest of `s` after the expected prefix `p`, if `s` starts with it.
pub open spec fn expect(p: Seq<char>, s: Seq<char>) -> Option<Seq<char>> {
    if p.len() <= s.len() && s.take(p.len() as int) == p {
        Some(s.skip(p.len() as int))
    } else {
        None
    }
}

pub proof fn lemma_expect(p: Seq<char>, rest: Seq<char>)
    ensures
        expect(p, p + rest) == Some(rest),
{
    assert((p + rest).take(p.len() as int) =~= p);
    assert((p + rest).skip(p.len() as int) =~= rest);
}

/// The character with the given code point (of interest only for the
/// low code points a `\u00..` escape can carry).
pub open spec fn char_of_code(code: u32) -> char {
    choose|c: char| (#[trigger] (c as u32)) == code
}

/// A character with a low code point is recovered exactly from its code.
pub proof fn lemma_char_code_round(c: char)
    requires
        (c as u32) < 0x20,
    ensures
        char_of_code(c as u32) == c,
{
    let code = c as u32;
    assert(exists|c2: char| (#[trigger] (c2 as u32)) == code) by {
        assert(c as u32 == code);
    }
    assert(char_of_code(code) as u32 == code);
}

/// The value of a lowercase hexadecimal digit, or 16 for any other
/// character.
pub open spec fn hex_val(c: char) -> nat {
    if c == '0' {
        0
    } else if c == '1' {
        1
    } else if c == '2' {
        2
    } else if c == '3' {
        3
    } else if c == '4' {
        4
    } else if c == '5' {
        5
    } else if c == '6' {
        6
    } else if c == '7' {
        7
    } else if c == '8' {
        8
    } else if c == '9' {
        9
    } else if c == 'a' {
        10
    } else if c == 'b' {
        11
    } else if c == 'c' {
        12
    } else if c == 'd' {
        13
    } else if c == 'e' {
        14
    } else if c == 'f' {
        15
    } else {
        16
    }
}

/// The value of a decimal digit, or 10 for any other character.
pub open spec fn dec_val(c: char) -> nat {
    if hex_val(c) < 10 {
        hex_val(c)
    } else {
        10
    }
}

/// Decodes the body of a JSON string literal up to its closing quote:
/// the text, and what follows the quote.
pub open spec fn parse_string_body(s: Seq<char>) -> Option<(Seq<char>, Seq<char>)>
    decreases s.len(),
{
    if s.len() == 0 {
        None
    } else if s[0] == '"' {
        Some((Seq::empty(), s.skip(1)))
    } else if s[0] == '\\' {
        if s.len() >= 6 && s[1] == 'u' {
            if s[2] == '0' && s[3] == '0' && hex_val(s[4]) < 16 && hex_val(s[5]) < 16 {
                let c = char_of_code((16 * hex_val(s[4]) + hex_val(s[5])) as u32);
                match parse_string_body(s.skip(6)) {
                    Some(p) => Some((seq![c] + p.0, p.1)),
                    None => None,
                }
            } else {
                None
            }
        } else if s.len() >= 2 && (s[1] == '"' || s[1] == '\\' || s[1] == 'b' || s[1] == 't' || s[1]
            == 'n' || s[1] == 'f' || s[1] == 'r') {
            let c = if s[1] == '"' {
                '"'
            } else if s[1] == '\\' {
                '\\'
            } else if s[1] == 'b' {
                '\u{8}'
            } else if s[1] == 't' {
                '\t'
            } else if s[1] == 'n' {
                '\n'
            } else if s[1] == 'f' {
                '\u{c}'
            } else {
                '\r'
            };
            match parse_string_body(s.skip(2)) {
                Some(p) => Some((seq![c] + p.0, p.1)),
                None => None,
            }
        } else {
            None
        }
    } else {
        match parse_string_body(s.skip(1)) {
            Some(p) => Some((seq![s[0]] + p.0, p.1)),
            None => None,
        }
    }
}

/// The escaped text of a nonempty string starts with its first
/// character's escape.
pub proof fn lemma_escaped_text_front(s: Seq<char>)
    requires
        s.len() > 0,
    ensures
        escaped_text(s) == escaped_char(s[0]) + escaped_text(s.drop_first()),
    decreases s.len(),
{
    if s.len() == 1 {
        assert(s.drop_last() =~= Seq::<char>::empty());
        assert(s.drop_first() =~= Seq::<char>::empty());
        assert(escaped_text(s) =~= escaped_char(s[0]) + escaped_text(s.drop_first()));
    } else {
        let t = s.drop_last();
        lemma_escaped_text_front(t);
        assert(s.drop_first().drop_last() =~= t.drop_first());
        assert(s.drop_first().last() == s.last());
        assert(escaped_text(s.drop_first()) == escaped_text(t.drop_first()) + escaped_char(
            s.last(),
        ));
        assert(escaped_text(s) =~= escaped_char(s[0]) + escaped_text(s.drop_first()));
    }
}

/// Decoding the body of a string literal inverts escaping, whatever
/// follows the closing quote.
pub proof fn lemma_parse_escaped(s: Seq<char>, rest: Seq<char>)
    ensures
        parse_string_body(escaped_text(s) + seq!['"'] + rest) == Some((s, rest)),
    decreases s.len(),
{
    let u = escaped_text(s) + seq!['"'] + rest;
    if s.len() == 0 {
        assert(u =~= seq!['"'] + rest);
        assert(u[0] == '"');
        assert(u.skip(1) =~= rest);
    } else {
        let c = s[0];
        lemma_escaped_text_front(s);
        let tail_u = escaped_text(s.drop_first()) + seq!['"'] + rest;
        lemma_parse_escaped(s.drop_first(), rest);
        assert(u =~= escaped_char(c) + tail_u);
        assert(seq![c] + s.drop_first() =~= s);
        if c == '"' || c == '\\' || c == '\u{8}' || c == '\t' || c == '\n' || c == '\u{c}' || c
            == '\r' {
            assert(u[0] == '\\');
            assert(u[1] != 'u');
            assert(u.skip(2) =~= tail_u);
        } else if (c as u32) < 0x20 {
            let code = c as u32;
            assert(u[0] == '\\');
            assert(u[1] == 'u');
            assert(u[2] == '0');
            assert(u[3] == '0');
            assert(u[4] == hex_digit((code / 16) as nat));
            assert(u[5] == hex_digit((code % 16) as nat));
            assert(hex_val(hex_digit((code / 16) as nat)) == (code / 16) as nat);
            assert(hex_val(hex_digit((code % 16) as nat)) == (code % 16) as nat);
            assert(16 * hex_val(u[4]) + hex_val(u[5]) == code);
            lemma_char_code_round(c);
            assert(u.skip(6) =~= tail_u);
        } else {
            assert(u[0] == c);
            assert(u.skip(1) =~= tail_u);
        }
    }
}


/// Greedily consumes decimal digits, folding them onto `acc`.
pub open spec fn parse_digits(acc: nat, s: Seq<char>) -> (nat, Seq<char>)
    decreases s.len(),
{
    if s.len() > 0 && dec_val(s[0]) < 10 {
        parse_digits(acc * 10 + dec_val(s[0]), s.skip(1))
    } else {
        (acc, s)
    }
}

/// Decodes a decimal natural number: at least one digit, greedily.
pub open spec fn parse_nat(s: Seq<char>) -> Option<(nat, Seq<char>)> {
    if s.len() > 0 && dec_val(s[0]) < 10 {
        Some(parse_digits(0, s))
    } else {
        None
    }
}

/// Decodes an optionally negated decimal integer.
pub open spec fn parse_int(s: Seq<char>) -> Option<(int, Seq<char>)> {
    if s.len() > 0 && s[0] == '-' {
        match parse_nat(s.skip(1)) {
            Some(p) => Some((-(p.0 as int), p.1)),
            None => None,
        }
    } else {
        match parse_nat(s) {
            Some(p) => Some((p.0 as int, p.1)),
            None => None,
        }
    }
}

/// The scale that appending the digits of `n` applies to an accumulator.
pub open spec fn dec_scale(n: nat) -> nat
    decreases n,
{
    if n < 10 {
        10
    } else {
        10 * dec_scale(n / 10)
    }
}

/// The decimal notation of a natural number starts with a digit.
pub proof fn lemma_dec_str_first(n: nat)
    ensures
        dec_str(n).len() > 0,
        dec_val(dec_str(n)[0]) < 10,
        dec_str(n)[0] != '-',
    decreases n,
{
    if n < 10 {
        assert(dec_val(dec_digit(n)) < 10);
        assert(dec_digit(n) != '-');
    } else {
        lemma_dec_str_first(n / 10);
        assert(dec_str(n)[0] == dec_str(n / 10)[0]);
    }
}

/// Consuming the digits of `n` folds exactly `n` onto the scaled
/// accumulator, whatever follows them.
pub proof fn lemma_parse_digits_dec(acc: nat, n: nat, rest: Seq<char>)
    ensures
        parse_digits(acc, dec_str(n) + rest) == parse_digits(acc * dec_scale(n) + n, rest),
    decreases n,
{
    if n < 10 {
        let u = dec_str(n) + rest;
        assert(u[0] == dec_digit(n));
        assert(dec_val(dec_digit(n)) == n);
        assert(u.skip(1) =~= rest);
        assert(acc * 10 + n == acc * dec_scale(n) + n);
    } else {
        let d = dec_digit(n % 10);
        assert(dec_str(n) + rest =~= dec_str(n / 10) + (seq![d] + rest));
        lemma_parse_digits_dec(acc, n / 10, seq![d] + rest);
        assert((seq![d] + rest)[0] == d);
        assert(dec_val(d) == n % 10);
        assert((seq![d] + rest).skip(1) =~= rest);
        let mid = acc * dec_scale(n / 10) + n / 10;
        assert(parse_digits(mid, seq![d] + rest) == parse_digits(mid * 10 + n % 10, rest));
        assert(mid * 10 + n % 10 == acc * dec_scale(n) + n) by (nonlinear_arith)
            requires
                mid == acc * dec_scale(n / 10) + n / 10,
                dec_scale(n) == 10 * dec_scale(n / 10),
                n >= 10,
        {
        }
    }
}

/// Decoding a decimal natural inverts encoding when no digit follows it.
pub proof fn lemma_parse_nat_dec(n: nat, rest: Seq<char>)
    requires
        rest.len() == 0 || dec_val(rest[0]) >= 10,
    ensures
        parse_nat(dec_str(n) + rest) == Some((n, rest)),
{
    lemma_dec_str_first(n);
    let u = dec_str(n) + rest;
    assert(u[0] == dec_str(n)[0]);
    lemma_parse_digits_dec(0, n, rest);
    assert(0 * dec_scale(n) + n == n);
}

/// Decoding an integer inverts encoding when no digit follows it.
pub proof fn lemma_parse_int_enc(i: int, rest: Seq<char>)
    requires
        rest.len() == 0 || dec_val(rest[0]) >= 10,
    ensures
        parse_int(int_str(i) + rest) == Some((i, rest)),
{
    if i < 0 {
        let u = int_str(i) + rest;
        assert(u =~= seq!['-'] + (dec_str((-i) as nat) + rest));
        assert(u[0] == '-');
        assert(u.skip(1) =~= dec_str((-i) as nat) + rest);
        lemma_parse_nat_dec((-i) as nat, rest);
    } else {
        lemma_dec_str_first(i as nat);
        assert((int_str(i) + rest)[0] == dec_str(i as nat)[0]);
        lemma_parse_nat_dec(i as nat, rest);
    }
}


/// Decodes a JSON string literal, quotes included.
pub open spec fn parse_quoted(s: Seq<char>) -> Option<(Seq<char>, Seq<char>)> {
    if s.len() > 0 && s[0] == '"' {
        parse_string_body(s.skip(1))
    } else {
        None
    }
}

pub proof fn lemma_parse_quoted(t: Seq<char>, rest: Seq<char>)
    ensures
        parse_quoted(json_string(t) + rest) == Some((t, rest)),
{
    let u = json_string(t) + rest;
    assert(u =~= seq!['"'] + (escaped_text(t) + seq!['"'] + rest));
    assert(u[0] == '"');
    assert(u.skip(1) =~= escaped_text(t) + seq!['"'] + rest);
    lemma_parse_escaped(t, rest);
}

/// Decodes an optional JSON string: a string literal or `null`.
pub open spec fn parse_opt_string(s: Seq<char>) -> Option<(Option<Seq<char>>, Seq<char>)> {
    if s.len() > 0 && s[0] == '"' {
        match parse_string_body(s.skip(1)) {
            Some(p) => Some((Some(p.0), p.1)),
            None => None,
        }
    } else {
        match expect("null"@, s) {
            Some(r) => Some((None, r)),
            None => None,
        }
    }
}

pub proof fn lemma_parse_opt_string(o: Option<Seq<char>>, rest: Seq<char>)
    ensures
        parse_opt_string(json_opt_string(o) + rest) == Some((o, rest)),
{
    match o {
        Some(t) => {
            let u = json_opt_string(o) + rest;
            assert(u =~= seq!['"'] + (escaped_text(t) + seq!['"'] + rest));
            assert(u[0] == '"');
            assert(u.skip(1) =~= escaped_text(t) + seq!['"'] + rest);
            lemma_parse_escaped(t, rest);
        },
        None => {
            reveal_strlit("null");
            let u = "null"@ + rest;
            assert(u[0] == 'n');
            lemma_expect("null"@, rest);
        },
    }
}

/// Decodes the JSON object for a source citation.
pub open spec fn parse_source(s: Seq<char>) -> Option<(SourceModel, Seq<char>)> {
    match expect("{\"ordinal\":"@, s) {
        None => None,
        Some(s1) => match parse_nat(s1) {
            None => None,
            Some(p1) => match expect(",\"index\":"@, p1.1) {
                None => None,
                Some(s2) => match parse_int(s2) {
                    None => None,
                    Some(p2) => match expect(",\"citation\":"@, p2.1) {
                        None => None,
                        Some(s3) => match parse_quoted(s3) {
                            None => None,
                            Some(p3) => match expect(",\"url\":"@, p3.1) {
                                None => None,
                                Some(s4) => match parse_quoted(s4) {
                                    None => None,
                                    Some(p4) => match expect(",\"origin_text\":"@, p4.1) {
                                        None => None,
                                        Some(s5) => match parse_quoted(s5) {
                                            None => None,
                                            Some(p5) => match expect("}"@, p5.1) {
                                                None => None,
                                                Some(r) => Some(
                                                    (
                                                        SourceModel {
                                                            ordinal: p1.0,
                                                            index: p2.0,
                                                            citation: p3.0,
                                                            url: p4.0,
                                                            origin_text: p5.0,
                                                        },
                                                        r,
                                                    ),
                                                ),
                                            },
                                        },
                                    },
                                },
                            },
                        },
                    },
                },
            },
        },
    }
}

pub proof fn lemma_parse_source(m: SourceModel, rest: Seq<char>)
    ensures
        parse_source(json_source(m) + rest) == Some((m, rest)),
{
    let t5 = "}"@ + rest;
    let t4b = json_string(m.origin_text) + t5;
    let t4 = ",\"origin_text\":"@ + t4b;
    let t3b = json_string(m.url) + t4;
    let t3 = ",\"url\":"@ + t3b;
    let t2b = json_string(m.citation) + t3;
    let t2 = ",\"citation\":"@ + t2b;
    let t1b = int_str(m.index) + t2;
    let t1 = ",\"index\":"@ + t1b;
    let t0 = dec_str(m.ordinal) + t1;
    assert(json_source(m) + rest =~= "{\"ordinal\":"@ + t0);
    lemma_expect("{\"ordinal\":"@, t0);
    reveal_strlit(",\"index\":");
    assert(t1[0] == ',');
    lemma_parse_nat_dec(m.ordinal, t1);
    lemma_expect(",\"index\":"@, t1b);
    reveal_strlit(",\"citation\":");
    assert(t2[0] == ',');
    lemma_parse_int_enc(m.index, t2);
    lemma_expect(",\"citation\":"@, t2b);
    lemma_parse_quoted(m.citation, t3);
    lemma_expect(",\"url\":"@, t3b);
    lemma_parse_quoted(m.url, t4);
    lemma_expect(",\"origin_text\":"@, t4b);
    lemma_parse_quoted(m.origin_text, t5);
    lemma_expect("}"@, rest);
}

/// Decodes an optional source object: the object or `null`.
pub open spec fn parse_opt_source(s: Seq<char>) -> Option<(Option<SourceModel>, Seq<char>)> {
    if s.len() > 0 && s[0] == '{' {
        match parse_source(s) {
            Some(p) => Some((Some(p.0), p.1)),
            None => None,
        }
    } else {
        match expect("null"@, s) {
            Some(r) => Some((None, r)),
            None => None,
        }
    }
}

pub proof fn lemma_parse_opt_source(o: Option<SourceModel>, rest: Seq<char>)
    ensures
        parse_opt_source(json_opt_source(o) + rest) == Some((o, rest)),
{
    match o {
        Some(m) => {
            let u = json_opt_source(o) + rest;
            reveal_strlit("{\"ordinal\":");
            assert(u =~= "{\"ordinal\":"@ + (dec_str(m.ordinal) + (",\"index\":"@ + (int_str(
                m.index,
            ) + (",\"citation\":"@ + (json_string(m.citation) + (",\"url\":"@ + (json_string(
                m.url,
            ) + (",\"origin_text\":"@ + (json_string(m.origin_text) + ("}"@ + rest)))))))))));
            assert(u[0] == '{');
            lemma_parse_source(m, rest);
        },
        None => {
            reveal_strlit("null");
            let u = "null"@ + rest;
            assert(u[0] == 'n');
            lemma_expect("null"@, rest);
        },
    }
}

/// Decodes the JSON object for an event payload.
pub open spec fn parse_partial(s: Seq<char>) -> Option<(PartialMessageModel, Seq<char>)> {
    match expect("{\"content\":"@, s) {
        None => None,
        Some(s1) => match parse_opt_string(s1) {
            None => None,
            Some(p1) => match expect(",\"source\":"@, p1.1) {
                None => None,
                Some(s2) => match parse_opt_source(s2) {
                    None => None,
                    Some(p2) => match expect(",\"finished\":"@, p2.1) {
                        None => None,
                        Some(s3) => match parse_opt_string(s3) {
                            None => None,
                            Some(p3) => match expect("}"@, p3.1) {
                                None => None,
                                Some(r) => Some(
                                    (
                                        PartialMessageModel {
                                            content: p1.0,
                                            source: p2.0,
                                            finished: p3.0,
                                        },
                                        r,
                                    ),
                                ),
                            },
                        },
                    },
                },
            },
        },
    }
}

#[verifier::rlimit(60)]
pub proof fn lemma_parse_partial(m: PartialMessageModel, rest: Seq<char>)
    ensures
        parse_partial(json_partial_message(m) + rest) == Some((m, rest)),
{
    let r3 = "}"@ + rest;
    let f3 = json_opt_string(m.finished) + r3;
    let r2 = ",\"finished\":"@ + f3;
    let f2 = json_opt_source(m.source) + r2;
    let r1 = ",\"source\":"@ + f2;
    let f1 = json_opt_string(m.content) + r1;
    assert(json_partial_message(m) + rest =~= "{\"content\":"@ + f1);
    lemma_expect("{\"content\":"@, f1);
    lemma_parse_opt_string(m.content, r1);
    lemma_expect(",\"source\":"@, f2);
    lemma_parse_opt_source(m.source, r2);
    lemma_expect(",\"finished\":"@, f3);
    lemma_parse_opt_string(m.finished, r3);
    lemma_expect("}"@, rest);
}

/// Decodes one SSE frame: the header line, the JSON payload of the
/// `data:` line, and the blank-line terminator, with nothing after it.
pub open spec fn decode_frame(f: Seq<char>) -> Option<PartialMessageModel> {
    match expect("event: message\ndata: "@, f) {
        None => None,
        Some(s1) => match parse_partial(s1) {
            None => None,
            Some(p) => if p.1 == "\n\n"@ {
                Some(p.0)
            } else {
                None
            },
        },
    }
}

/// Decoding inverts encoding: every frame the encoder can produce decodes
/// back to exactly the payload it was made from. In particular no two
/// distinct payloads share a frame.
pub proof fn lemma_frame_round_trip(m: PartialMessageModel)
    ensures
        decode_frame(sse_frame(m)) == Some(m),
{
    let body = json_partial_message(m) + "\n\n"@;
    assert(sse_frame(m) =~= "event: message\ndata: "@ + body);
    lemma_expect("event: message\ndata: "@, body);
    lemma_parse_partial(m, "\n\n"@);
}

} // verus!
