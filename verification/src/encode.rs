//! The event encoder: maps a wire-level event payload to its
//! Server-Sent-Events byte frame, `event: message\ndata: <json>\n\n`,
//! where `<json>` is the JSON object for the payload.
//!
//! The whole wire format is defined here as spec functions over character
//! sequences, and the executable encoder is proved to produce exactly it.

use vstd::prelude::*;
use vstd::string::StrSliceExecFns;

use crate::model::PartialMessage;
use crate::model::PartialMessageModel;
use crate::model::Source;
use crate::model::SourceModel;

verus! {

/// The decimal digit character for `d`.
pub open spec fn dec_digit(d: nat) -> char {
    if d == 0 {
        '0'
    } else if d == 1 {
        '1'
    } else if d == 2 {
        '2'
    } else if d == 3 {
        '3'
    } else if d == 4 {
        '4'
    } else if d == 5 {
        '5'
    } else if d == 6 {
        '6'
    } else if d == 7 {
        '7'
    } else if d == 8 {
        '8'
    } else {
        '9'
    }
}

/// The lowercase hexadecimal digit character for `d`.
pub open spec fn hex_digit(d: nat) -> char {
    if d < 10 {
        dec_digit(d)
    } else if d == 10 {
        'a'
    } else if d == 11 {
        'b'
    } else if d == 12 {
        'c'
    } else if d == 13 {
        'd'
    } else if d == 14 {
        'e'
    } else {
        'f'
    }
}

/// The decimal notation of a natural number, no leading zeros.
pub open spec fn dec_str(n: nat) -> Seq<char>
    decreases n,
{
    if n < 10 {
        seq![dec_digit(n)]
    } else {
        dec_str(n / 10).push(dec_digit(n % 10))
    }
}

/// The decimal notation of an integer, with a leading `-` when negative.
pub open spec fn int_str(i: int) -> Seq<char> {
    if i < 0 {
        seq!['-'] + dec_str((-i) as nat)
    } else {
        dec_str(i as nat)
    }
}

/// How one character appears inside a JSON string literal: quote and
/// backslash get a backslash escape, control characters get their short
/// escape or a `\u00..` escape, and every other character stands as is.
pub open spec fn escaped_char(c: char) -> Seq<char> {
    if c == '"' {
        seq!['\\', '"']
    } else if c == '\\' {
        seq!['\\', '\\']
    } else if c == '\u{8}' {
        seq!['\\', 'b']
    } else if c == '\t' {
        seq!['\\', 't']
    } else if c == '\n' {
        seq!['\\', 'n']
    } else if c == '\u{c}' {
        seq!['\\', 'f']
    } else if c == '\r' {
        seq!['\\', 'r']
    } else if (c as u32) < 0x20 {
        seq!['\\', 'u', '0', '0'] + seq![
            hex_digit(((c as u32) / 16) as nat),
            hex_digit(((c as u32) % 16) as nat),
        ]
    } else {
        seq![c]
    }
}

/// The body of a JSON string literal: each character escaped in turn.
pub open spec fn escaped_text(s: Seq<char>) -> Seq<char>
    decreases s.len(),
{
    if s.len() == 0 {
        Seq::empty()
    } else {
        escaped_text(s.drop_last()) + escaped_char(s.last())
    }
}

/// A JSON string literal: the escaped body between double quotes.
pub open spec fn json_string(s: Seq<char>) -> Seq<char> {
    seq!['"'] + escaped_text(s) + seq!['"']
}

/// An optional JSON string: `null` when absent.
pub open spec fn json_opt_string(s: Option<Seq<char>>) -> Seq<char> {
    match s {
        Some(t) => json_string(t),
        None => "null"@,
    }
}

/// The JSON object for a source citation, fields in declaration order.
pub open spec fn json_source(s: SourceModel) -> Seq<char> {
    "{\"ordinal\":"@ + dec_str(s.ordinal) + ",\"index\":"@ + int_str(s.index) + ",\"citation\":"@
        + json_string(s.citation) + ",\"url\":"@ + json_string(s.url) + ",\"origin_text\":"@
        + json_string(s.origin_text) + "}"@
}

/// An optional source object: `null` when absent.
pub open spec fn json_opt_source(s: Option<SourceModel>) -> Seq<char> {
    match s {
        Some(m) => json_source(m),
        None => "null"@,
    }
}

/// The JSON object for an event payload: all three fields always present,
/// absent ones as `null`.
pub open spec fn json_partial_message(m: PartialMessageModel) -> Seq<char> {
    "{\"content\":"@ + json_opt_string(m.content) + ",\"source\":"@ + json_opt_source(m.source)
        + ",\"finished\":"@ + json_opt_string(m.finished) + "}"@
}

/// The full SSE frame for an event payload.
pub open spec fn sse_frame(m: PartialMessageModel) -> Seq<char> {
    "event: message\ndata: "@ + json_partial_message(m) + "\n\n"@
}

/// Relies on `String`'s `FromIterator<char>` impl: collecting characters
/// yields the string of exactly those characters in order.
#[verifier::external_body]
pub(crate) fn chars_to_string(v: &Vec<char>) -> (r: String)
    ensures
        r@ == v@,
{
    v.iter().collect()
}

/// Appends every character of `s` to `out`.
fn push_literal(out: &mut Vec<char>, s: &str)
    ensures
        final(out)@ == old(out)@ + s@,
{
    let n = s.unicode_len();
    let mut i: usize = 0;
    while i < n
        invariant
            n == s@.len(),
            i <= n,
            out@ == old(out)@ + s@.take(i as int),
        decreases n - i,
    {
        let c = s.get_char(i);
        out.push(c);
        proof {
            assert(s@.take(i + 1 as int) =~= s@.take(i as int).push(s@[i as int]));
        }
        i += 1;
    }
    proof {
        assert(s@.take(n as int) =~= s@);
    }
}

/// The decimal digit character for `d`.
fn dec_digit_char(d: u64) -> (c: char)
    requires
        d < 10,
    ensures
        c == dec_digit(d as nat),
{
    if d == 0 {
        '0'
    } else if d == 1 {
        '1'
    } else if d == 2 {
        '2'
    } else if d == 3 {
        '3'
    } else if d == 4 {
        '4'
    } else if d == 5 {
        '5'
    } else if d == 6 {
        '6'
    } else if d == 7 {
        '7'
    } else if d == 8 {
        '8'
    } else {
        '9'
    }
}

/// The lowercase hexadecimal digit character for `d`.
fn hex_digit_char(d: u32) -> (c: char)
    requires
        d < 16,
    ensures
        c == hex_digit(d as nat),
{
    if d < 10 {
        dec_digit_char(d as u64)
    } else if d == 10 {
        'a'
    } else if d == 11 {
        'b'
    } else if d == 12 {
        'c'
    } else if d == 13 {
        'd'
    } else if d == 14 {
        'e'
    } else {
        'f'
    }
}

/// Appends the decimal notation of `n` to `out`.
fn push_dec_u64(out: &mut Vec<char>, n: u64)
    ensures
        final(out)@ == old(out)@ + dec_str(n as nat),
    decreases n,
{
    if n < 10 {
        out.push(dec_digit_char(n));
    } else {
        push_dec_u64(out, n / 10);
        out.push(dec_digit_char(n % 10));
    }
}

/// Appends the decimal notation of `i`, sign included, to `out`.
fn push_int_i64(out: &mut Vec<char>, i: i64)
    ensures
        final(out)@ == old(out)@ + int_str(i as int),
{
    if i >= 0 {
        push_dec_u64(out, i as u64);
    } else {
        out.push('-');
        let wide: i128 = i as i128;
        let mag: u64 = (-wide) as u64;
        assert(mag as int == -(i as int));
        push_dec_u64(out, mag);
        proof {
            assert(out@ =~= old(out)@ + int_str(i as int));
        }
    }
}

/// Appends the escape of one character to `out`.
fn push_escaped_char(out: &mut Vec<char>, c: char)
    ensures
        final(out)@ == old(out)@ + escaped_char(c),
{
    if c == '"' {
        out.push('\\');
        out.push('"');
    } else if c == '\\' {
        out.push('\\');
        out.push('\\');
    } else if c == '\u{8}' {
        out.push('\\');
        out.push('b');
    } else if c == '\t' {
        out.push('\\');
        out.push('t');
    } else if c == '\n' {
        out.push('\\');
        out.push('n');
    } else if c == '\u{c}' {
        out.push('\\');
        out.push('f');
    } else if c == '\r' {
        out.push('\\');
        out.push('r');
    } else {
        let code: u32 = c as u32;
        if code < 0x20 {
            out.push('\\');
            out.push('u');
            out.push('0');
            out.push('0');
            out.push(hex_digit_char(code / 16));
            out.push(hex_digit_char(code % 16));
        } else {
            out.push(c);
        }
    }
    proof {
        assert(out@ =~= old(out)@ + escaped_char(c));
    }
}

/// Appends the JSON string literal for `s` to `out`.
fn push_json_string(out: &mut Vec<char>, s: &str)
    ensures
        final(out)@ == old(out)@ + json_string(s@),
{
    out.push('"');
    let n = s.unicode_len();
    let mut i: usize = 0;
    while i < n
        invariant
            n == s@.len(),
            i <= n,
            out@ == old(out)@ + seq!['"'] + escaped_text(s@.take(i as int)),
        decreases n - i,
    {
        let c = s.get_char(i);
        push_escaped_char(out, c);
        proof {
            assert(s@.take(i + 1 as int).drop_last() =~= s@.take(i as int));
            assert(s@.take(i + 1 as int).last() == s@[i as int]);
        }
        i += 1;
    }
    out.push('"');
    proof {
        assert(s@.take(n as int) =~= s@);
        assert(out@ =~= old(out)@ + json_string(s@));
    }
}

/// Appends the JSON object for a source citation to `out`.
fn push_json_source(out: &mut Vec<char>, s: &Source)
    ensures
        final(out)@ == old(out)@ + json_source(s@),
{
    push_literal(out, "{\"ordinal\":");
    push_dec_u64(out, s.ordinal as u64);
    push_literal(out, ",\"index\":");
    push_int_i64(out, s.index);
    push_literal(out, ",\"citation\":");
    push_json_string(out, s.citation.as_str());
    push_literal(out, ",\"url\":");
    push_json_string(out, s.url.as_str());
    push_literal(out, ",\"origin_text\":");
    push_json_string(out, s.origin_text.as_str());
    push_literal(out, "}");
    proof {
        assert(out@ =~= old(out)@ + json_source(s@));
    }
}

/// Appends the JSON object for an event payload to `out`.
#[verifier::rlimit(30)]
fn push_json_partial_message(out: &mut Vec<char>, m: &PartialMessage)
    ensures
        final(out)@ == old(out)@ + json_partial_message(m@),
{
    push_literal(out, "{\"content\":");
    match &m.content {
        Some(text) => push_json_string(out, text.as_str()),
        None => push_literal(out, "null"),
    }
    push_literal(out, ",\"source\":");
    match &m.source {
        Some(s) => push_json_source(out, s),
        None => push_literal(out, "null"),
    }
    push_literal(out, ",\"finished\":");
    match &m.finished {
        Some(text) => push_json_string(out, text.as_str()),
        None => push_literal(out, "null"),
    }
    push_literal(out, "}");
    proof {
        assert(out@ =~= old(out)@ + json_partial_message(m@));
    }
}

impl PartialMessage {
    /// Encodes this event payload as its SSE frame.
    pub fn message(&self) -> (r: String)
        ensures
            r@ == sse_frame(self@),
    {
        let mut out: Vec<char> = Vec::new();
        push_literal(&mut out, "event: message\ndata: ");
        push_json_partial_message(&mut out, self);
        push_literal(&mut out, "\n\n");
        proof {
            assert(out@ =~= sse_frame(self@));
        }
        chars_to_string(&out)
    }
}

} // verus!
