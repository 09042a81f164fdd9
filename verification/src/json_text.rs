//! The JSON record as exact text: fixed key names, fixed field order,
//! compact form, string contents escaped as JSON requires.

use vstd::prelude::*;
use vstd::string::StrSliceExecFns;
use vstd::string::StringExecFns;
use crate::calendar::iso_utc_of;
use crate::calendar::rfc3339_utc_of;
use crate::numeral::dec_seq_of;
use crate::numeral::u64_to_dec;
use crate::text::push_char;

verus! {

/// The lowercase hexadecimal digit character for a value below sixteen.
pub open spec fn hex_char(d: nat) -> char
    recommends
        d < 16,
{
    if d == 0 {
        '0'
    } else if d == 1 {
        '1'
    } else if d == 2 {
        '2'
    } else if d == 3 {
        '3'
    } else if d == 4 {
        '4'
    } else if d == 5 {
        '5'
    } else if d == 6 {
        '6'
    } else if d == 7 {
        '7'
    } else if d == 8 {
        '8'
    } else if d == 9 {
        '9'
    } else if d == 10 {
        'a'
    } else if d == 11 {
        'b'
    } else if d == 12 {
        'c'
    } else if d == 13 {
        'd'
    } else {
        if d == 14 {
            'e'
        } else {
            'f'
        }
    }
}

/// The JSON escape of one character: quote and backslash escaped, control
/// characters as the usual shorthands or `\u00..`, everything else kept.
pub open spec fn json_escape_char(c: char) -> Seq<char> {
    if c == '"' {
        seq!['\\', '"']
    } else if c == '\\' {
        seq!['\\', '\\']
    } else if c == '\u{8}' {
        seq!['\\', 'b']
    } else if c == '\t' {
        seq!['\\', 't']
    } else if c == '\n' {
        seq!['\\', 'n']
    } else if c == '\u{c}' {
        seq!['\\', 'f']
    } else if c == '\r' {
        seq!['\\', 'r']
    } else if (c as u32) < 32 {
        seq!['\\', 'u', '0', '0', hex_char((c as u32 / 16) as nat), hex_char((c as u32 % 16) as nat)]
    } else {
        seq![c]
    }
}

/// The JSON escape of whole text, character by character.
pub open spec fn json_escape_of(s: Seq<char>) -> Seq<char>
    decreases s.len(),
{
    if s.len() == 0 {
        Seq::empty()
    } else {
        json_escape_of(s.drop_last()) + json_escape_char(s.last())
    }
}

fn hex_char_exec(d: u32) -> (c: char)
    requires
        d < 16,
    ensures
        c == hex_char(d as nat),
{
    if d == 0 {
        '0'
    } else if d == 1 {
        '1'
    } else if d == 2 {
        '2'
    } else if d == 3 {
        '3'
    } else if d == 4 {
        '4'
    } else if d == 5 {
        '5'
    } else if d == 6 {
        '6'
    } else if d == 7 {
        '7'
    } else if d == 8 {
        '8'
    } else if d == 9 {
        '9'
    } else if d == 10 {
        'a'
    } else if d == 11 {
        'b'
    } else if d == 12 {
        'c'
    } else if d == 13 {
        'd'
    } else if d == 14 {
        'e'
    } else {
        'f'
    }
}

fn push_escaped(out: &mut String, c: char)
    ensures
        final(out)@ == old(out)@ + json_escape_char(c),
{
    let ghost orig = out@;
    if c == '"' {
        push_char(out, '\\');
        push_char(out, '"');
    } else if c == '\\' {
        push_char(out, '\\');
        push_char(out, '\\');
    } else if c == '\u{8}' {
        push_char(out, '\\');
        push_char(out, 'b');
    } else if c == '\t' {
        push_char(out, '\\');
        push_char(out, 't');
    } else if c == '\n' {
        push_char(out, '\\');
        push_char(out, 'n');
    } else if c == '\u{c}' {
        push_char(out, '\\');
        push_char(out, 'f');
    } else if c == '\r' {
        push_char(out, '\\');
        push_char(out, 'r');
    } else if (c as u32) < 32 {
        push_char(out, '\\');
        push_char(out, 'u');
        push_char(out, '0');
        push_char(out, '0');
        push_char(out, hex_char_exec((c as u32) / 16));
        push_char(out, hex_char_exec((c as u32) % 16));
    } else {
        push_char(out, c);
    }
    proof {
        assert(out@ =~= orig + json_escape_char(c));
    }
}

/// Escapes text for inclusion in a JSON string literal.
pub fn json_escape(s: &str) -> (r: String)
    ensures
        r@ == json_escape_of(s@),
{
    let n = s.unicode_len();
    let mut out = String::new();
    let mut i: usize = 0;
    while i < n
        invariant
            n == s@.len(),
            i <= n,
            out@ == json_escape_of(s@.take(i as int)),
        decreases n - i,
    {
        let c = s.get_char(i);
        push_escaped(&mut out, c);
        proof {
            assert(s@.take(i as int + 1).drop_last() =~= s@.take(i as int));
            assert(s@.take(i as int + 1).last() == s@[i as int]);
        }
        i = i + 1;
    }
    proof {
        assert(s@.take(n as int) =~= s@);
    }
    out
}

/// The exact JSON record for a processed input: the input text, the
/// millisecond and truncated second integers, and the two calendar
/// renderings, under fixed keys in fixed order.
pub open spec fn json_line_of(u: Seq<char>, ms: int) -> Seq<char>
    recommends
        0 <= ms,
        iso_utc_of(ms) is Some,
{
    "{\"uuid\":\""@ + json_escape_of(u) + "\",\"timestamp_ms\":"@ + dec_seq_of(ms as nat)
        + ",\"timestamp_sec\":"@ + dec_seq_of((ms / 1000) as nat) + ",\"iso8601\":\""@
        + iso_utc_of(ms).unwrap() + "\",\"rfc3339\":\""@ + rfc3339_utc_of(ms) + "\"}"@
}

/// Builds the JSON record from the input text, the timestamp, and the two
/// calendar renderings already obtained for it.
pub fn json_line(u: &str, ms: i64, iso: &str, rfc: &str) -> (r: String)
    requires
        0 <= ms,
        iso_utc_of(ms as int) == Some(iso@),
        rfc@ == rfc3339_utc_of(ms as int),
    ensures
        r@ == json_line_of(u@, ms as int),
{
    let mut out = String::from_str("{\"uuid\":\"");
    let esc = json_escape(u);
    out.append(esc.as_str());
    out.append("\",\"timestamp_ms\":");
    let ms_text = u64_to_dec(ms as u64);
    out.append(ms_text.as_str());
    out.append(",\"timestamp_sec\":");
    let sec_text = u64_to_dec((ms as u64) / 1000);
    out.append(sec_text.as_str());
    out.append(",\"iso8601\":\"");
    out.append(iso);
    out.append("\",\"rfc3339\":\"");
    out.append(rfc);
    out.append("\"}");
    proof {
        assert(out@ =~= json_line_of(u@, ms as int));
    }
    out
}

} // verus!
