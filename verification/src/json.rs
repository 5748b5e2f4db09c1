//! Canonical JSON text for the request bodies the platform accepts:
//! string escaping and quoting, exactly as the payloads are serialized
//! on the wire.

use vstd::prelude::*;

verus! {

/// The lowercase hexadecimal digit character for one value below sixteen.
pub open spec fn hex_digit_char(d: int) -> char {
    if d == 0 {
        '0'
    } else if d == 1 {
        '1'
    } else if d == 2 {
        '2'
    } else if d == 3 {
        '3'
    } else if d == 4 {
        '4'
    } else if d == 5 {
        '5'
    } else if d == 6 {
        '6'
    } else if d == 7 {
        '7'
    } else if d == 8 {
        '8'
    } else if d == 9 {
        '9'
    } else if d == 10 {
        'a'
    } else if d == 11 {
        'b'
    } else if d == 12 {
        'c'
    } else if d == 13 {
        'd'
    } else if d == 14 {
        'e'
    } else {
        'f'
    }
}

/// How one character appears inside a JSON string literal: quote and
/// backslash are escaped, control characters get their short escapes or a
/// `\u00..` form, and every other character stands as itself.
pub open spec fn json_escape_char(c: char) -> Seq<char> {
    if c == '"' {
        seq!['\\', '"']
    } else if c == '\\' {
        seq!['\\', '\\']
    } else if c == '\u{8}' {
        seq!['\\', 'b']
    } else if c == '\t' {
        seq!['\\', 't']
    } else if c == '\n' {
        seq!['\\', 'n']
    } else if c == '\u{c}' {
        seq!['\\', 'f']
    } else if c == '\r' {
        seq!['\\', 'r']
    } else if (c as int) < 0x20 {
        seq!['\\', 'u', '0', '0', hex_digit_char(c as int / 16), hex_digit_char(c as int % 16)]
    } else {
        seq![c]
    }
}

/// The body of a JSON string literal for `s`: each character escaped.
pub open spec fn json_escaped(s: Seq<char>) -> Seq<char>
    decreases s.len(),
{
    if s.len() == 0 {
        Seq::empty()
    } else {
        json_escaped(s.drop_last()) + json_escape_char(s.last())
    }
}

/// The JSON string literal for `s`: the escaped body between quotes.
pub open spec fn json_string(s: Seq<char>) -> Seq<char> {
    seq!['"'] + json_escaped(s) + seq!['"']
}

/// Relies on `String::push`: appends exactly the given character.
#[verifier::external_body]
pub(crate) fn push_char(s: &mut String, c: char)
    ensures
        final(s)@ == old(s)@.push(c),
{
    s.push(c)
}

/// One-character string for one value below sixteen, as a lowercase
/// hexadecimal digit.
fn hex_digit_str(d: u32) -> (r: &'static str)
    requires
        d < 16,
    ensures
        r@ == seq![hex_digit_char(d as int)],
{
    proof {
        reveal_strlit("0");
        reveal_strlit("1");
        reveal_strlit("2");
        reveal_strlit("3");
        reveal_strlit("4");
        reveal_strlit("5");
        reveal_strlit("6");
        reveal_strlit("7");
        reveal_strlit("8");
        reveal_strlit("9");
        reveal_strlit("a");
        reveal_strlit("b");
        reveal_strlit("c");
        reveal_strlit("d");
        reveal_strlit("e");
        reveal_strlit("f");
    }
    if d == 0 {
        "0"
    } else if d == 1 {
        "1"
    } else if d == 2 {
        "2"
    } else if d == 3 {
        "3"
    } else if d == 4 {
        "4"
    } else if d == 5 {
        "5"
    } else if d == 6 {
        "6"
    } else if d == 7 {
        "7"
    } else if d == 8 {
        "8"
    } else if d == 9 {
        "9"
    } else if d == 10 {
        "a"
    } else if d == 11 {
        "b"
    } else if d == 12 {
        "c"
    } else if d == 13 {
        "d"
    } else if d == 14 {
        "e"
    } else {
        "f"
    }
}

/// Appends the escaped form of one character to `out`.
fn append_escaped_char(out: &mut String, c: char)
    ensures
        final(out)@ == old(out)@ + json_escape_char(c),
{
    if c == '"' {
        proof {
            reveal_strlit("\\\"");
        }
        out.append("\\\"");
        assert(old(out)@ + "\\\""@ =~= old(out)@ + json_escape_char(c));
    } else if c == '\\' {
        proof {
            reveal_strlit("\\\\");
        }
        out.append("\\\\");
        assert(old(out)@ + "\\\\"@ =~= old(out)@ + json_escape_char(c));
    } else if c == '\u{8}' {
        proof {
            reveal_strlit("\\b");
        }
        out.append("\\b");
        assert(old(out)@ + "\\b"@ =~= old(out)@ + json_escape_char(c));
    } else if c == '\t' {
        proof {
            reveal_strlit("\\t");
        }
        out.append("\\t");
        assert(old(out)@ + "\\t"@ =~= old(out)@ + json_escape_char(c));
    } else if c == '\n' {
        proof {
            reveal_strlit("\\n");
        }
        out.append("\\n");
        assert(old(out)@ + "\\n"@ =~= old(out)@ + json_escape_char(c));
    } else if c == '\u{c}' {
        proof {
            reveal_strlit("\\f");
        }
        out.append("\\f");
        assert(old(out)@ + "\\f"@ =~= old(out)@ + json_escape_char(c));
    } else if c == '\r' {
        proof {
            reveal_strlit("\\r");
        }
        out.append("\\r");
        assert(old(out)@ + "\\r"@ =~= old(out)@ + json_escape_char(c));
    } else if (c as u32) < 0x20 {
        proof {
            reveal_strlit("\\u00");
        }
        out.append("\\u00");
        let d: u32 = c as u32;
        out.append(hex_digit_str(d / 16));
        out.append(hex_digit_str(d % 16));
        assert(old(out)@ + "\\u00"@ + seq![hex_digit_char(d as int / 16)] + seq![
            hex_digit_char(d as int % 16),
        ] =~= old(out)@ + json_escape_char(c));
    } else {
        push_char(out, c);
        assert(old(out)@.push(c) =~= old(out)@ + json_escape_char(c));
    }
}

/// Renders `s` as a JSON string literal, quoted and escaped the way the
/// payloads are serialized.
pub fn json_quote(s: &str) -> (r: String)
    ensures
        r@ == json_string(s@),
{
    let mut out = String::new();
    proof {
        reveal_strlit("\"");
    }
    out.append("\"");
    proof {
        assert(out@ =~= seq!['"'] + json_escaped(s@.take(0)));
    }
    let n = s.unicode_len();
    let mut i: usize = 0;
    while i < n
        invariant
            i <= n,
            n == s@.len(),
            out@ == seq!['"'] + json_escaped(s@.take(i as int)),
        decreases n - i,
    {
        let c = s.get_char(i);
        append_escaped_char(&mut out, c);
        proof {
            assert(s@.take(i + 1).drop_last() =~= s@.take(i as int));
            assert(s@.take(i + 1).last() == s@[i as int]);
            assert(out@ =~= seq!['"'] + json_escaped(s@.take(i + 1)));
        }
        i = i + 1;
    }
    out.append("\"");
    proof {
        assert(s@.take(n as int) =~= s@);
        assert(out@ =~= json_string(s@));
    }
    out
}

} // verus!
