//! How strings and paths are shown in error messages: quoted and escaped as
//! the `Debug` formatting of a string shows them.

use vstd::prelude::*;

verus! {

/// How `char::escape_debug` shows the character `c`.
pub uninterp spec fn char_escape_debug(c: char) -> Seq<char>;

/// The characters `char::escape_debug` gives for `c`
/// (`char::escape_debug`, collected into a string).  Claimed: they are the
/// named result for `c`.
#[verifier::external_body]
fn escape_debug_of(c: char) -> (r: String)
    ensures
        r@ == char_escape_debug(c),
{
    c.escape_debug().to_string()
}

/// The lowercase hexadecimal digit of value `d`, for `d` below 16.
pub open spec fn hex_digit(d: int) -> char {
    "0123456789abcdef"@[d]
}

/// The lowercase hexadecimal digits of `n`, without leading zeros.
pub open spec fn hex_digits(n: nat) -> Seq<char>
    decreases n,
{
    if n < 16 {
        seq![hex_digit(n as int)]
    } else {
        hex_digits(n / 16).push(hex_digit((n % 16) as int))
    }
}

/// `\u{..}` with the code of `c` in lowercase hexadecimal.
pub open spec fn unicode_escape(c: char) -> Seq<char> {
    seq!['\\', 'u', '{'] + hex_digits(c as nat) + seq!['}']
}

/// How `Debug` shows the character `c` inside a quoted string: a double
/// quote, a backslash, a NUL, a tab, a carriage return and a newline are
/// escaped with a backslash; the other ASCII control characters are shown
/// by their code, as `\u{..}`; printable ASCII, the single quote among it,
/// stands as it is; any other character is shown as `char::escape_debug`
/// shows it (which escapes a single quote, the one place where the two
/// differ, and that is ASCII).
pub open spec fn escaped_char(c: char) -> Seq<char> {
    if c == '"' {
        seq!['\\', '"']
    } else if c == '\\' {
        seq!['\\', '\\']
    } else if c == '\0' {
        seq!['\\', '0']
    } else if c == '\t' {
        seq!['\\', 't']
    } else if c == '\r' {
        seq!['\\', 'r']
    } else if c == '\n' {
        seq!['\\', 'n']
    } else if (c as int) < 0x20 || (c as int) == 0x7f {
        unicode_escape(c)
    } else if (c as int) < 0x7f {
        seq![c]
    } else {
        char_escape_debug(c)
    }
}

/// Appends `\u{..}` with the code `v` of an ASCII character in lowercase
/// hexadecimal.
fn push_unicode_escape(out: &mut String, c: char)
    requires
        (c as int) < 0x80,
    ensures
        final(out)@ == old(out)@ + unicode_escape(c),
{
    proof {
        reveal_strlit("\\u{");
        reveal_strlit("}");
        reveal_strlit("0123456789abcdef");
    }
    let digits = "0123456789abcdef";
    let v: u32 = c as u32;
    out.append("\\u{");
    let ghost before = out@;
    if v >= 16 {
        let hi = digits.substring_char((v / 16) as usize, (v / 16) as usize + 1);
        out.append(hi);
        assert(hi@ =~= seq![hex_digit((v / 16) as int)]);
    }
    let lo = digits.substring_char((v % 16) as usize, (v % 16) as usize + 1);
    out.append(lo);
    assert(lo@ =~= seq![hex_digit((v % 16) as int)]);
    proof {
        let n = c as nat;
        if n >= 16 {
            assert((n / 16) < 16);
            assert(hex_digits(n / 16) == seq![hex_digit((n / 16) as int)]);
            assert(hex_digits(n) =~= seq![hex_digit((v / 16) as int), hex_digit((v % 16) as int)]);
        } else {
            assert(hex_digits(n) =~= seq![hex_digit((v % 16) as int)]);
        }
        assert(out@ =~= old(out)@ + seq!['\\', 'u', '{'] + hex_digits(n));
    }
    out.append("}");
    assert(out@ =~= old(out)@ + unicode_escape(c));
}

/// The characters of `s`, each escaped.
pub open spec fn escaped(s: Seq<char>) -> Seq<char>
    decreases s.len(),
{
    if s.len() == 0 {
        Seq::<char>::empty()
    } else {
        escaped(s.drop_last()) + escaped_char(s.last())
    }
}

/// `s` between double quotes, escaped.
pub open spec fn debug_quoted(s: Seq<char>) -> Seq<char> {
    seq!['"'] + escaped(s) + seq!['"']
}

/// Appends `s` to `out`, between double quotes and escaped.
pub fn push_debug_quoted(out: &mut String, s: &str)
    ensures
        final(out)@ == old(out)@ + debug_quoted(s@),
{
    proof {
        reveal_strlit("\"");
    }
    let ghost start = out@;
    out.append("\"");
    let n = s.unicode_len();
    let mut i: usize = 0;
    while i < n
        invariant
            n == s@.len(),
            i <= n,
            out@ == start + seq!['"'] + escaped(s@.take(i as int)),
        decreases n - i,
    {
        proof {
            reveal_strlit("\\\"");
            reveal_strlit("\\\\");
            reveal_strlit("\\0");
            reveal_strlit("\\t");
            reveal_strlit("\\r");
            reveal_strlit("\\n");
        }
        let c = s.get_char(i);
        let ghost before = out@;
        if c == '"' {
            out.append("\\\"");
        } else if c == '\\' {
            out.append("\\\\");
        } else if c == '\0' {
            out.append("\\0");
        } else if c == '\t' {
            out.append("\\t");
        } else if c == '\r' {
            out.append("\\r");
        } else if c == '\n' {
            out.append("\\n");
        } else if (c as u32) < 0x20 || (c as u32) == 0x7f {
            push_unicode_escape(out, c);
        } else if (c as u32) < 0x7f {
            let one = s.substring_char(i, i + 1);
            assert(one@ =~= seq![c]);
            out.append(one);
        } else {
            let e = escape_debug_of(c);
            out.append(e.as_str());
        }
        assert(s@.take(i + 1).drop_last() =~= s@.take(i as int));
        assert(s@.take(i + 1).last() == c);
        assert(out@ =~= before + escaped_char(c));
        i = i + 1;
    }
    assert(s@.take(n as int) =~= s@);
    out.append("\"");
    assert(out@ =~= start + debug_quoted(s@));
}

/// `s` between double quotes and escaped, as `Debug` shows a string.
pub fn debug_quote(s: &str) -> (r: String)
    ensures
        r@ == debug_quoted(s@),
{
    let mut r = String::new();
    push_debug_quoted(&mut r, s);
    r
}

} // verus!
