use vstd::prelude::*;
use vstd::string::{StrSliceExecFns, StringExecFns};

verus! {

/// The lower-case hexadecimal digit `d`.
pub open spec fn hex_digit(d: nat) -> char {
    if d < 10 {
        ('0' as nat + d) as char
    } else {
        ('a' as nat + (d - 10)) as char
    }
}

/// Lower-case hexadecimal notation of a natural number, without leading zeros.
pub open spec fn hex_text(n: nat) -> Seq<char>
    decreases n,
{
    if n < 16 {
        seq![hex_digit(n)]
    } else {
        hex_text(n / 16).push(hex_digit(n % 16))
    }
}

/// Whether a character is an ASCII control character.
pub open spec fn is_ascii_control(c: char) -> bool {
    (c as u32) < 0x20 || (c as u32) == 0x7f
}

/// How a character appears inside a quoted string in debug output: backslash escapes
/// for tab, carriage return, line feed, backslash, double quote and NUL, `\u{..}` for
/// the other ASCII control characters, every other character as it is.
pub open spec fn escape_char(c: char) -> Seq<char> {
    if c == '\t' {
        seq!['\\', 't']
    } else if c == '\r' {
        seq!['\\', 'r']
    } else if c == '\n' {
        seq!['\\', 'n']
    } else if c == '\\' {
        seq!['\\', '\\']
    } else if c == '"' {
        seq!['\\', '"']
    } else if c == '\0' {
        seq!['\\', '0']
    } else if is_ascii_control(c) {
        seq!['\\', 'u', '{'] + hex_text(c as nat) + seq!['}']
    } else {
        seq![c]
    }
}

/// A string as it appears between the double quotes of its debug output.
pub open spec fn escaped(s: Seq<char>) -> Seq<char>
    decreases s.len(),
{
    if s.len() == 0 {
        Seq::empty()
    } else {
        escaped(s.drop_last()) + escape_char(s.last())
    }
}

/// A string with no character that needs escaping appears in debug output as it is.
pub proof fn law_plain_text_unchanged(s: Seq<char>)
    requires
        forall|i: int| 0 <= i < s.len() ==> #[trigger] escape_char(s[i]) == seq![s[i]],
    ensures
        escaped(s) == s,
    decreases s.len(),
{
    if s.len() > 0 {
        let t = s.drop_last();
        assert forall|i: int| 0 <= i < t.len() implies #[trigger] escape_char(t[i]) == seq![t[i]] by {
            assert(t[i] == s[i]);
        }
        law_plain_text_unchanged(t);
        assert(escape_char(s[s.len() - 1]) == seq![s.last()]);
        assert(s =~= t + seq![s.last()]);
    }
}

fn append_hex_digit(out: &mut String, d: u32)
    requires
        d < 16,
    ensures
        final(out)@ == old(out)@.push(hex_digit(d as nat)),
{
    let digits = "0123456789abcdef";
    proof {
        reveal_strlit("0123456789abcdef");
        assert(digits@ =~= seq!['0', '1', '2', '3', '4', '5', '6', '7', '8', '9', 'a', 'b', 'c', 'd', 'e', 'f']);
    }
    let piece = digits.substring_char(d as usize, d as usize + 1);
    out.append(piece);
    proof {
        assert(piece@ =~= seq![hex_digit(d as nat)]);
    }
}

/// Appends the lower-case hexadecimal notation of a number below 256.
fn append_small_hex(out: &mut String, v: u32)
    requires
        v < 256,
    ensures
        final(out)@ == old(out)@ + hex_text(v as nat),
{
    if v < 16 {
        append_hex_digit(out, v);
        assert(final(out)@ =~= old(out)@ + hex_text(v as nat));
    } else {
        append_hex_digit(out, v / 16);
        append_hex_digit(out, v % 16);
        assert(hex_text((v / 16) as nat) == seq![hex_digit((v / 16) as nat)]);
        assert(final(out)@ =~= old(out)@ + hex_text(v as nat));
    }
}

/// Appends the escape sequence of a character that is not copied as it is.
fn append_escape(out: &mut String, c: char)
    requires
        escape_char(c) != seq![c],
    ensures
        final(out)@ == old(out)@ + escape_char(c),
{
    if c == '\t' {
        out.append("\\t");
        proof { reveal_strlit("\\t"); }
    } else if c == '\r' {
        out.append("\\r");
        proof { reveal_strlit("\\r"); }
    } else if c == '\n' {
        out.append("\\n");
        proof { reveal_strlit("\\n"); }
    } else if c == '\\' {
        out.append("\\\\");
        proof { reveal_strlit("\\\\"); }
    } else if c == '"' {
        out.append("\\\"");
        proof { reveal_strlit("\\\""); }
    } else if c == '\0' {
        out.append("\\0");
        proof { reveal_strlit("\\0"); }
    } else {
        out.append("\\u{");
        proof { reveal_strlit("\\u{"); }
        append_small_hex(out, c as u32);
        out.append("}");
        proof { reveal_strlit("}"); }
    }
    assert(final(out)@ =~= old(out)@ + escape_char(c));
}

fn needs_escape(c: char) -> (r: bool)
    ensures
        r == (escape_char(c) != seq![c]),
{
    let r = c == '\t' || c == '\r' || c == '\n' || c == '\\' || c == '"' || c == '\0' || (c as u32) < 0x20
        || (c as u32) == 0x7f;
    proof {
        if !r {
            assert(escape_char(c) =~= seq![c]);
        } else {
            assert(escape_char(c).len() >= 2);
        }
    }
    r
}

/// Appends a string as it appears between the double quotes of its debug output.
pub fn append_escaped(out: &mut String, s: &String)
    ensures
        final(out)@ == old(out)@ + escaped(s@),
{
    let text = s.as_str();
    let n = text.unicode_len();
    let mut start: usize = 0;
    let mut i: usize = 0;
    proof {
        assert(s@.take(0) =~= Seq::<char>::empty());
    }
    while i < n
        invariant
            n == s@.len(),
            text@ == s@,
            start <= i <= n,
            old(out)@ + escaped(s@.take(i as int)) == out@ + s@.subrange(start as int, i as int),
        decreases n - i,
    {
        let c = text.get_char(i);
        proof {
            assert(s@.take(i + 1).drop_last() =~= s@.take(i as int));
            assert(s@.take(i + 1).last() == c);
        }
        if needs_escape(c) {
            let ghost before = out@;
            let ghost pending = s@.subrange(start as int, i as int);
            let piece = text.substring_char(start, i);
            out.append(piece);
            append_escape(out, c);
            proof {
                assert(escaped(s@.take(i + 1)) == escaped(s@.take(i as int)) + escape_char(c));
                assert(out@ =~= before + pending + escape_char(c));
                assert(s@.subrange(i + 1, i + 1) =~= Seq::<char>::empty());
                assert(old(out)@ + escaped(s@.take(i + 1)) =~= out@ + s@.subrange(i + 1, i + 1));
            }
            start = i + 1;
        } else {
            proof {
                let e0 = escaped(s@.take(i as int));
                let pending = s@.subrange(start as int, i as int);
                assert(escaped(s@.take(i + 1)) == e0 + seq![c]);
                assert(old(out)@ + (e0 + seq![c]) =~= (old(out)@ + e0) + seq![c]);
                assert(old(out)@ + e0 == out@ + pending);
                assert((out@ + pending) + seq![c] =~= out@ + (pending + seq![c]));
                assert(s@.subrange(start as int, i + 1) =~= pending + seq![c]);
                assert(old(out)@ + escaped(s@.take(i + 1)) =~= out@ + s@.subrange(start as int, i + 1));
            }
        }
        i += 1;
    }
    let rest = text.substring_char(start, n);
    out.append(rest);
    proof {
        assert(s@.take(n as int) =~= s@);
        assert(final(out)@ =~= old(out)@ + escaped(s@));
    }
}

} // verus!
