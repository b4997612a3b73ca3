//! General helpers that no other module depends on.

use vstd::prelude::*;
use vstd::string::*;

verus! {

/// Character-for-character equality of two string slices.
pub fn str_eq(a: &str, b: &str) -> (r: bool)
    ensures
        r == (a@ == b@),
{
    let alen = a.unicode_len();
    let blen = b.unicode_len();
    if alen != blen {
        return false;
    }
    let mut i: usize = 0;
    while i < alen
        invariant
            alen == a@.len(),
            blen == b@.len(),
            alen == blen,
            i <= alen,
            forall|j: int| 0 <= j < i ==> a@[j] == b@[j],
        decreases alen - i,
    {
        if a.get_char(i) != b.get_char(i) {
            return false;
        }
        i += 1;
    }
    proof {
        assert(a@ =~= b@);
    }
    true
}

/// The order of two unsigned numbers.
pub open spec fn u32_cmp(a: u32, b: u32) -> core::cmp::Ordering {
    if a == b {
        core::cmp::Ordering::Equal
    } else if a < b {
        core::cmp::Ordering::Less
    } else {
        core::cmp::Ordering::Greater
    }
}

/// Compare two unsigned numbers.
pub fn cmp_u32(a: u32, b: u32) -> (r: core::cmp::Ordering)
    ensures
        r == u32_cmp(a, b),
{
    if a == b {
        core::cmp::Ordering::Equal
    } else if a < b {
        core::cmp::Ordering::Less
    } else {
        core::cmp::Ordering::Greater
    }
}

/// The order of two characters, by code point.
pub open spec fn char_cmp(a: char, b: char) -> core::cmp::Ordering {
    if a == b {
        core::cmp::Ordering::Equal
    } else if (a as u32) < (b as u32) {
        core::cmp::Ordering::Less
    } else {
        core::cmp::Ordering::Greater
    }
}

/// The lexicographic order of two character sequences: decided by the
/// first differing character, with a proper prefix before the longer
/// sequence.
pub open spec fn seq_char_cmp(a: Seq<char>, b: Seq<char>) -> core::cmp::Ordering
    decreases a.len(),
{
    if a.len() == 0 && b.len() == 0 {
        core::cmp::Ordering::Equal
    } else if a.len() == 0 {
        core::cmp::Ordering::Less
    } else if b.len() == 0 {
        core::cmp::Ordering::Greater
    } else if a[0] != b[0] {
        char_cmp(a[0], b[0])
    } else {
        seq_char_cmp(a.drop_first(), b.drop_first())
    }
}

/// Skipping a common prefix does not change the lexicographic order.
pub proof fn lemma_seq_char_cmp_common_prefix(a: Seq<char>, b: Seq<char>, i: int)
    requires
        0 <= i <= a.len(),
        i <= b.len(),
        forall|j: int| 0 <= j < i ==> a[j] == b[j],
    ensures
        seq_char_cmp(a, b) == seq_char_cmp(a.skip(i), b.skip(i)),
    decreases i,
{
    if i == 0 {
        assert(a.skip(0) =~= a);
        assert(b.skip(0) =~= b);
    } else {
        assert(a[0] == b[0]);
        assert(forall|j: int|
            0 <= j < i - 1 ==> a.drop_first()[j] == b.drop_first()[j]) by {
            assert(forall|j: int| 0 <= j < i - 1 ==> a.drop_first()[j] == a[j + 1]);
            assert(forall|j: int| 0 <= j < i - 1 ==> b.drop_first()[j] == b[j + 1]);
        }
        lemma_seq_char_cmp_common_prefix(a.drop_first(), b.drop_first(), i - 1);
        assert(a.drop_first().skip(i - 1) =~= a.skip(i));
        assert(b.drop_first().skip(i - 1) =~= b.skip(i));
    }
}

/// Two character sequences compare equal in the lexicographic order
/// exactly when they are equal.
pub proof fn lemma_seq_char_cmp_equal(a: Seq<char>, b: Seq<char>)
    ensures
        (seq_char_cmp(a, b) == core::cmp::Ordering::Equal) <==> a == b,
    decreases a.len(),
{
    if a.len() == 0 && b.len() == 0 {
        assert(a =~= b);
    } else if a.len() == 0 || b.len() == 0 {
    } else if a[0] != b[0] {
    } else {
        lemma_seq_char_cmp_equal(a.drop_first(), b.drop_first());
        if seq_char_cmp(a, b) == core::cmp::Ordering::Equal {
            assert forall|i: int| 0 <= i < a.len() implies a[i] == b[i] by {
                if i > 0 {
                    assert(a.drop_first()[i - 1] == b.drop_first()[i - 1]);
                }
            }
            assert(a =~= b);
        }
        if a == b {
            assert(a.drop_first() =~= b.drop_first());
        }
    }
}

/// Lexicographic comparison of two string slices, character by character.
pub fn str_cmp(a: &str, b: &str) -> (r: core::cmp::Ordering)
    ensures
        r == seq_char_cmp(a@, b@),
{
    let alen = a.unicode_len();
    let blen = b.unicode_len();
    let n = if alen < blen {
        alen
    } else {
        blen
    };
    let mut i: usize = 0;
    while i < n
        invariant
            alen == a@.len(),
            blen == b@.len(),
            n == if alen < blen {
                alen
            } else {
                blen
            },
            i <= n,
            forall|j: int| 0 <= j < i ==> a@[j] == b@[j],
        decreases n - i,
    {
        let ca = a.get_char(i);
        let cb = b.get_char(i);
        if ca != cb {
            proof {
                lemma_seq_char_cmp_common_prefix(a@, b@, i as int);
                assert(a@.skip(i as int)[0] == a@[i as int]);
                assert(b@.skip(i as int)[0] == b@[i as int]);
            }
            if (ca as u32) < (cb as u32) {
                return core::cmp::Ordering::Less;
            } else {
                return core::cmp::Ordering::Greater;
            }
        }
        i += 1;
    }
    proof {
        lemma_seq_char_cmp_common_prefix(a@, b@, n as int);
    }
    if alen < blen {
        core::cmp::Ordering::Less
    } else if blen < alen {
        core::cmp::Ordering::Greater
    } else {
        core::cmp::Ordering::Equal
    }
}

/// One hexadecimal digit, upper case.
pub open spec fn hex_digit(d: nat) -> char {
    if d == 0 {
        '0'
    } else if d == 1 {
        '1'
    } else if d == 2 {
        '2'
    } else if d == 3 {
        '3'
    } else if d == 4 {
        '4'
    } else if d == 5 {
        '5'
    } else if d == 6 {
        '6'
    } else if d == 7 {
        '7'
    } else if d == 8 {
        '8'
    } else if d == 9 {
        '9'
    } else if d == 10 {
        'A'
    } else if d == 11 {
        'B'
    } else if d == 12 {
        'C'
    } else if d == 13 {
        'D'
    } else if d == 14 {
        'E'
    } else {
        'F'
    }
}

/// The hexadecimal digits of `n`, most significant first, upper case, with
/// no leading zeros.
pub open spec fn hex_digits(n: nat) -> Seq<char>
    decreases n,
{
    if n < 16 {
        seq![hex_digit(n)]
    } else {
        hex_digits(n / 16) + seq![hex_digit(n % 16)]
    }
}

/// Does escaping alter this character?  True for the border character, for
/// code points above 127, for the escaped control characters and for the
/// backslash.
pub open spec fn needs_escape(c: char, border: char) -> bool {
    ||| c == border
    ||| (c as u32) > 127
    ||| c == '\0'
    ||| c == '\t'
    ||| c == '\n'
    ||| c == '\r'
    ||| c == '\\'
}

/// What one character escapes to.  In precedence order: the border becomes
/// backslash plus border; code points above 127 and below 256 become `\xHH`;
/// code points from 256 up become `\u{H...}`; then the escaped control
/// characters and the backslash; anything else passes through unchanged.
pub open spec fn esc_char(c: char, border: char) -> Seq<char> {
    if c == border {
        seq!['\\', c]
    } else if (c as u32) > 127 && (c as u32) < 256 {
        seq!['\\', 'x'] + hex_digits(c as u32 as nat)
    } else if (c as u32) >= 256 {
        seq!['\\', 'u', '{'] + hex_digits(c as u32 as nat) + seq!['}']
    } else if c == '\0' {
        seq!['\\', '0']
    } else if c == '\t' {
        seq!['\\', 't']
    } else if c == '\n' {
        seq!['\\', 'n']
    } else if c == '\r' {
        seq!['\\', 'r']
    } else if c == '\\' {
        seq!['\\', '\\']
    } else {
        seq![c]
    }
}

/// A whole string escaped, character by character.
pub open spec fn esc_seq(s: Seq<char>, border: char) -> Seq<char>
    decreases s.len(),
{
    if s.len() == 0 {
        Seq::empty()
    } else {
        esc_seq(s.drop_last(), border) + esc_char(s.last(), border)
    }
}

/// Does escaping alter any character of `s`?
pub open spec fn esc_changed(s: Seq<char>, border: char) -> bool {
    exists|i: int| 0 <= i < s.len() && needs_escape(s[i], border)
}

/// The single upper-case hexadecimal digit `d` as a string slice.
fn hex_digit_str(d: u32) -> (r: &'static str)
    requires
        d < 16,
    ensures
        r@ == seq![hex_digit(d as nat)],
{
    let r: &'static str = if d == 0 {
        "0"
    } else if d == 1 {
        "1"
    } else if d == 2 {
        "2"
    } else if d == 3 {
        "3"
    } else if d == 4 {
        "4"
    } else if d == 5 {
        "5"
    } else if d == 6 {
        "6"
    } else if d == 7 {
        "7"
    } else if d == 8 {
        "8"
    } else if d == 9 {
        "9"
    } else if d == 10 {
        "A"
    } else if d == 11 {
        "B"
    } else if d == 12 {
        "C"
    } else if d == 13 {
        "D"
    } else if d == 14 {
        "E"
    } else {
        "F"
    };
    proof {
        reveal_strlit("0");
        reveal_strlit("1");
        reveal_strlit("2");
        reveal_strlit("3");
        reveal_strlit("4");
        reveal_strlit("5");
        reveal_strlit("6");
        reveal_strlit("7");
        reveal_strlit("8");
        reveal_strlit("9");
        reveal_strlit("A");
        reveal_strlit("B");
        reveal_strlit("C");
        reveal_strlit("D");
        reveal_strlit("E");
        reveal_strlit("F");
        assert(r@ =~= seq![hex_digit(d as nat)]);
    }
    r
}

/// Append the upper-case hexadecimal digits of `v` to `out`, most
/// significant first.
fn append_hex(out: &mut String, v: u32)
    ensures
        final(out)@ == old(out)@ + hex_digits(v as nat),
    decreases v,
{
    if v < 16 {
        out.append(hex_digit_str(v));
    } else {
        append_hex(out, v / 16);
        out.append(hex_digit_str(v % 16));
        proof {
            assert(final(out)@ =~= old(out)@ + hex_digits(v as nat));
        }
    }
}

/// One decimal digit.
pub open spec fn dec_digit(d: nat) -> char {
    if d == 0 {
        '0'
    } else if d == 1 {
        '1'
    } else if d == 2 {
        '2'
    } else if d == 3 {
        '3'
    } else if d == 4 {
        '4'
    } else if d == 5 {
        '5'
    } else if d == 6 {
        '6'
    } else if d == 7 {
        '7'
    } else if d == 8 {
        '8'
    } else {
        '9'
    }
}

/// The decimal digits of `n`, most significant first, with no leading
/// zeros.
pub open spec fn dec_digits(n: nat) -> Seq<char>
    decreases n,
{
    if n < 10 {
        seq![dec_digit(n)]
    } else {
        dec_digits(n / 10) + seq![dec_digit(n % 10)]
    }
}

/// The single decimal digit `d` as a string slice.
fn dec_digit_str(d: u32) -> (r: &'static str)
    requires
        d < 10,
    ensures
        r@ == seq![dec_digit(d as nat)],
{
    let r: &'static str = if d == 0 {
        "0"
    } else if d == 1 {
        "1"
    } else if d == 2 {
        "2"
    } else if d == 3 {
        "3"
    } else if d == 4 {
        "4"
    } else if d == 5 {
        "5"
    } else if d == 6 {
        "6"
    } else if d == 7 {
        "7"
    } else if d == 8 {
        "8"
    } else {
        "9"
    };
    proof {
        reveal_strlit("0");
        reveal_strlit("1");
        reveal_strlit("2");
        reveal_strlit("3");
        reveal_strlit("4");
        reveal_strlit("5");
        reveal_strlit("6");
        reveal_strlit("7");
        reveal_strlit("8");
        reveal_strlit("9");
        assert(r@ =~= seq![dec_digit(d as nat)]);
    }
    r
}

/// Append the decimal digits of `v` to `out`, most significant first.
pub fn append_dec(out: &mut String, v: u32)
    ensures
        final(out)@ == old(out)@ + dec_digits(v as nat),
    decreases v,
{
    if v < 10 {
        out.append(dec_digit_str(v));
    } else {
        append_dec(out, v / 10);
        out.append(dec_digit_str(v % 10));
        proof {
            assert(final(out)@ =~= old(out)@ + dec_digits(v as nat));
        }
    }
}

/// The rendering of a bare name: escaped against the backtick border and
/// wrapped in backticks only when escaping altered it.
pub open spec fn sym_text(value: Seq<char>) -> Seq<char> {
    if esc_changed(value, '`') {
        "`"@ + esc_seq(value, '`') + "`"@
    } else {
        esc_seq(value, '`')
    }
}

/// Escape `input` against the given border character, and report whether
/// any character was altered.
pub fn escape(input: &String, border: char) -> (r: (String, bool))
    ensures
        r.0@ == esc_seq(input@, border),
        r.1 == esc_changed(input@, border),
{
    let s = input.as_str();
    let len = s.unicode_len();
    let mut output = String::new();
    let mut fixed = false;
    let mut i: usize = 0;
    while i < len
        invariant
            s@ == input@,
            len == s@.len(),
            i <= len,
            output@ == esc_seq(input@.take(i as int), border),
            fixed == esc_changed(input@.take(i as int), border),
        decreases len - i,
    {
        proof {
            reveal_strlit("\\");
            reveal_strlit("\\x");
            reveal_strlit("\\u{");
            reveal_strlit("}");
            reveal_strlit("\\0");
            reveal_strlit("\\t");
            reveal_strlit("\\n");
            reveal_strlit("\\r");
            reveal_strlit("\\\\");
            assert(input@.take(i as int + 1).drop_last() =~= input@.take(i as int));
        }
        let c = s.get_char(i);
        if c == border {
            output.append("\\");
            let piece = s.substring_char(i, i + 1);
            proof {
                assert(piece@ =~= seq![c]);
            }
            output.append(piece);
            fixed = true;
        } else if (c as u32) > 127 {
            let v = c as u32;
            if v < 256 {
                output.append("\\x");
                append_hex(&mut output, v);
            } else {
                output.append("\\u{");
                append_hex(&mut output, v);
                output.append("}");
            }
            fixed = true;
        } else if c == '\0' {
            output.append("\\0");
            fixed = true;
        } else if c == '\t' {
            output.append("\\t");
            fixed = true;
        } else if c == '\n' {
            output.append("\\n");
            fixed = true;
        } else if c == '\r' {
            output.append("\\r");
            fixed = true;
        } else if c == '\\' {
            output.append("\\\\");
            fixed = true;
        } else {
            let piece = s.substring_char(i, i + 1);
            proof {
                assert(piece@ =~= seq![c]);
            }
            output.append(piece);
        }
        proof {
            assert(output@ =~= esc_seq(input@.take(i as int), border) + esc_char(c, border));
            if needs_escape(c, border) {
                assert(input@.take(i as int + 1)[i as int] == c);
            }
        }
        i += 1;
    }
    proof {
        assert(input@.take(len as int) =~= input@);
    }
    (output, fixed)
}

/// Escaping is the identity, and reports no alteration, on a string that
/// contains no border character, no character that is specially escaped,
/// and only code points below 128.
pub proof fn lemma_escape_identity(s: Seq<char>, border: char)
    requires
        forall|i: int| 0 <= i < s.len() ==> !needs_escape(s[i], border),
    ensures
        esc_seq(s, border) == s,
        !esc_changed(s, border),
    decreases s.len(),
{
    if s.len() == 0 {
        assert(esc_seq(s, border) =~= s);
    } else {
        lemma_escape_identity(s.drop_last(), border);
        assert(!needs_escape(s[s.len() - 1], border));
        assert(esc_seq(s, border) =~= s);
    }
}

} // verus!
