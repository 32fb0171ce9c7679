//! Text building blocks for URL assembly: decimal rendering of integers,
//! boolean literals, and the `application/x-www-form-urlencoded` encoding
//! that query keys and values go through.
//!
//! The encoding is the classic form encoding of a UTF-8 byte sequence: bytes
//! for ASCII alphanumerics and `*`, `-`, `.`, `_` stand for themselves, a
//! space becomes `+`, and every other byte becomes `%` followed by two
//! uppercase hexadecimal digits.

use vstd::prelude::*;
use vstd::string::*;
use vstd::utf8::encode_utf8;
use vstd::utf8::is_ascii_chars;
use vstd::utf8::is_ascii_chars_encode_utf8;

verus! {

/// Relies on `String::push`, which appends the given character to the end of
/// the string.
#[verifier::external_body]
pub(crate) fn push_char(s: &mut String, c: char)
    ensures
        final(s)@ == old(s)@.push(c),
{
    s.push(c);
}

/// The character for one decimal digit.
pub open spec fn digit_char(d: int) -> char {
    ((48 + d) as u8) as char
}

/// The decimal digits of a non-negative integer, most significant first.
pub open spec fn dec_of_nat(n: nat) -> Seq<char>
    decreases n,
{
    if n < 10 {
        seq![digit_char(n as int)]
    } else {
        dec_of_nat(n / 10).push(digit_char((n % 10) as int))
    }
}

/// The decimal rendering of a signed integer, as `to_string` produces it.
pub open spec fn dec_of_i64(n: int) -> Seq<char> {
    if n < 0 {
        seq!['-'] + dec_of_nat((-n) as nat)
    } else {
        dec_of_nat(n as nat)
    }
}

fn digit_exec(d: u8) -> (c: char)
    requires
        d < 10,
    ensures
        c == digit_char(d as int),
{
    (48 + d) as char
}

fn dec_u64(n: u64) -> (s: String)
    ensures
        s@ == dec_of_nat(n as nat),
    decreases n,
{
    if n < 10 {
        let mut s = String::new();
        push_char(&mut s, digit_exec(n as u8));
        proof {
            assert(s@ =~= seq![digit_char(n as int)]);
        }
        s
    } else {
        let mut s = dec_u64(n / 10);
        push_char(&mut s, digit_exec((n % 10) as u8));
        s
    }
}

/// The decimal rendering of a signed integer, matching `i64::to_string`.
pub fn dec_i64(n: i64) -> (s: String)
    ensures
        s@ == dec_of_i64(n as int),
{
    if n >= 0 {
        dec_u64(n as u64)
    } else {
        let m: u64 = (-(n as i128)) as u64;
        let mut s = String::new();
        push_char(&mut s, '-');
        let digits = dec_u64(m);
        s.append(digits.as_str());
        proof {
            assert(s@ =~= seq!['-'] + dec_of_nat(m as nat));
        }
        s
    }
}

/// The rendering of a boolean, matching `bool::to_string`.
pub open spec fn bool_chars(b: bool) -> Seq<char> {
    if b {
        "true"@
    } else {
        "false"@
    }
}

/// The `true` or `false` literal for a boolean.
pub fn bool_str(b: bool) -> (s: &'static str)
    ensures
        s@ == bool_chars(b),
{
    if b {
        "true"
    } else {
        "false"
    }
}

/// A byte that form encoding passes through unchanged: an ASCII
/// alphanumeric, or one of `*`, `-`, `.`, `_`.
pub open spec fn is_plain_byte(b: u8) -> bool {
    (48 <= b && b <= 57) || (65 <= b && b <= 90) || (97 <= b && b <= 122) || b == 42 || b == 45
        || b == 46 || b == 95
}

/// The character for one hexadecimal digit, uppercase.
pub open spec fn hex_char(d: int) -> char {
    if d < 10 {
        ((48 + d) as u8) as char
    } else {
        ((55 + d) as u8) as char
    }
}

/// What one byte contributes to the form-encoded output.
pub open spec fn encoded_byte(b: u8) -> Seq<char> {
    if b == 32 {
        seq!['+']
    } else if is_plain_byte(b) {
        seq![b as char]
    } else {
        seq!['%', hex_char(b as int / 16), hex_char(b as int % 16)]
    }
}

/// The form encoding of a byte sequence.
pub open spec fn form_encoded_bytes(bs: Seq<u8>) -> Seq<char>
    decreases bs.len(),
{
    if bs.len() == 0 {
        Seq::empty()
    } else {
        encoded_byte(bs[0]) + form_encoded_bytes(bs.drop_first())
    }
}

/// The form encoding of a character sequence: its UTF-8 bytes, encoded.
pub open spec fn form_encoded(s: Seq<char>) -> Seq<char> {
    form_encoded_bytes(encode_utf8(s))
}

fn hex_exec(d: u8) -> (c: char)
    requires
        d < 16,
    ensures
        c == hex_char(d as int),
{
    if d < 10 {
        (48 + d) as char
    } else {
        (55 + d) as char
    }
}

fn append_encoded_byte(out: &mut String, b: u8)
    ensures
        final(out)@ == old(out)@ + encoded_byte(b),
{
    if b == 32 {
        push_char(out, '+');
        proof {
            assert(out@ =~= old(out)@ + encoded_byte(b));
        }
    } else if (48 <= b && b <= 57) || (65 <= b && b <= 90) || (97 <= b && b <= 122) || b == 42
        || b == 45 || b == 46 || b == 95 {
        push_char(out, b as char);
        proof {
            assert(out@ =~= old(out)@ + encoded_byte(b));
        }
    } else {
        push_char(out, '%');
        push_char(out, hex_exec(b / 16));
        push_char(out, hex_exec(b % 16));
        proof {
            assert(out@ =~= old(out)@ + encoded_byte(b));
        }
    }
}

proof fn lemma_encoded_bytes_snoc(bs: Seq<u8>, b: u8)
    ensures
        form_encoded_bytes(bs.push(b)) == form_encoded_bytes(bs) + encoded_byte(b),
    decreases bs.len(),
{
    if bs.len() == 0 {
        assert(bs.push(b).drop_first() =~= Seq::<u8>::empty());
        assert(bs.push(b)[0] == b);
        assert(form_encoded_bytes(Seq::<u8>::empty()) == Seq::<char>::empty());
        assert(form_encoded_bytes(bs.push(b)) == encoded_byte(b) + Seq::<char>::empty());
        assert(form_encoded_bytes(bs.push(b)) =~= form_encoded_bytes(bs) + encoded_byte(b));
    } else {
        assert(bs.push(b).drop_first() =~= bs.drop_first().push(b));
        assert(bs.push(b)[0] == bs[0]);
        lemma_encoded_bytes_snoc(bs.drop_first(), b);
        assert(form_encoded_bytes(bs.push(b)) == encoded_byte(bs[0]) + (form_encoded_bytes(
            bs.drop_first(),
        ) + encoded_byte(b)));
        assert(form_encoded_bytes(bs.push(b)) =~= form_encoded_bytes(bs) + encoded_byte(b));
    }
}

/// Appends the form encoding of `s` to `out`.
pub fn append_form_encoded(out: &mut String, s: &str)
    ensures
        final(out)@ == old(out)@ + form_encoded(s@),
{
    let bytes = s.as_bytes_vec();
    let ghost base = out@;
    let mut i: usize = 0;
    while i < bytes.len()
        invariant
            i <= bytes@.len(),
            bytes@ == encode_utf8(s@),
            out@ == base + form_encoded_bytes(bytes@.take(i as int)),
        decreases bytes@.len() - i,
    {
        proof {
            assert(bytes@.take(i + 1) =~= bytes@.take(i as int).push(bytes@[i as int]));
            lemma_encoded_bytes_snoc(bytes@.take(i as int), bytes@[i as int]);
        }
        append_encoded_byte(out, bytes[i]);
        i = i + 1;
    }
    proof {
        assert(bytes@.take(bytes@.len() as int) =~= bytes@);
    }
}

/// A character that form encoding passes through unchanged.
pub open spec fn is_plain_char(c: char) -> bool {
    ('0' <= c && c <= '9') || ('A' <= c && c <= 'Z') || ('a' <= c && c <= 'z') || c == '*'
        || c == '-' || c == '.' || c == '_'
}

/// Whether every character of a sequence passes through form encoding
/// unchanged.
pub open spec fn is_plain_chars(s: Seq<char>) -> bool {
    forall|i: int| 0 <= i < s.len() ==> is_plain_char(#[trigger] s[i])
}

proof fn lemma_plain_bytes_identity(bs: Seq<u8>, s: Seq<char>)
    requires
        bs.len() == s.len(),
        forall|i: int| 0 <= i < s.len() ==> bs[i] == #[trigger] s[i] as u8,
        is_plain_chars(s),
    ensures
        form_encoded_bytes(bs) == s,
    decreases bs.len(),
{
    if bs.len() == 0 {
        assert(form_encoded_bytes(bs) =~= s);
    } else {
        assert(is_plain_char(s[0]));
        assert(is_plain_byte(bs[0]));
        assert(bs[0] as char == s[0]);
        lemma_plain_bytes_identity(bs.drop_first(), s.drop_first());
        assert(form_encoded_bytes(bs) =~= s);
    }
}

/// Form encoding leaves a sequence of plain characters unchanged.
pub proof fn lemma_plain_encoded_identity(s: Seq<char>)
    requires
        is_plain_chars(s),
    ensures
        form_encoded(s) == s,
{
    assert(is_ascii_chars(s));
    is_ascii_chars_encode_utf8(s);
    lemma_plain_bytes_identity(encode_utf8(s), s);
}

/// A decimal digit string consists of plain characters only.
pub proof fn lemma_dec_of_nat_plain(n: nat)
    ensures
        is_plain_chars(dec_of_nat(n)),
    decreases n,
{
    if n < 10 {
        assert(is_plain_char(digit_char(n as int)));
    } else {
        lemma_dec_of_nat_plain(n / 10);
        let prefix = dec_of_nat(n / 10);
        let whole = dec_of_nat(n);
        assert(is_plain_char(digit_char((n % 10) as int)));
        assert forall|i: int| 0 <= i < whole.len() implies is_plain_char(#[trigger] whole[i]) by {
            if i < prefix.len() {
                assert(whole[i] == prefix[i]);
            }
        }
    }
}

/// The decimal rendering of an integer consists of plain characters only.
pub proof fn lemma_dec_of_i64_plain(n: int)
    ensures
        is_plain_chars(dec_of_i64(n)),
{
    if n < 0 {
        lemma_dec_of_nat_plain((-n) as nat);
        let digits = dec_of_nat((-n) as nat);
        let whole = dec_of_i64(n);
        assert(is_plain_char('-'));
        assert forall|i: int| 0 <= i < whole.len() implies is_plain_char(#[trigger] whole[i]) by {
            if i >= 1 {
                assert(whole[i] == digits[i - 1]);
            }
        }
    } else {
        lemma_dec_of_nat_plain(n as nat);
    }
}

/// The `true` and `false` literals consist of plain characters only.
pub proof fn lemma_bool_chars_plain(b: bool)
    ensures
        is_plain_chars(bool_chars(b)),
{
    reveal_strlit("true");
    reveal_strlit("false");
    let s = bool_chars(b);
    assert forall|i: int| 0 <= i < s.len() implies is_plain_char(#[trigger] s[i]) by {
        if b {
            if i == 0 {
            } else if i == 1 {
            } else if i == 2 {
            } else {
                assert(i == 3);
            }
        } else {
            if i == 0 {
            } else if i == 1 {
            } else if i == 2 {
            } else if i == 3 {
            } else {
                assert(i == 4);
            }
        }
    }
}

} // verus!
