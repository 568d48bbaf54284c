//! Percent-encoding of query values.

use vstd::prelude::*;

verus! {

/// Whether `c` is a letter, a digit or one of `-`, `.`, `_`, `~`.
pub open spec fn is_unreserved(c: char) -> bool {
    ||| '0' <= c <= '9'
    ||| 'A' <= c <= 'Z'
    ||| 'a' <= c <= 'z'
    ||| c == '-'
    ||| c == '.'
    ||| c == '_'
    ||| c == '~'
}

/// Whether `s` holds unreserved characters alone.
pub open spec fn all_unreserved(s: Seq<char>) -> bool {
    forall|i: int| 0 <= i < s.len() ==> is_unreserved(#[trigger] s[i])
}

/// The upper-case hexadecimal digit `d`.
pub open spec fn upper_hex(d: int) -> char {
    if d < 10 {
        ('0' as int + d) as char
    } else {
        ('A' as int + d - 10) as char
    }
}

/// One byte of a percent-encoded text: itself where it is unreserved, else a
/// percent sign and two hexadecimal digits.
pub open spec fn encoded_byte(b: u8) -> Seq<char> {
    if is_unreserved(b as char) {
        seq![b as char]
    } else {
        seq!['%', upper_hex(b as int / 16), upper_hex(b as int % 16)]
    }
}

/// The percent-encoding of a byte string.
pub open spec fn percent_encoded(bytes: Seq<u8>) -> Seq<char>
    decreases bytes.len(),
{
    if bytes.len() == 0 {
        Seq::empty()
    } else {
        encoded_byte(bytes[0]) + percent_encoded(bytes.skip(1))
    }
}

/// The percent-encoding of a text, by its UTF-8 bytes.
pub open spec fn url_encoded(s: Seq<char>) -> Seq<char> {
    percent_encoded(vstd::utf8::encode_utf8(s))
}

/// Calls `urlencoding::encode`, which percent-encodes every byte of the text
/// but letters, digits and `-`, `.`, `_`, `~`, with upper-case digits.
#[verifier::external_body]
pub(crate) fn url_encode(s: &str) -> (r: String)
    ensures
        r@ == url_encoded(s@),
{
    urlencoding::encode(s).into_owned()
}

/// The value of a hexadecimal digit.
pub open spec fn hex_value(c: char) -> int {
    if '0' <= c <= '9' {
        c as int - '0' as int
    } else if 'A' <= c <= 'F' {
        c as int - 'A' as int + 10
    } else {
        c as int - 'a' as int + 10
    }
}

/// The bytes that a percent-encoded text stands for.
pub open spec fn percent_decoded(s: Seq<char>) -> Seq<u8>
    decreases s.len(),
{
    if s.len() == 0 {
        Seq::empty()
    } else if s[0] == '%' && s.len() >= 3 {
        seq![(hex_value(s[1]) * 16 + hex_value(s[2])) as u8] + percent_decoded(s.skip(3))
    } else {
        seq![s[0] as u8] + percent_decoded(s.skip(1))
    }
}

/// Decoding gives back the bytes that were encoded.
pub proof fn law_decoding_undoes_encoding(bytes: Seq<u8>)
    ensures
        percent_decoded(percent_encoded(bytes)) == bytes,
    decreases bytes.len(),
{
    if bytes.len() > 0 {
        let b = bytes[0];
        let rest = percent_encoded(bytes.skip(1));
        let whole = percent_encoded(bytes);
        law_decoding_undoes_encoding(bytes.skip(1));
        if is_unreserved(b as char) {
            assert(whole.skip(1) =~= rest);
            assert(whole[0] == b as char);
            assert(percent_decoded(whole) =~= seq![b] + bytes.skip(1));
        } else {
            assert(whole.skip(3) =~= rest);
            assert(whole[0] == '%');
            assert(whole[1] == upper_hex(b as int / 16));
            assert(whole[2] == upper_hex(b as int % 16));
            assert(percent_decoded(whole) =~= seq![b] + bytes.skip(1));
        }
        assert(seq![b] + bytes.skip(1) =~= bytes);
    }
}

/// An encoded value holds unreserved characters and percent signs alone, so it
/// can neither end the query parameter it stands in nor start another.
pub proof fn law_encoded_value_is_inert(bytes: Seq<u8>)
    ensures
        forall|i: int|
            0 <= i < percent_encoded(bytes).len() ==> is_unreserved(
                #[trigger] percent_encoded(bytes)[i],
            ) || percent_encoded(bytes)[i] == '%',
    decreases bytes.len(),
{
    if bytes.len() > 0 {
        let head = encoded_byte(bytes[0]);
        let rest = percent_encoded(bytes.skip(1));
        law_encoded_value_is_inert(bytes.skip(1));
        assert forall|i: int| 0 <= i < percent_encoded(bytes).len() implies is_unreserved(
            #[trigger] percent_encoded(bytes)[i],
        ) || percent_encoded(bytes)[i] == '%' by {
            if i < head.len() {
                assert(percent_encoded(bytes)[i] == head[i]);
            } else {
                assert(percent_encoded(bytes)[i] == rest[i - head.len()]);
            }
        }
    }
}

} // verus!
