//! Base64 texts, in the URL-safe alphabet without padding and in the standard
//! alphabet with it.

use vstd::prelude::*;

verus! {

/// The symbol of a six-bit value. The alphabets differ in the last two.
pub open spec fn symbol(v: int, url_safe: bool) -> char {
    if v < 26 {
        ('A' as int + v) as char
    } else if v < 52 {
        ('a' as int + v - 26) as char
    } else if v < 62 {
        ('0' as int + v - 52) as char
    } else if v == 62 {
        if url_safe {
            '-'
        } else {
            '+'
        }
    } else {
        if url_safe {
            '_'
        } else {
            '/'
        }
    }
}

/// The base64 text of these bytes: four symbols for three bytes, two or three for
/// what is left, and padding to four where the alphabet is the standard one.
pub open spec fn base64_text(bytes: Seq<u8>, url_safe: bool) -> Seq<char>
    decreases bytes.len(),
{
    if bytes.len() == 0 {
        Seq::empty()
    } else {
        let a = bytes[0] as int;
        let first = symbol(a / 4, url_safe);
        if bytes.len() == 1 {
            seq![first, symbol(a % 4 * 16, url_safe)] + padding(2, url_safe)
        } else {
            let b = bytes[1] as int;
            let second = symbol(a % 4 * 16 + b / 16, url_safe);
            if bytes.len() == 2 {
                seq![first, second, symbol(b % 16 * 4, url_safe)] + padding(1, url_safe)
            } else {
                let c = bytes[2] as int;
                let third = symbol(b % 16 * 4 + c / 64, url_safe);
                seq![first, second, third, symbol(c % 64, url_safe)] + base64_text(
                    bytes.skip(3),
                    url_safe,
                )
            }
        }
    }
}

/// `n` padding characters, where the alphabet is padded.
pub open spec fn padding(n: nat, url_safe: bool) -> Seq<char> {
    if url_safe {
        Seq::empty()
    } else {
        Seq::new(n, |i: int| '=')
    }
}

/// Characters of the URL-safe, unpadded base64 text of `n` bytes.
pub open spec fn url_len(n: nat) -> nat {
    (n * 4 + 2) / 3
}

/// Characters of the standard, padded base64 text of `n` bytes.
pub open spec fn standard_len(n: nat) -> nat {
    ((n + 2) / 3) * 4
}

/// Calls `base64::Engine::encode` on the `URL_SAFE_NO_PAD` engine: the base64
/// text of the bytes in the URL-safe alphabet, without padding. The encoded
/// length has to fit in memory.
#[verifier::external_body]
pub(crate) fn base64_url(bytes: &[u8]) -> (r: String)
    requires
        url_len(bytes@.len()) <= isize::MAX,
    ensures
        r@ == base64_text(bytes@, true),
{
    base64::Engine::encode(&base64::engine::general_purpose::URL_SAFE_NO_PAD, bytes)
}

/// Calls `base64::Engine::encode` on the `STANDARD` engine: the base64 text of
/// the bytes in the standard alphabet, padded. The encoded length has to fit in
/// memory.
#[verifier::external_body]
pub(crate) fn base64_standard(bytes: &[u8]) -> (r: String)
    requires
        standard_len(bytes@.len()) <= isize::MAX,
    ensures
        r@ == base64_text(bytes@, false),
{
    base64::Engine::encode(&base64::engine::general_purpose::STANDARD, bytes)
}

/// Whether `c` belongs to the URL-safe base64 alphabet.
pub open spec fn is_url_symbol(c: char) -> bool {
    ||| 'A' <= c <= 'Z'
    ||| 'a' <= c <= 'z'
    ||| '0' <= c <= '9'
    ||| c == '-'
    ||| c == '_'
}

/// Whether `s` is written in the URL-safe base64 alphabet.
pub open spec fn is_url_text(s: Seq<char>) -> bool {
    forall|i: int| 0 <= i < s.len() ==> is_url_symbol(#[trigger] s[i])
}

/// A base64 text has the length that its alphabet calls for, and a URL-safe one
/// holds that alphabet's symbols alone.
pub proof fn law_base64_form(bytes: Seq<u8>)
    ensures
        base64_text(bytes, true).len() == url_len(bytes.len()),
        base64_text(bytes, false).len() == standard_len(bytes.len()),
        is_url_text(base64_text(bytes, true)),
    decreases bytes.len(),
{
    let whole = base64_text(bytes, true);
    if bytes.len() >= 3 {
        let rest = base64_text(bytes.skip(3), true);
        law_base64_form(bytes.skip(3));
        assert forall|i: int| 0 <= i < whole.len() implies is_url_symbol(#[trigger] whole[i]) by {
            if i >= 4 {
                assert(whole[i] == rest[i - 4]);
            }
        }
    }
}

/// Different bytes have different base64 texts.
pub proof fn law_base64_tells_bytes_apart(x: Seq<u8>, y: Seq<u8>, url_safe: bool)
    requires
        x.len() == y.len(),
        base64_text(x, url_safe) == base64_text(y, url_safe),
    ensures
        x == y,
    decreases x.len(),
{
    let s = base64_text(x, url_safe);
    let t = base64_text(y, url_safe);
    if x.len() > 0 {
        assert(s[0] == t[0] && s[1] == t[1]);
        lemma_symbols_differ(x[0] as int / 4, y[0] as int / 4, url_safe);
        if x.len() == 1 {
            lemma_symbols_differ(x[0] as int % 4 * 16, y[0] as int % 4 * 16, url_safe);
        } else {
            lemma_symbols_differ(
                x[0] as int % 4 * 16 + x[1] as int / 16,
                y[0] as int % 4 * 16 + y[1] as int / 16,
                url_safe,
            );
            assert(s[2] == t[2]);
            if x.len() == 2 {
                lemma_symbols_differ(x[1] as int % 16 * 4, y[1] as int % 16 * 4, url_safe);
            } else {
                lemma_symbols_differ(
                    x[1] as int % 16 * 4 + x[2] as int / 64,
                    y[1] as int % 16 * 4 + y[2] as int / 64,
                    url_safe,
                );
                assert(s[3] == t[3]);
                lemma_symbols_differ(x[2] as int % 64, y[2] as int % 64, url_safe);
                assert(s.skip(4) =~= base64_text(x.skip(3), url_safe));
                assert(t.skip(4) =~= base64_text(y.skip(3), url_safe));
                law_base64_tells_bytes_apart(x.skip(3), y.skip(3), url_safe);
                assert forall|i: int| 0 <= i < x.len() implies x[i] == y[i] by {
                    if i >= 3 {
                        assert(x.skip(3)[i - 3] == y.skip(3)[i - 3]);
                    }
                }
            }
        }
        assert(x =~= y);
    } else {
        assert(x =~= y);
    }
}

proof fn lemma_symbols_differ(v: int, w: int, url_safe: bool)
    requires
        0 <= v < 64,
        0 <= w < 64,
    ensures
        symbol(v, url_safe) == symbol(w, url_safe) ==> v == w,
{
}

} // verus!
