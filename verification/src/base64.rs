//! Cover art as a `data:` URI: the standard base 64 alphabet, padded.

use crate::text;
use crate::text::{joined, strip_prefix};
use vstd::prelude::*;

verus! {

/// The digit for a number below 64.
pub open spec fn digit(d: int) -> char {
    if d < 26 {
        (0x41 + d) as char
    } else if d < 52 {
        (0x61 + (d - 26)) as char
    } else if d < 62 {
        (0x30 + (d - 52)) as char
    } else if d == 62 {
        '+'
    } else {
        '/'
    }
}

/// The number that a digit stands for; 64 for a character that is none.
pub open spec fn digit_value(c: char) -> int {
    if 'A' <= c <= 'Z' {
        c as int - 0x41
    } else if 'a' <= c <= 'z' {
        c as int - 0x61 + 26
    } else if '0' <= c <= '9' {
        c as int - 0x30 + 52
    } else if c == '+' {
        62
    } else if c == '/' {
        63
    } else {
        64
    }
}

/// The byte at an index, or zero past the end.
pub open spec fn byte_at(bytes: Seq<u8>, i: int) -> int {
    if i < bytes.len() {
        bytes[i] as int
    } else {
        0
    }
}

/// The group that the first three bytes make, as a number below 2^24. Missing bytes count as zero.
pub open spec fn group(bytes: Seq<u8>) -> int {
    byte_at(bytes, 0) * 65536 + byte_at(bytes, 1) * 256 + byte_at(bytes, 2)
}

/// The four characters of the first three bytes: a digit for every six bits that a byte reaches, and
/// padding.
pub open spec fn quad(bytes: Seq<u8>) -> Seq<char> {
    let n = group(bytes);
    seq![
        digit(n / 262144),
        digit(n / 4096 % 64),
        if bytes.len() > 1 {
            digit(n / 64 % 64)
        } else {
            '='
        },
        if bytes.len() > 2 {
            digit(n % 64)
        } else {
            '='
        },
    ]
}

/// Base 64 of bytes, three at a time.
pub open spec fn encoded(bytes: Seq<u8>) -> Seq<char>
    decreases bytes.len(),
{
    if bytes.len() == 0 {
        Seq::empty()
    } else if bytes.len() <= 3 {
        quad(bytes)
    } else {
        quad(bytes) + encoded(bytes.skip(3))
    }
}

/// The bytes that four characters stand for.
pub open spec fn quad_bytes(s: Seq<char>) -> Seq<u8> {
    let n = digit_value(s[0]) * 262144 + digit_value(s[1]) * 4096 + (if s[2] == '=' {
        0
    } else {
        digit_value(s[2]) * 64
    }) + (if s[3] == '=' {
        0
    } else {
        digit_value(s[3])
    });
    let b0 = (n / 65536) as u8;
    let b1 = (n / 256 % 256) as u8;
    let b2 = (n % 256) as u8;
    if s[2] == '=' {
        seq![b0]
    } else if s[3] == '=' {
        seq![b0, b1]
    } else {
        seq![b0, b1, b2]
    }
}

/// The bytes that a base 64 text stands for.
pub open spec fn decoded(s: Seq<char>) -> Seq<u8>
    decreases s.len(),
{
    if s.len() < 4 {
        Seq::empty()
    } else {
        quad_bytes(s.take(4)) + decoded(s.skip(4))
    }
}

/// The digit for a number below 64.
fn digit_char(d: u32) -> (r: char)
    requires
        d < 64,
    ensures
        r == digit(d as int),
{
    if d < 26 {
        (0x41 + d) as u8 as char
    } else if d < 52 {
        (0x61 + (d - 26)) as u8 as char
    } else if d < 62 {
        (0x30 + (d - 52)) as u8 as char
    } else if d == 62 {
        '+'
    } else {
        '/'
    }
}

/// Base 64 of bytes.
#[verifier::rlimit(40)]
pub fn base64_encode(bytes: &[u8]) -> (r: String)
    ensures
        r@ == encoded(bytes@),
{
    let mut out: String = String::new();
    let len: usize = bytes.len();
    let mut i: usize = 0;
    assert(bytes@.skip(0) =~= bytes@);
    while i < len
        invariant
            i <= len,
            len == bytes@.len(),
            encoded(bytes@) == out@ + encoded(bytes@.skip(i as int)),
        decreases len - i,
    {
        let ghost rest = bytes@.skip(i as int);
        let left: usize = len - i;
        let b0: u32 = bytes[i] as u32;
        let b1: u32 = if left > 1 {
            bytes[i + 1] as u32
        } else {
            0
        };
        let b2: u32 = if left > 2 {
            bytes[i + 2] as u32
        } else {
            0
        };
        let n: u32 = b0 * 65536 + b1 * 256 + b2;
        assert(n == group(rest));
        let ghost before = out@;
        out.push(digit_char(n / 262144));
        out.push(digit_char(n / 4096 % 64));
        out.push(
            if left > 1 {
                digit_char(n / 64 % 64)
            } else {
                '='
            },
        );
        out.push(
            if left > 2 {
                digit_char(n % 64)
            } else {
                '='
            },
        );
        assert(out@ =~= before + quad(rest));
        if left <= 3 {
            i = len;
            assert(bytes@.skip(i as int) =~= Seq::<u8>::empty());
            assert(out@ + encoded(bytes@.skip(i as int)) =~= out@);
        } else {
            assert(rest.skip(3) =~= bytes@.skip(i + 3));
            assert(before + (quad(rest) + encoded(rest.skip(3))) =~= out@ + encoded(rest.skip(3)));
            i += 3;
        }
    }
    assert(bytes@.skip(i as int) =~= Seq::<u8>::empty());
    assert(out@ + encoded(bytes@.skip(i as int)) =~= out@);
    out
}

/// The image format of a content type; `png` for one that names no image.
pub open spec fn image_format(content_type: Option<Seq<char>>) -> Seq<char> {
    match content_type {
        Some(t) if text::occurs_at(t, "image/"@, 0) => t.skip("image/"@.len() as int),
        _ => "png"@,
    }
}

/// Image bytes as a `data:` URI.
pub open spec fn data_uri(content_type: Option<Seq<char>>, bytes: Seq<u8>) -> Seq<char> {
    "data:image/"@ + image_format(content_type) + ";base64,"@ + encoded(bytes)
}

/// Image bytes as a `data:` URI, by the content type they were served with.
pub fn cover_uri(content_type: Option<&str>, bytes: &[u8]) -> (r: String)
    ensures
        r@ == "data:image/"@ + image_format(crate::protocol::str_of(content_type)) + ";base64,"@
            + encoded(bytes@),
        r@ == data_uri(crate::protocol::str_of(content_type), bytes@),
{
    let format = match content_type {
        Some(t) => match strip_prefix(t, "image/") {
            Some(format) => format,
            None => "png",
        },
        None => "png",
    };
    let head = joined("data:image/", format);
    let head = joined(head.as_str(), ";base64,");
    let body = base64_encode(bytes);
    joined(head.as_str(), body.as_str())
}

/// A digit is never padding, and stands for its number.
proof fn lemma_digit(d: int)
    requires
        0 <= d < 64,
    ensures
        digit_value(digit(d)) == d,
        digit(d) != '=',
{
}

/// A group of three bytes and its four digits determine each other; where the last bytes are zero,
/// so are the digits that only they reach.
proof fn lemma_group(b0: u32, b1: u32, b2: u32, n: u32)
    by (bit_vector)
    requires
        b0 < 256,
        b1 < 256,
        b2 < 256,
        n == b0 * 65536 + b1 * 256 + b2,
    ensures
        n < 16777216,
        n / 65536 == b0,
        n / 256 % 256 == b1,
        n % 256 == b2,
        n / 262144 < 64,
        n / 262144 * 262144 + n / 4096 % 64 * 4096 + n / 64 % 64 * 64 + n % 64 == n,
        b2 == 0 ==> n % 64 == 0,
        b1 == 0 && b2 == 0 ==> n / 64 % 64 == 0,
{
}

/// Four characters stand for the bytes they were made from.
proof fn lemma_quad(bytes: Seq<u8>)
    requires
        bytes.len() > 0,
    ensures
        quad_bytes(quad(bytes)) == bytes.take(
            if bytes.len() < 3 {
                bytes.len() as int
            } else {
                3
            },
        ),
{
    let n = group(bytes);
    lemma_group(
        byte_at(bytes, 0) as u32,
        byte_at(bytes, 1) as u32,
        byte_at(bytes, 2) as u32,
        n as u32,
    );
    lemma_digit(n / 262144);
    lemma_digit(n / 4096 % 64);
    lemma_digit(n / 64 % 64);
    lemma_digit(n % 64);
    let s = quad(bytes);
    if bytes.len() == 1 {
        assert(quad_bytes(s) =~= bytes.take(1));
    } else if bytes.len() == 2 {
        assert(quad_bytes(s) =~= bytes.take(2));
    } else {
        assert(quad_bytes(s) =~= bytes.take(3));
    }
}

/// Nothing is lost: the base 64 of bytes stands for just those bytes.
pub proof fn law_decodes(bytes: Seq<u8>)
    ensures
        decoded(encoded(bytes)) == bytes,
    decreases bytes.len(),
{
    if bytes.len() > 0 {
        let s = encoded(bytes);
        lemma_quad(bytes);
        assert(s.take(4) =~= quad(bytes));
        if bytes.len() <= 3 {
            assert(s.skip(4) =~= Seq::<char>::empty());
            assert(decoded(s.skip(4)) =~= Seq::<u8>::empty());
            assert(bytes.take(bytes.len() as int) =~= bytes);
            assert(decoded(s) =~= bytes);
        } else {
            law_decodes(bytes.skip(3));
            assert(s.skip(4) =~= encoded(bytes.skip(3)));
            assert(bytes.take(3) + bytes.skip(3) =~= bytes);
        }
    }
}

/// The form of base 64: four characters for every three bytes begun, each of the alphabet, but for
/// padding in the last two places.
pub proof fn law_form(bytes: Seq<u8>)
    ensures
        encoded(bytes).len() == 4 * ((bytes.len() + 2) / 3),
        forall|i: int|
            0 <= i < encoded(bytes).len() ==> digit_value(#[trigger] encoded(bytes)[i]) < 64 || (
            encoded(bytes)[i] == '=' && i >= encoded(bytes).len() - 2),
    decreases bytes.len(),
{
    if bytes.len() > 0 {
        let n = group(bytes);
        lemma_group(
            byte_at(bytes, 0) as u32,
            byte_at(bytes, 1) as u32,
            byte_at(bytes, 2) as u32,
            n as u32,
        );
        lemma_digit(n / 262144);
        lemma_digit(n / 4096 % 64);
        lemma_digit(n / 64 % 64);
        lemma_digit(n % 64);
        if bytes.len() > 3 {
            let rest = encoded(bytes.skip(3));
            law_form(bytes.skip(3));
            assert forall|i: int| 0 <= i < encoded(bytes).len() implies digit_value(
                #[trigger] encoded(bytes)[i],
            ) < 64 || (encoded(bytes)[i] == '=' && i >= encoded(bytes).len() - 2) by {
                if i >= 4 {
                    assert(encoded(bytes)[i] == rest[i - 4]);
                }
            }
        }
    }
}

/// Bytes can be encoded in pieces: split at a multiple of three, the texts of the pieces follow one
/// another.
pub proof fn law_splits(first: Seq<u8>, rest: Seq<u8>)
    requires
        first.len() % 3 == 0,
    ensures
        encoded(first + rest) == encoded(first) + encoded(rest),
    decreases first.len(),
{
    let all = first + rest;
    if first.len() == 0 {
        assert(all =~= rest);
        assert(encoded(first) + encoded(rest) =~= encoded(rest));
    } else {
        assert(quad(all) =~= quad(first));
        assert(all.skip(3) =~= first.skip(3) + rest);
        law_splits(first.skip(3), rest);
        if first.len() == 3 {
            assert(first.skip(3) =~= Seq::<u8>::empty());
            if rest.len() == 0 {
                assert(all =~= first);
                assert(encoded(first) + encoded(rest) =~= encoded(first));
            }
            assert(encoded(first.skip(3)) + encoded(rest) =~= encoded(rest));
        } else {
            assert(quad(first) + (encoded(first.skip(3)) + encoded(rest)) =~= (quad(first)
                + encoded(first.skip(3))) + encoded(rest));
        }
    }
}

/// The format is what follows `image/` in the content type, and `png` where it names no image.
pub proof fn law_image_format(rest: Seq<char>, content_type: Seq<char>)
    ensures
        image_format(Some("image/"@ + rest)) == rest,
        image_format(None) == "png"@,
        !"image/"@.is_prefix_of(content_type) ==> image_format(Some(content_type)) == "png"@,
{
    let t = "image/"@ + rest;
    assert(t.subrange(0, "image/"@.len() as int) =~= "image/"@);
    assert(t.skip("image/"@.len() as int) =~= rest);
}

/// The image is all there: the end of its URI stands for just the bytes, after the format it was
/// served in.
pub proof fn law_uri_holds_the_image(format: Seq<char>, bytes: Seq<u8>)
    ensures
        ({
            let head = "data:image/"@ + format + ";base64,"@;
            let uri = data_uri(Some("image/"@ + format), bytes);
            &&& head.is_prefix_of(uri)
            &&& decoded(uri.skip(head.len() as int)) == bytes
        }),
{
    law_image_format(format, format);
    law_decodes(bytes);
    let head = "data:image/"@ + format + ";base64,"@;
    let uri = data_uri(Some("image/"@ + format), bytes);
    assert(uri.subrange(0, head.len() as int) =~= head);
    assert(uri.skip(head.len() as int) =~= encoded(bytes));
}

} // verus!
