use vstd::prelude::*;
use vstd::utf8::*;

use crate::error::Error;
use crate::error::ErrorKind;

verus! {

/// The fixed size, in bytes, of the buffer the native resolver writes a
/// nul-terminated symbolic name into.
pub const MAX_NAME_LEN: usize = 1024;

/// The index of the first nul byte, or the sequence's length when none
/// occurs.
pub open spec fn first_nul(bytes: Seq<u8>) -> int
    decreases bytes.len(),
{
    if bytes.len() == 0 {
        0
    } else if bytes[0] == 0 {
        0
    } else {
        1 + first_nul(bytes.drop_first())
    }
}

/// The part of a native buffer that carries the name: everything before the
/// first nul byte, or the whole buffer when no terminator occurs.
pub open spec fn name_prefix(bytes: Seq<u8>) -> Seq<u8> {
    bytes.take(first_nul(bytes))
}

/// A position that has only non-nul bytes before it and a nul byte (or the
/// end) at it is where the first nul stands.
proof fn lemma_first_nul_at(bytes: Seq<u8>, i: int)
    requires
        0 <= i <= bytes.len(),
        forall|j: int| 0 <= j < i ==> bytes[j] != 0,
        i < bytes.len() ==> bytes[i] == 0,
    ensures
        first_nul(bytes) == i,
    decreases i,
{
    if i > 0 {
        lemma_first_nul_at(bytes.drop_first(), i - 1);
    }
}

/// What `String::from_utf8_lossy` returns for the given bytes.  The
/// replacement of ill-formed sequences takes pages to state, but the result
/// depends on the bytes alone.
pub uninterp spec fn lossy_of(bytes: Seq<u8>) -> Seq<char>;

/// Relies on `String::from_utf8_lossy` (std): the result depends on the
/// bytes alone, and bytes that are valid UTF-8 decode to exactly their
/// character sequence, unchanged.
#[verifier::external_body]
fn utf8_lossy(bytes: &Vec<u8>) -> (r: String)
    ensures
        r@ == lossy_of(bytes@),
        valid_utf8(bytes@) ==> r@ == decode_utf8(bytes@),
{
    String::from_utf8_lossy(bytes.as_slice()).into_owned()
}

/// Decodes the name the native resolver left in a fixed-size buffer: the
/// bytes before the first nul (or the whole buffer when no terminator
/// occurs), with every ill-formed sequence replaced rather than reported.
/// This never fails, whatever the buffer holds.
pub fn decode_name(buf: &Vec<u8>) -> (r: String)
    ensures
        r@ == lossy_of(name_prefix(buf@)),
        valid_utf8(name_prefix(buf@)) ==> r@ == decode_utf8(name_prefix(buf@)),
{
    let mut end: usize = 0;
    while end < buf.len() && buf[end] != 0
        invariant
            end <= buf@.len(),
            forall|j: int| 0 <= j < end ==> buf@[j] != 0,
        decreases buf@.len() - end,
    {
        end += 1;
    }
    proof {
        lemma_first_nul_at(buf@, end as int);
    }
    let mut prefix: Vec<u8> = Vec::new();
    let mut i: usize = 0;
    while i < end
        invariant
            end <= buf@.len(),
            i <= end,
            prefix@ == buf@.take(i as int),
        decreases end - i,
    {
        prefix.push(buf[i]);
        proof {
            assert(prefix@ =~= buf@.take(i + 1));
        }
        i += 1;
    }
    utf8_lossy(&prefix)
}

/// The one-byte encoding of a nul is the only place a nul byte occurs in the
/// encoding of a scalar.
proof fn lemma_encode_scalar_nul(c: u32)
    requires
        is_scalar(c),
    ensures
        encode_scalar(c).contains(0) <==> c == 0,
{
    let s = encode_scalar(c);
    if has_width_1_encoding(c) {
        assert(((c & 0x7F) as u8 == 0) <==> c == 0) by (bit_vector)
            requires
                c <= 0x7F,
        ;
        if c == 0 {
            assert(s[0] == 0);
        }
    } else if has_width_2_encoding(c) {
        assert(0xC0u8 | ((c >> 6) & 0x1F) as u8 != 0) by (bit_vector);
        assert(0x80u8 | (c & 0x3F) as u8 != 0) by (bit_vector);
    } else if has_width_3_encoding(c) {
        assert(0xE0u8 | ((c >> 12) & 0x0F) as u8 != 0) by (bit_vector);
        assert(0x80u8 | ((c >> 6) & 0x3F) as u8 != 0) by (bit_vector);
        assert(0x80u8 | (c & 0x3F) as u8 != 0) by (bit_vector);
    } else {
        assert(0xF0u8 | ((c >> 18) & 0x7) as u8 != 0) by (bit_vector);
        assert(0x80u8 | ((c >> 12) & 0x3F) as u8 != 0) by (bit_vector);
        assert(0x80u8 | ((c >> 6) & 0x3F) as u8 != 0) by (bit_vector);
        assert(0x80u8 | (c & 0x3F) as u8 != 0) by (bit_vector);
    }
}

/// Law: the UTF-8 form of a character sequence holds a nul byte exactly when
/// the sequence holds a nul character.  This is what lets a byte-level scan
/// stand for the character-level rule that rejects embedded nuls.
pub proof fn lemma_utf8_nul(chars: Seq<char>)
    ensures
        encode_utf8(chars).contains(0) <==> chars.contains('\0'),
    decreases chars.len(),
{
    if chars.len() == 0 {
        assert(!chars.contains('\0'));
    } else {
        let first = encode_scalar(chars[0] as u32);
        let rest = encode_utf8(chars.drop_first());
        char_is_scalar(chars[0]);
        lemma_encode_scalar_nul(chars[0] as u32);
        lemma_utf8_nul(chars.drop_first());
        assert(encode_utf8(chars) == first + rest);
        lemma_contains_concat(first, rest);
        if chars[0] as u32 == 0 {
            char_u32_cast(chars[0], 0);
            assert('\0' as u32 == 0);
            char_u32_cast('\0', 0);
        }
        if chars.contains('\0') {
            let i = choose|i: int| 0 <= i < chars.len() && chars[i] == '\0';
            if i > 0 {
                assert(chars.drop_first()[i - 1] == '\0');
                assert(chars.drop_first().contains('\0'));
            }
        }
        if chars.drop_first().contains('\0') {
            let i = choose|i: int|
                0 <= i < chars.drop_first().len() && chars.drop_first()[i] == '\0';
            assert(chars[i + 1] == '\0');
        }
    }
}

/// A concatenation holds a nul byte exactly when one of its parts does.
proof fn lemma_contains_concat(s1: Seq<u8>, s2: Seq<u8>)
    ensures
        (s1 + s2).contains(0) <==> s1.contains(0) || s2.contains(0),
{
    let s = s1 + s2;
    if s.contains(0) {
        let i = choose|i: int| 0 <= i < s.len() && s[i] == 0;
        if i < s1.len() {
            assert(s1[i] == 0);
        } else {
            assert(s2[i - s1.len()] == 0);
        }
    }
    if s1.contains(0) {
        let i = choose|i: int| 0 <= i < s1.len() && s1[i] == 0;
        assert(s[i] == 0);
    }
    if s2.contains(0) {
        let i = choose|i: int| 0 <= i < s2.len() && s2[i] == 0;
        assert(s[s1.len() + i] == 0);
    }
}

/// Marshals text into the nul-terminated byte form the native resolver
/// takes.  Text holding a nul character cannot be represented in that form
/// and is rejected; every other text — the empty one included — is encoded
/// as its UTF-8 bytes followed by the terminator.
pub fn encode_name(text: &str) -> (r: Result<Vec<u8>, Error>)
    ensures
        match r {
            Ok(buf) => {
                &&& !text@.contains('\0')
                &&& buf@ == encode_utf8(text@).push(0)
            },
            Err(e) => {
                &&& text@.contains('\0')
                &&& e.spec_kind() == ErrorKind::InvalidData
                &&& e.spec_message() == "string contains a nul byte"@
            },
        },
{
    proof {
        lemma_utf8_nul(text@);
    }
    let bytes = text.as_bytes();
    let mut buf: Vec<u8> = Vec::new();
    let mut i: usize = 0;
    while i < bytes.len()
        invariant
            bytes@ == encode_utf8(text@),
            i <= bytes@.len(),
            buf@ == bytes@.take(i as int),
            forall|j: int| 0 <= j < i ==> bytes@[j] != 0,
        decreases bytes@.len() - i,
    {
        if bytes[i] == 0 {
            proof {
                assert(bytes@[i as int] == 0);
                assert(bytes@.contains(0));
                lemma_utf8_nul(text@);
            }
            return Err(Error::invalid_data("string contains a nul byte"));
        }
        buf.push(bytes[i]);
        proof {
            assert(buf@ =~= bytes@.take(i + 1));
        }
        i += 1;
    }
    proof {
        assert(buf@ =~= encode_utf8(text@));
        if text@.contains('\0') {
            let k = choose|k: int| 0 <= k < bytes@.len() && bytes@[k] == 0;
            assert(bytes@[k] != 0);
        }
    }
    buf.push(0);
    Ok(buf)
}

/// Law: text free of nul characters survives the round trip through the
/// nul-terminated native form.  The encoded buffer's first nul is exactly
/// its terminator, the prefix before it is the text's UTF-8 form, and
/// decoding that prefix yields the text unchanged.
pub proof fn lemma_name_round_trip(text: Seq<char>)
    requires
        !text.contains('\0'),
    ensures
        first_nul(encode_utf8(text).push(0)) == encode_utf8(text).len(),
        name_prefix(encode_utf8(text).push(0)) == encode_utf8(text),
        valid_utf8(name_prefix(encode_utf8(text).push(0))),
        decode_utf8(name_prefix(encode_utf8(text).push(0))) == text,
{
    lemma_utf8_nul(text);
    let eb = encode_utf8(text);
    let buf = eb.push(0);
    assert forall|j: int| 0 <= j < eb.len() implies buf[j] != 0 by {
        if buf[j] == 0 {
            assert(eb[j] == 0);
            assert(eb.contains(0));
        }
    }
    lemma_first_nul_at(buf, eb.len() as int);
    assert(name_prefix(buf) =~= eb);
    encode_utf8_valid_utf8(text);
    encode_utf8_decode_utf8(text);
}

} // verus!
