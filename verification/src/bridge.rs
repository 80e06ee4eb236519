//! The string bridge: text to NUL-terminated buffers and back.

use vstd::prelude::*;
use vstd::utf8::*;
use vstd::string::*;

verus! {

/// The number of bytes that come before the first zero byte of `bytes`, or
/// the length of `bytes` where it holds no zero byte.
pub open spec fn nul_position(bytes: Seq<u8>) -> int
    decreases bytes.len(),
{
    if bytes.len() == 0 || bytes[0] == 0u8 {
        0
    } else {
        1 + nul_position(bytes.drop_first())
    }
}

/// What a reader of C strings sees in `buffer`: the bytes up to, and without,
/// the first zero byte.
pub open spec fn c_str_content(buffer: Seq<u8>) -> Seq<u8> {
    buffer.take(nul_position(buffer))
}

/// The buffer that carries `content` to native code: the content and one
/// terminating zero byte.
pub open spec fn with_nul(content: Seq<u8>) -> Seq<u8> {
    content.push(0u8)
}

/// The text that a native buffer decodes to. Bytes that are not UTF-8 decode
/// to the empty text: one corrupt field never fails a whole call.
pub open spec fn decode_native(buffer: Seq<u8>) -> Seq<char> {
    let content = c_str_content(buffer);
    if valid_utf8(content) {
        decode_utf8(content)
    } else {
        Seq::<char>::empty()
    }
}

/// `nul_position` is the least index that holds a zero byte.
pub proof fn lemma_nul_position(bytes: Seq<u8>)
    ensures
        0 <= nul_position(bytes) <= bytes.len(),
        forall|j: int| 0 <= j < nul_position(bytes) ==> bytes[j] != 0u8,
        nul_position(bytes) < bytes.len() ==> bytes[nul_position(bytes)] == 0u8,
        bytes.contains(0u8) <==> nul_position(bytes) < bytes.len(),
    decreases bytes.len(),
{
    if bytes.len() == 0 || bytes[0] == 0u8 {
        if bytes.len() > 0 {
            assert(bytes.contains(0u8));
        }
    } else {
        let rest = bytes.drop_first();
        lemma_nul_position(rest);
        let p = nul_position(rest);
        assert forall|j: int| 0 <= j < 1 + p implies bytes[j] != 0u8 by {
            if j > 0 {
                assert(bytes[j] == rest[j - 1]);
            }
        }
        if p < rest.len() {
            assert(bytes[1 + p] == rest[p]);
            assert(bytes.contains(0u8));
        } else {
            assert(!bytes.contains(0u8));
        }
    }
}

/// Any index that holds the first zero byte is `nul_position`.
pub proof fn lemma_nul_position_unique(bytes: Seq<u8>, i: int)
    requires
        0 <= i <= bytes.len(),
        forall|j: int| 0 <= j < i ==> bytes[j] != 0u8,
        i < bytes.len() ==> bytes[i] == 0u8,
    ensures
        nul_position(bytes) == i,
{
    lemma_nul_position(bytes);
    let p = nul_position(bytes);
    if p < i {
        assert(bytes[p] == 0u8);
    } else if i < p {
        assert(bytes[i] == 0u8);
    }
}

/// The bytes of a character that is not U+0000 are all non-zero, and U+0000
/// is the single byte zero.
proof fn lemma_single_byte_nul(c: u32)
    by (bit_vector)
    requires
        has_width_1_encoding(c),
    ensures
        leading_byte_width_1(c) == 0u8 <==> c == 0u32,
{
}

proof fn lemma_multi_byte_not_nul(c: u32)
    by (bit_vector)
    ensures
        leading_byte_width_2(c) != 0u8,
        leading_byte_width_3(c) != 0u8,
        leading_byte_width_4(c) != 0u8,
        last_continuation_byte(c) != 0u8,
        second_last_continuation_byte(c) != 0u8,
        third_last_continuation_byte(c) != 0u8,
{
}

proof fn lemma_encode_scalar_nul(c: char)
    ensures
        encode_scalar(c as u32).contains(0u8) <==> c == '\0',
        encode_scalar(c as u32).len() > 0,
{
    let v = c as u32;
    let e = encode_scalar(v);
    char_is_scalar(c);
    lemma_multi_byte_not_nul(v);
    if has_width_1_encoding(v) {
        lemma_single_byte_nul(v);
        if v == 0u32 {
            assert(e[0] == 0u8);
            char_u32_cast(c, v);
            char_u32_cast('\0', 0u32);
        } else {
            assert(c != '\0');
        }
    } else {
        assert(c != '\0');
    }
}

/// A text holds the character U+0000 exactly when its UTF-8 encoding holds a
/// zero byte.
pub proof fn lemma_encoding_holds_nul(text: Seq<char>)
    ensures
        encode_utf8(text).contains(0u8) <==> text.contains('\0'),
    decreases text.len(),
{
    if text.len() == 0 {
    } else {
        let head = encode_scalar(text[0] as u32);
        let tail = encode_utf8(text.drop_first());
        lemma_encode_scalar_nul(text[0]);
        lemma_encoding_holds_nul(text.drop_first());
        if text.contains('\0') {
            let i = choose|i: int| 0 <= i < text.len() && text[i] == '\0';
            if i == 0 {
                let k = choose|k: int| 0 <= k < head.len() && head[k] == 0u8;
                assert((head + tail)[k] == 0u8);
            } else {
                assert(text.drop_first()[i - 1] == '\0');
                let k = choose|k: int| 0 <= k < tail.len() && tail[k] == 0u8;
                assert((head + tail)[head.len() + k] == 0u8);
            }
        }
        if (head + tail).contains(0u8) {
            let k = choose|k: int| 0 <= k < (head + tail).len() && (head + tail)[k] == 0u8;
            if k < head.len() {
                assert(head[k] == 0u8);
                assert(text[0] == '\0');
            } else {
                assert(tail[k - head.len()] == 0u8);
                let i = choose|i: int|
                    0 <= i < text.drop_first().len() && text.drop_first()[i] == '\0';
                assert(text[i + 1] == '\0');
            }
        }
    }
}

/// Reading back a buffer made of `content` and its terminator gives
/// `content`, where `content` holds no zero byte.
pub proof fn lemma_content_of_with_nul(content: Seq<u8>)
    requires
        !content.contains(0u8),
    ensures
        c_str_content(with_nul(content)) == content,
{
    let buffer = with_nul(content);
    assert forall|j: int| 0 <= j < content.len() implies buffer[j] != 0u8 by {
        assert(content.contains(content[j]));
    }
    lemma_nul_position_unique(buffer, content.len() as int);
    assert(buffer.take(content.len() as int) =~= content);
}

/// Text without the character U+0000 survives the trip to native code and
/// back: decoding the buffer made for it gives the text again, and so
/// converting the decoded text once more gives the same buffer.
pub proof fn lemma_round_trip(text: Seq<char>)
    requires
        !text.contains('\0'),
    ensures
        decode_native(with_nul(encode_utf8(text))) == text,
        with_nul(encode_utf8(decode_native(with_nul(encode_utf8(text))))) == with_nul(
            encode_utf8(text),
        ),
{
    lemma_encoding_holds_nul(text);
    lemma_content_of_with_nul(encode_utf8(text));
    encode_utf8_valid_utf8(text);
    encode_utf8_decode_utf8(text);
}

/// Why a text could not be converted: it holds a zero byte, which would end
/// the native string early.
#[derive(Clone, Copy, Debug, PartialEq, Eq)]
pub struct NulError {
    /// The index of the first zero byte in the text's UTF-8 encoding.
    pub position: usize,
}

/// A NUL-terminated byte buffer, owned on this side of the boundary for as
/// long as native code reads it.
#[derive(Debug, PartialEq, Eq)]
pub struct NativeString {
    bytes: Vec<u8>,
}

impl View for NativeString {
    type V = Seq<u8>;

    /// The content: the buffer without its terminator.
    closed spec fn view(&self) -> Seq<u8> {
        self.bytes@.drop_last()
    }
}

impl NativeString {
    /// The buffer ends with its only zero byte.
    #[verifier::type_invariant]
    pub closed spec fn well_formed(&self) -> bool {
        &&& self.bytes@.len() > 0
        &&& self.bytes@ == with_nul(self@)
        &&& !self@.contains(0u8)
    }

    /// The whole buffer, terminator included.
    pub closed spec fn buffer(&self) -> Seq<u8> {
        self.bytes@
    }

    /// The buffer as native code must see it: the content, then one zero byte.
    pub fn as_bytes_with_nul(&self) -> (bytes: &[u8])
        ensures
            bytes@ == with_nul(self@),
            bytes@ == self.buffer(),
            !self@.contains(0u8),
    {
        proof {
            use_type_invariant(self);
        }
        self.bytes.as_slice()
    }

    /// The number of content bytes.
    pub fn len(&self) -> (n: usize)
        ensures
            n == self@.len(),
    {
        proof {
            use_type_invariant(self);
        }
        self.bytes.len() - 1
    }
}

/// Converts `text` to a NUL-terminated buffer. Fails exactly when the text
/// holds an embedded zero byte, and then tells where the first one is.
pub fn to_native(text: &str) -> (result: Result<NativeString, NulError>)
    ensures
        match result {
            Ok(buffer) => {
                &&& !text@.contains('\0')
                &&& buffer@ == encode_utf8(text@)
                &&& decode_native(buffer.buffer()) == text@
            },
            Err(e) => {
                &&& text@.contains('\0')
                &&& e.position == nul_position(encode_utf8(text@))
            },
        },
{
    let source = text.as_bytes();
    let n = source.len();
    let mut bytes: Vec<u8> = Vec::new();
    let mut i: usize = 0;
    while i < n
        invariant
            n == source@.len(),
            source@ == encode_utf8(text@),
            0 <= i <= n,
            bytes@ == source@.take(i as int),
            forall|j: int| 0 <= j < i ==> source@[j] != 0u8,
        decreases n - i,
    {
        let b = source[i];
        if b == 0 {
            proof {
                lemma_nul_position_unique(source@, i as int);
                assert(source@.contains(0u8));
                lemma_encoding_holds_nul(text@);
            }
            return Err(NulError { position: i });
        }
        bytes.push(b);
        i += 1;
        assert(bytes@ =~= source@.take(i as int));
    }
    proof {
        assert(source@.take(n as int) =~= source@);
        assert(!source@.contains(0u8));
        lemma_encoding_holds_nul(text@);
        lemma_round_trip(text@);
    }
    bytes.push(0u8);
    assert(bytes@.drop_last() =~= source@);
    Ok(NativeString { bytes })
}

/// Converts a text that is known to hold no zero byte.
pub(crate) fn to_native_clean(text: &str) -> (buffer: NativeString)
    requires
        !text@.contains('\0'),
    ensures
        buffer@ == encode_utf8(text@),
{
    match to_native(text) {
        Ok(buffer) => buffer,
        Err(_) => vstd::pervasive::unreached(),
    }
}

/// Calls `String::from_utf8`. Nothing is proved of it; what is claimed is
/// what the standard library documents: the call succeeds exactly when the
/// bytes are valid UTF-8, and the string it gives is made of those bytes.
#[verifier::external_body]
fn utf8_to_string(bytes: Vec<u8>) -> (text: Option<String>)
    ensures
        text is Some <==> valid_utf8(bytes@),
        text matches Some(s) ==> encode_utf8(s@) == bytes@,
{
    match String::from_utf8(bytes) {
        Ok(text) => Some(text),
        Err(_) => None,
    }
}

/// Decodes a native NUL-terminated buffer: the bytes before the first zero
/// byte, read as UTF-8; the empty text where they are not UTF-8.
pub fn from_native(buffer: &[u8]) -> (text: String)
    ensures
        text@ == decode_native(buffer@),
{
    let n = buffer.len();
    let mut content: Vec<u8> = Vec::new();
    let mut i: usize = 0;
    while i < n && buffer[i] != 0
        invariant
            n == buffer@.len(),
            0 <= i <= n,
            content@ == buffer@.take(i as int),
            forall|j: int| 0 <= j < i ==> buffer@[j] != 0u8,
        decreases n - i,
    {
        content.push(buffer[i]);
        i += 1;
        assert(content@ =~= buffer@.take(i as int));
    }
    proof {
        lemma_nul_position_unique(buffer@, i as int);
    }
    match utf8_to_string(content) {
        Some(text) => {
            proof {
                encode_utf8_decode_utf8(text@);
            }
            text
        },
        None => String::new(),
    }
}

/// Decodes a string field of a native record, which may be a null pointer:
/// a missing field reads as the empty text.
pub fn from_nullable(field: &Option<Vec<u8>>) -> (text: String)
    ensures
        text@ == decode_nullable(*field),
{
    match field {
        Some(buffer) => from_native(buffer.as_slice()),
        None => String::new(),
    }
}

/// The text of a string field that may be missing.
pub open spec fn decode_nullable(field: Option<Vec<u8>>) -> Seq<char> {
    match field {
        Some(buffer) => decode_native(buffer@),
        None => Seq::<char>::empty(),
    }
}

} // verus!
