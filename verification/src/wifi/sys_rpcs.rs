//! Calls to the system service of the companion chip.

use vstd::prelude::*;
use vstd::utf8::encode_scalar;

verus! {

/// The number of bytes that a version text can hold.
pub const VERSION_CAPACITY: usize = 16;

/// Why a reply could not be read.
#[derive(Clone, Copy, Debug, PartialEq, Eq, Structural)]
pub enum RpcError {
    /// The reply ends before the value that is being read.
    Incomplete,
    /// The reply announces more than the caller has room for.
    ResponseOverrun,
}

/// The error of a `nom` parser, which says whether the parser needs more
/// input or has failed. Nothing is read of it here.
#[verifier::external_type_specification]
#[verifier::external_body]
#[verifier::reject_recursive_types(E)]
pub struct ExNomErr<E>(nom::Err<E>);

/// A text of at most [`VERSION_CAPACITY`] bytes, kept in a
/// `heapless::String` of that capacity.
#[verifier::external_body]
pub struct VersionText {
    text: heapless::String<heapless::consts::U16>,
}

/// The bytes of the text, in UTF-8.
pub uninterp spec fn text_bytes(text: VersionText) -> Seq<u8>;

/// The number that four bytes stand for, the lowest byte first.
pub open spec fn le_u32_value(b0: u8, b1: u8, b2: u8, b3: u8) -> int {
    b0 + b1 * 0x100 + b2 * 0x1_0000 + b3 * 0x100_0000
}

/// Calls `nom::number::streaming::le_u32` on `input`. The parser fails
/// where `input` has fewer than four bytes; otherwise it returns the rest of
/// `input` behind the first four bytes, and the number that those four bytes
/// stand for, the lowest byte first.
#[verifier::external_body]
fn le_u32(input: &[u8]) -> (r: Result<(&[u8], u32), nom::Err<()>>)
    ensures
        r.is_ok() == (input@.len() >= 4),
        r.is_ok() ==> r.unwrap().0@ == input@.skip(4) && r.unwrap().1 == le_u32_value(
            input@[0],
            input@[1],
            input@[2],
            input@[3],
        ),
{
    nom::number::streaming::le_u32::<&[u8], ()>(input)
}

impl VersionText {
    /// Calls `heapless::String::new`, which returns an empty string.
    #[verifier::external_body]
    fn new() -> (text: VersionText)
        ensures
            text_bytes(text) == Seq::<u8>::empty(),
    {
        VersionText { text: heapless::String::new() }
    }

    /// Calls `heapless::String::push` and returns whether it succeeded. The
    /// string takes the UTF-8 encoding of `c` at its end where that leaves
    /// it within its capacity; where not, it stays as it is and the call
    /// fails.
    #[verifier::external_body]
    fn push(&mut self, c: char) -> (pushed: bool)
        ensures
            pushed == (text_bytes(*old(self)).len() + encode_scalar(c as u32).len()
                <= VERSION_CAPACITY),
            text_bytes(*final(self)) == if pushed {
                text_bytes(*old(self)) + encode_scalar(c as u32)
            } else {
                text_bytes(*old(self))
            },
    {
        self.text.push(c).is_ok()
    }

    /// Calls `str::as_bytes` on what `heapless::String::as_str` returns,
    /// and copies the bytes.
    #[verifier::external_body]
    fn copy_bytes(&self) -> (bytes: Vec<u8>)
        ensures
            bytes@ == text_bytes(*self),
    {
        self.text.as_str().as_bytes().to_vec()
    }

    /// The bytes of the text, in UTF-8.
    pub fn as_bytes(&self) -> (bytes: Vec<u8>)
        ensures
            bytes@ == text_bytes(*self),
    {
        self.copy_bytes()
    }
}

/// The text that holds `bytes`, each taken as the character with that
/// number, as far as they fit: `text` with the encoding of every character
/// in turn that still leaves it within [`VERSION_CAPACITY`] bytes. A
/// character that does not fit is dropped, and those after it are still
/// tried.
pub open spec fn filled(text: Seq<u8>, bytes: Seq<u8>) -> Seq<u8>
    decreases bytes.len(),
{
    if bytes.len() == 0 {
        text
    } else {
        let encoded = encode_scalar(bytes[0] as u32);
        let next = if text.len() + encoded.len() <= VERSION_CAPACITY {
            text + encoded
        } else {
            text
        };
        filled(next, bytes.skip(1))
    }
}

/// A text never outgrows its capacity.
pub proof fn filled_fits(text: Seq<u8>, bytes: Seq<u8>)
    requires
        text.len() <= VERSION_CAPACITY,
    ensures
        filled(text, bytes).len() <= VERSION_CAPACITY,
        text.is_prefix_of(filled(text, bytes)),
    decreases bytes.len(),
{
    if bytes.len() > 0 {
        let encoded = encode_scalar(bytes[0] as u32);
        let next = if text.len() + encoded.len() <= VERSION_CAPACITY {
            text + encoded
        } else {
            text
        };
        filled_fits(next, bytes.skip(1));
        assert(text.is_prefix_of(next));
    }
}

/// Bytes below 128 stand for themselves: where all of `bytes` are such and
/// fit, the text gains exactly `bytes`.
pub proof fn filled_with_ascii(text: Seq<u8>, bytes: Seq<u8>)
    requires
        text.len() + bytes.len() <= VERSION_CAPACITY,
        forall|i: int| 0 <= i < bytes.len() ==> bytes[i] < 0x80,
    ensures
        filled(text, bytes) == text + bytes,
    decreases bytes.len(),
{
    if bytes.len() > 0 {
        let b = bytes[0];
        let v = b as u32;
        assert((v & 0x7F) as u8 == b) by (bit_vector)
            requires
                v == b as u32,
                b < 0x80,
        ;
        assert(encode_scalar(v) =~= seq![b]);
        let next = text + seq![b];
        assert forall|i: int| 0 <= i < bytes.skip(1).len() implies bytes.skip(1)[i] < 0x80 by {
            assert(bytes.skip(1)[i] == bytes[i + 1]);
        }
        filled_with_ascii(next, bytes.skip(1));
        assert(next + bytes.skip(1) =~= text + bytes);
    } else {
        assert(text + bytes =~= text);
    }
}

/// The call that asks the companion chip for the version of its firmware.
pub struct GetVersion {}

impl GetVersion {
    /// Reads the reply to the call. `data` is what follows the header of the
    /// reply: a length of four bytes, the lowest first, and the text. A reply
    /// that ends within the length is incomplete; one that announces more
    /// than [`VERSION_CAPACITY`] bytes is refused. Otherwise the text is all
    /// the bytes that follow the length, each taken as the character with
    /// that number, as far as they fit.
    pub fn parse(&mut self, data: &[u8]) -> (r: Result<VersionText, RpcError>)
        ensures
            match r {
                Ok(text) => data@.len() >= 4 && le_u32_value(data@[0], data@[1], data@[2], data@[3])
                    <= 16 && text_bytes(text) == filled(Seq::empty(), data@.skip(4)),
                Err(RpcError::Incomplete) => data@.len() < 4,
                Err(RpcError::ResponseOverrun) => data@.len() >= 4 && le_u32_value(
                    data@[0],
                    data@[1],
                    data@[2],
                    data@[3],
                ) > 16,
            },
    {
        let (data, length) = match le_u32(data) {
            Ok(parsed) => parsed,
            Err(_) => {
                return Err(RpcError::Incomplete);
            },
        };
        if length > 16 {
            return Err(RpcError::ResponseOverrun);
        }
        Ok(GetVersion::text_of(data))
    }

    /// The text that holds `bytes`, each taken as the character with that
    /// number, as far as they fit.
    pub fn text_of(bytes: &[u8]) -> (text: VersionText)
        ensures
            text_bytes(text) == filled(Seq::empty(), bytes@),
    {
        let mut out = VersionText::new();
        let mut i: usize = 0;
        assert(bytes@.skip(0) =~= bytes@);
        while i < bytes.len()
            invariant
                i <= bytes@.len(),
                filled(text_bytes(out), bytes@.skip(i as int)) == filled(Seq::empty(), bytes@),
            decreases bytes@.len() - i,
        {
            let c = bytes[i] as char;
            proof {
                assert(bytes@.skip(i as int).skip(1) =~= bytes@.skip(i + 1));
                assert(bytes@.skip(i as int)[0] == bytes@[i as int]);
                assert(c as u32 == bytes@[i as int] as u32);
            }
            let _ = out.push(c);
            i += 1;
        }
        assert(bytes@.skip(i as int).len() == 0);
        out
    }
}

} // verus!
