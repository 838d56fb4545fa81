//! Standard base64 text, as the `base64` crate reads and writes it.

use vstd::prelude::*;

verus! {

/// Why a text is not standard base64: the three faults that the `base64`
/// crate tells apart, with the offset and the byte where it gives them.
#[derive(Debug, Clone, Copy, PartialEq, Eq, Structural)]
pub enum DecodeError {
    /// A byte outside the alphabet, at the given offset.
    InvalidByte(usize, u8),
    /// The text's length leaves a remainder of six bits.
    InvalidLength,
    /// The last symbol carries bits that no byte would take.
    InvalidLastSymbol(usize, u8),
}

/// The standard, padded base64 text of `bytes`: what `base64::encode` returns.
pub uninterp spec fn base64_text(bytes: Seq<u8>) -> Seq<char>;

/// What `base64::decode` makes of `text`: the bytes, or the fault it reports.
pub uninterp spec fn base64_decoded(text: Seq<char>) -> Result<Seq<u8>, DecodeError>;

/// The longest input that `base64::encode` takes without overflowing the
/// length of its output.
pub open spec fn encodable(len: nat) -> bool {
    len / 3 * 4 + 4 <= usize::MAX
}

/// Calls `base64::encode`. Trusted: the result is the crate's standard
/// encoding of `bytes`, and that text decodes back to `bytes`. The crate
/// panics where the encoded length overflows `usize`, which `requires`
/// leaves out.
#[verifier::external_body]
pub(crate) fn encode(bytes: &[u8]) -> (text: String)
    requires
        encodable(bytes@.len()),
    ensures
        text@ == base64_text(bytes@),
        base64_decoded(text@) is Ok,
        base64_decoded(text@)->Ok_0 == bytes@,
{
    base64::encode(bytes)
}

/// Calls `base64::decode`. Trusted: the result is what the crate makes of
/// `text`, its error moved variant by variant into `DecodeError`.
#[verifier::external_body]
pub(crate) fn decode(text: &str) -> (res: Result<Vec<u8>, DecodeError>)
    ensures
        res is Ok == base64_decoded(text@) is Ok,
        res matches Ok(bytes) ==> base64_decoded(text@)->Ok_0 == bytes@,
        res matches Err(e) ==> base64_decoded(text@)->Err_0 == e,
{
    match base64::decode(text) {
        Ok(bytes) => Ok(bytes),
        Err(base64::DecodeError::InvalidByte(offset, byte)) => Err(DecodeError::InvalidByte(offset, byte)),
        Err(base64::DecodeError::InvalidLength) => Err(DecodeError::InvalidLength),
        Err(base64::DecodeError::InvalidLastSymbol(offset, byte)) => Err(DecodeError::InvalidLastSymbol(offset, byte)),
    }
}

/// The sentence that the `base64` crate has for a fault: what the `Display`
/// impl of its `DecodeError` writes.
pub uninterp spec fn base64_fault_text(e: DecodeError) -> Seq<char>;

/// Calls the `Display` impl of `base64::DecodeError`. Trusted: the text is
/// the crate's sentence for the fault, a function of the fault alone.
#[verifier::external_body]
pub(crate) fn decode_error_text(e: &DecodeError) -> (text: String)
    ensures
        text@ == base64_fault_text(*e),
{
    match *e {
        DecodeError::InvalidByte(offset, byte) => base64::DecodeError::InvalidByte(offset, byte).to_string(),
        DecodeError::InvalidLength => base64::DecodeError::InvalidLength.to_string(),
        DecodeError::InvalidLastSymbol(offset, byte) => base64::DecodeError::InvalidLastSymbol(offset, byte).to_string(),
    }
}

} // verus!
