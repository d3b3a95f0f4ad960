//! Sound data kept in memory.

use vstd::prelude::*;
use crate::error::GameError;

verus! {

/// The bytes of an encoded sound, kept in memory.
#[derive(Debug, Clone)]
pub struct SoundData {
    data: Vec<u8>,
}

/// The message of the error for bytes that no decoder can read, after the
/// decoder's own message `reason`.
pub open spec fn undecodable_message(reason: Seq<char>) -> Seq<char> {
    "Could not decode the given audio data: "@ + reason
}

impl SoundData {
    /// The bytes.
    pub closed spec fn spec_bytes(&self) -> Seq<u8> {
        self.data@
    }

    /// Keeps a copy of `data`, which the decoder has read, or failed to
    /// read with the message `decode_error`: then the error says so.
    pub fn from_bytes(data: &[u8], decode_error: Option<String>) -> (r: Result<SoundData, GameError>)
        ensures
            match decode_error {
                None => r matches Ok(s) && s.spec_bytes() == data@,
                Some(reason) => r matches Err(e) && e matches GameError::AudioError(m)
                    && m@ == undecodable_message(reason@),
            },
    {
        match decode_error {
            None => Ok(SoundData { data: vstd::slice::slice_to_vec(data) }),
            Some(reason) => {
                let mut msg = String::from_str("Could not decode the given audio data: ");
                msg.append(reason.as_str());
                Err(GameError::AudioError(msg))
            },
        }
    }

    /// The bytes.
    pub fn as_bytes(&self) -> (b: &[u8])
        ensures
            b@ == self.spec_bytes(),
    {
        self.data.as_slice()
    }
}

} // verus!
