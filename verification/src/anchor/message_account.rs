//! An account holding a message that can be replaced, sized to the message.

use vstd::prelude::*;
use crate::error::ProgramError;

verus! {

/// A stored message.
pub struct Message {
    pub message: String,
}

/// The space of a message account for a message of `len` bytes: an 8-byte
/// account discriminator, 8 bytes for the length, and the text.
pub open spec fn spec_required_space(len: usize) -> int {
    8 + 8 + len
}

impl Message {
    /// The space a message of `len` bytes needs.
    pub fn required_space(len: usize) -> (r: usize)
        requires
            len + 16 <= usize::MAX,
        ensures
            r == spec_required_space(len),
    {
        8 + 8 + len
    }
}

/// Stores `message` in the newly created account.
pub fn initialize(account: &mut Message, message: String) -> (r: Result<(), ProgramError>)
    ensures
        r is Ok,
        final(account).message@ == message@,
{
    account.message = message;
    Ok(())
}

/// Replaces the stored message with `input`.
pub fn update(account: &mut Message, input: String) -> (r: Result<(), ProgramError>)
    ensures
        r is Ok,
        final(account).message@ == input@,
{
    account.message = input;
    Ok(())
}

} // verus!
