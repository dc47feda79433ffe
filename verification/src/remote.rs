//! The transmitter's side: what is done with each message that arrives on
//! the channel of due flips.

use crate::data::Flip;
use crate::error::Error;
use vstd::prelude::*;

verus! {

/// How often the code of a flip is sent, since a receiver may miss some.
pub const REPEATS: u32 = 10;

/// The pin that the sender is wired to.
pub const PIN: u32 = 17;

/// The length of one pulse of a code.
pub const PULSE_LENGTH: u32 = 178;

/// What is done with a message.
#[derive(Debug, Clone, PartialEq, Eq)]
pub enum Handling {
    /// The code is sent `times` times on `pin` with pulses of `pulse_length`.
    Send { code: usize, pin: u32, pulse_length: u32, times: u32 },
    /// The message could not be read, and this is printed.
    Report(String),
}

/// What is done with a message: the code of a flip is sent ten times, and a
/// message that is no flip is reported with the text of its error.
pub fn handle_message(r: Result<Flip, Error>) -> (handling: Handling)
    ensures
        r matches Ok(flip) ==> handling == (Handling::Send {
            code: flip.code as usize,
            pin: PIN,
            pulse_length: PULSE_LENGTH,
            times: REPEATS,
        }),
        r matches Err(e) ==> (handling matches Handling::Report(text) && text@ == e.text()),
{
    match r {
        Ok(f) => Handling::Send {
            code: #[verifier::truncate]
            (f.code as usize),
            pin: PIN,
            pulse_length: PULSE_LENGTH,
            times: REPEATS,
        },
        Err(e) => Handling::Report(e.to_string()),
    }
}

} // verus!
