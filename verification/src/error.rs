//! The error taxonomy. Every operation reports failure through one of these
//! variants; nothing is partially applied and nothing panics.

use vstd::prelude::*;

verus! {

/// Why an operation was refused. Validation errors (lengths, pause ceiling),
/// authorization errors, state errors (paused service, pause window still
/// open, missing subscription), consistency errors (wrong payment-token mint,
/// derived address already occupied) and arithmetic overflow.
#[derive(Clone, Copy, Debug, PartialEq, Eq, Structural)]
pub enum SubflowError {
    MaxServiceNameExceeded,
    MaxURILengthExceeded,
    ExceededMaxPauseTime,
    ServicePaused,
    CantUnpauseYet,
    WrongMint,
    UserNeverSubscribed,
    Unauthorized,
    DuplicateEntity,
    InsufficientFunds,
    Overflow,
}

impl SubflowError {
    /// A short human-readable account of the error.
    pub fn message(&self) -> &'static str {
        match self {
            SubflowError::MaxServiceNameExceeded => "Max character length for service name exceeded",
            SubflowError::MaxURILengthExceeded => "Max URI length exceeded",
            SubflowError::ExceededMaxPauseTime => "You can't pause for more than the stipulated max pause time",
            SubflowError::ServicePaused => "Can't perform action, Service is paused",
            SubflowError::CantUnpauseYet => "Can't unpause service till the pause period elapses",
            SubflowError::WrongMint => "Token account has the wrong mint",
            SubflowError::UserNeverSubscribed => "This user is not subscribed",
            SubflowError::Unauthorized => "Caller is not the recorded authority for this record",
            SubflowError::DuplicateEntity => "A record already exists at the derived address",
            SubflowError::InsufficientFunds => "The payment source holds less than the transfer amount",
            SubflowError::Overflow => "A counter or date computation overflowed",
        }
    }
}

} // verus!
