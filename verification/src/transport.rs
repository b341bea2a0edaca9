//! What the core needs to know of a transport: its failures.

use std::fmt::Debug;
use vstd::prelude::*;

verus! {

/// The failures of one transport family. The core never inspects them: it
/// carries them to the caller inside its own error types.
pub trait ConnectionErrors {
    /// A substream could not be created.
    type OpenError: Debug;

    /// An outgoing message could not be delivered.
    type SendError: Debug;

    /// An incoming message could not be read.
    type RecvError: Debug;
}

} // verus!
