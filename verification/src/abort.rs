//! The error space an instruction surfaces to its caller: a program-level
//! code, a low-level check code, or a malformed trailing account list. The
//! host runtime discards every state change of the transaction when a handler
//! returns any of these.

use vstd::prelude::*;
use crate::error::Error;

verus! {

#[derive(Clone, Copy, Debug, PartialEq, Eq, Structural)]
pub enum Abort {
    /// A program-level state-machine or authorization failure.
    Program(Error),
    /// A low-level account check failure.
    Check(crate::util::error::Error),
    /// A program-level failure of the exact-price sibling revision.
    Revision(crate::virt::error::Error),
    /// The positional trailing account list is shorter than the protocol
    /// requires.
    MissingAccount,
}

} // verus!
