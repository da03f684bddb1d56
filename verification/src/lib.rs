//! Identity verification for a public-key-addressed network.
//!
//! The library has two halves. The cryptographic half decodes a textual
//! network address into a typed public key with its signing-algorithm
//! tag, and verifies a claimant's signature over a random challenge
//! nonce against that key. The event-sourced half is a verifier
//! aggregate: a state machine holding the replayable history of
//! identity-field insertions, idempotent under duplicate submission and
//! committed against an append-only event log with optimistic
//! concurrency.

pub mod address;
pub mod aggregate;
pub mod challenge;
pub mod hexfmt;
pub mod identity;
pub mod keys;
pub mod tokens;

use vstd::prelude::*;

verus! {

/// Relies on `std::time::SystemTime::now` and `duration_since`: seconds
/// since the Unix epoch by the system clock. Nothing can be promised of
/// a clock reading. Convention: 0 also stands for a clock set before
/// the epoch, a state this reading cannot tell apart from the epoch
/// itself; a caller that treats such a clock as fatal must check for 0
/// itself.
#[verifier::external_body]
pub fn unix_time() -> u64 {
    match std::time::SystemTime::now().duration_since(std::time::UNIX_EPOCH) {
        Ok(d) => d.as_secs(),
        Err(_) => 0,
    }
}

/// The fatal failure channel: extraction of a value whose absence the
/// design asserts can never occur. It is distinct from the recoverable
/// error types, and verified callers must prove presence, so the
/// aborting path is dead in verified code.
pub trait Fatal<T>: Sized {
    /// Whether the value is present.
    spec fn is_present(&self) -> bool;

    /// The present value.
    spec fn present_value(&self) -> T;

    /// Extract the value; callers prove it is present.
    fn fatal(self) -> (r: T)
        requires
            self.is_present(),
        ensures
            r == self.present_value(),
    ;
}

impl<T, E> Fatal<T> for Result<T, E> {
    open spec fn is_present(&self) -> bool {
        self is Ok
    }

    open spec fn present_value(&self) -> T {
        self->Ok_0
    }

    fn fatal(self) -> (r: T) {
        match self {
            Ok(v) => v,
            Err(_) => vstd::pervasive::unreached(),
        }
    }
}

impl<T> Fatal<T> for Option<T> {
    open spec fn is_present(&self) -> bool {
        self is Some
    }

    open spec fn present_value(&self) -> T {
        self->Some_0
    }

    fn fatal(self) -> (r: T) {
        match self {
            Some(v) => v,
            None => vstd::pervasive::unreached(),
        }
    }
}

} // verus!
