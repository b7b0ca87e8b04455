//! A delegated-signing relay: it holds one custody account at an address
//! derived from a fixed tag, and forwards caller-built instructions to one
//! trusted downstream program with the custody account marked as signer.
use vstd::prelude::*;

pub mod accounts;
pub mod address;
pub mod derivation;
pub mod error;
pub mod relay;

verus! {

} // verus!
