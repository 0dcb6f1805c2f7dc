use vstd::prelude::*;
use crate::errors::Error;
use crate::Bytes;

verus! {

/// `StableStore` is used to provide stable storage
/// of key configurations to ensure safety.
pub trait StableStore {
    fn set(&mut self, key: Bytes, val: Bytes) -> Result<(), Error>;

    /// `get` returns the value for key, or an empty byte slice if key was not found
    fn get(&self, key: Bytes) -> Result<Bytes, Error>;

    fn set_u64(&mut self, key: Bytes, val: u64) -> Result<(), Error>;

    /// `get_u64` returns the u64 value for key, or 0 if key was not found.
    fn get_u64(&self, key: Bytes) -> Result<u64, Error>;
}

} // verus!
