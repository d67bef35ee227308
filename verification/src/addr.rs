//! The platform representation of a destination address.
//!
//! A message-oriented send may carry a destination. The logical address
//! (a network or a local-domain address) is converted outside this core
//! into the platform's raw socket-address bytes; this module holds those
//! bytes together with their one invariant: a converted address is never
//! empty and never larger than the platform's address storage.

use vstd::prelude::*;

verus! {

/// The size of the platform's socket-address storage: no converted
/// address is longer than this.
pub const MAX_ADDR_LEN: usize = 128;

/// A destination address in the platform's raw representation.
pub struct RawAddr {
    bytes: Vec<u8>,
}

impl RawAddr {
    /// The raw address bytes.
    pub closed spec fn bytes_spec(&self) -> Seq<u8> {
        self.bytes@
    }

    /// A converted address is non-empty and fits the platform's
    /// address storage.
    pub open spec fn wf(&self) -> bool {
        0 < self.bytes_spec().len() <= MAX_ADDR_LEN
    }

    /// Wraps converted address bytes; rejects an empty value and one
    /// larger than the platform's address storage.
    pub fn new(bytes: Vec<u8>) -> (r: Option<RawAddr>)
        ensures
            match r {
                Some(a) => a.wf() && a.bytes_spec() == bytes@ && 0 < bytes@.len()
                    <= MAX_ADDR_LEN,
                None => bytes@.len() == 0 || bytes@.len() > MAX_ADDR_LEN,
            },
    {
        if bytes.len() == 0 || bytes.len() > MAX_ADDR_LEN {
            None
        } else {
            Some(RawAddr { bytes })
        }
    }

    /// The length of the raw address in bytes.
    pub fn len(&self) -> (r: usize)
        ensures
            r == self.bytes_spec().len(),
    {
        self.bytes.len()
    }

    /// The raw address bytes, for handing to a backend.
    pub fn as_slice(&self) -> (r: &[u8])
        ensures
            r@ == self.bytes_spec(),
    {
        self.bytes.as_slice()
    }
}

} // verus!
