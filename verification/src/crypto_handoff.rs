//! Handing the encryption state over when the byte stream below changes.
//!
//! The state holds the two counts that the nonces are made of. A new stream that
//! kept the key but began to count from zero would seal two messages under one
//! nonce, which breaks both secrecy and integrity. So the key and both counts go
//! over as they are.

use crate::tcp::{Encrypt, FramedStream};
use vstd::prelude::*;

verus! {

impl FramedStream {
    /// Takes over the encryption state of another stream.
    pub fn adopt_crypto_from(&mut self, source: &FramedStream)
        ensures
            *final(self) == old(self).with_crypto(source.2),
    {
        self.2 = source.2.clone();
    }

    /// Gives the encryption state away. The stream does not encrypt any more and
    /// must not carry messages.
    pub fn take_crypto(&mut self) -> (r: Option<Encrypt>)
        ensures
            *final(self) == old(self).with_crypto(None),
            r == old(self).2,
    {
        self.2.take()
    }

    /// How many messages were sealed and how many were opened.
    pub fn crypto_seq(&self) -> (r: Option<(u64, u64)>)
        ensures
            r == match self.2 {
                Some(e) => Some((e.1, e.2)),
                None => None,
            },
    {
        match &self.2 {
            Some(e) => Some((e.1, e.2)),
            None => None,
        }
    }
}

/// Messages with different numbers have different nonces.
pub proof fn nonces_are_distinct(a: u64, b: u64)
    requires
        a != b,
    ensures
        crate::tcp::nonce_of(a) != crate::tcp::nonce_of(b),
{
    vstd::bytes::lemma_auto_spec_u64_to_from_le_bytes();
    assert(crate::tcp::nonce_of(a).subrange(0, 8) == vstd::bytes::spec_u64_to_le_bytes(a));
    assert(crate::tcp::nonce_of(b).subrange(0, 8) == vstd::bytes::spec_u64_to_le_bytes(b));
}

/// A state that starts over under the key of another seals its messages under
/// the nonces that the other began with: equal messages become equal frames.
pub proof fn resetting_counters_reuses_nonces(used: Encrypt, restarted: Encrypt, message: Seq<u8>)
    requires
        used.0 == restarted.0,
        used.1 == 0,
        restarted.1 == 0,
    ensures
        used.seals(message) == restarted.seals(message),
{
}

/// The encryption state after sealing a number of messages.
pub open spec fn after_seals(crypto: Encrypt, n: nat) -> Encrypt {
    Encrypt(crypto.0, (crypto.1 + n) as u64, crypto.2)
}

/// A state that took the counts over seals under a nonce that the state it came
/// from has not used: it goes on where that one stopped.
pub proof fn inherited_counts_reuse_no_nonce(crypto: Encrypt, sealed_before: nat, i: nat)
    requires
        i < sealed_before,
        crypto.1 + sealed_before < u64::MAX,
    ensures
        ({
            let inherited = after_seals(crypto, sealed_before);
            let earlier = after_seals(crypto, i);
            &&& earlier.after_seal() == after_seals(crypto, i + 1)
            &&& inherited.0 == crypto.0
            &&& crate::tcp::nonce_of((inherited.1 + 1) as u64) != crate::tcp::nonce_of(
                (earlier.1 + 1) as u64,
            )
        }),
{
    let inherited = after_seals(crypto, sealed_before);
    let earlier = after_seals(crypto, i);
    nonces_are_distinct((inherited.1 + 1) as u64, (earlier.1 + 1) as u64);
}

} // verus!
