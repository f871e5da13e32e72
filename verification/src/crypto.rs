//! The cryptographic provider interface the framer depends on: AES-128
//! block encryption for the payload keystream and AES-CMAC for the message
//! integrity code.
//!
//! The two `uninterp` spec functions name the results of the two outside
//! computations; every contract in the crate speaks of the ciphers only
//! through these names.

pub mod soft;

use vstd::prelude::*;

use crate::types::MIC;

verus! {

/// Selects which session key a cryptographic operation uses.
#[derive(Clone, Copy, Debug, PartialEq, Eq, Structural)]
pub enum Key {
    Network,
    Application,
}

/// The AES-128 encryption of a 16-byte block under a 16-byte key.
pub uninterp spec fn aes128_block(key: Seq<u8>, block: Seq<u8>) -> Seq<u8>;

/// The 16-byte AES-CMAC of a message under a 16-byte key.
pub uninterp spec fn aes128_cmac(key: Seq<u8>, msg: Seq<u8>) -> Seq<u8>;

/// The message integrity code: the leading 4 bytes of the AES-CMAC.
pub open spec fn spec_cmac_prefix(key: Seq<u8>, msg: Seq<u8>) -> Seq<u8> {
    Seq::new(4, |i: int| aes128_cmac(key, msg)[i])
}

/// An AES-128 block encrypter bound to one session key.
pub trait Encrypter {
    /// The 16-byte key this encrypter was created with.
    spec fn key(&self) -> Seq<u8>;

    /// Replaces `block` with its AES-128 encryption under `self.key()`.
    fn encrypt_block(&mut self, block: &mut [u8; 16])
        ensures
            final(self).key() == old(self).key(),
            final(block)@ == aes128_block(old(self).key(), old(block)@);
}

/// An AES-CMAC computer bound to one session key.
pub trait Mac {
    /// The 16-byte key this MAC was created with.
    spec fn key(&self) -> Seq<u8>;

    /// Returns the message integrity code of `data`: the leading 4 bytes of
    /// its AES-CMAC under `self.key()`.
    fn calculate_mic(&mut self, data: &Vec<u8>) -> (r: MIC)
        ensures
            final(self).key() == old(self).key(),
            r@ == spec_cmac_prefix(old(self).key(), data@);
}

/// A provider of AES-128 primitives over the two session keys.
pub trait Crypto {
    type Encrypter: Encrypter;

    type Mac: Mac;

    /// The 16 bytes of the selected session key.
    spec fn key_bytes(&self, key: Key) -> Seq<u8>;

    /// An encrypter over the selected session key.
    fn get_encrypter(&mut self, key: Key) -> (r: Self::Encrypter)
        ensures
            forall|k: Key| final(self).key_bytes(k) == old(self).key_bytes(k),
            r.key() == old(self).key_bytes(key);

    /// A MAC over the network session key; the integrity code always uses it.
    fn get_mac(&mut self) -> (r: Self::Mac)
        ensures
            forall|k: Key| final(self).key_bytes(k) == old(self).key_bytes(k),
            r.key() == old(self).key_bytes(Key::Network);
}

} // verus!
