//! The bundled software crypto provider, backed by the `aes` and `cmac`
//! crates.

use vstd::prelude::*;

use crate::crypto::{aes128_block, aes128_cmac, spec_cmac_prefix, Crypto, Encrypter, Key, Mac};
use crate::types::{AppSKey, MIC, NwkSKey};

verus! {

/// Relies on `aes::Aes128Enc`: `new` expands the 16-byte key and
/// `encrypt_block` replaces the block with its AES-128 encryption, a function
/// of key and block alone.
#[verifier::external_body]
fn aes128_encrypt_block(key: &[u8; 16], block: &mut [u8; 16])
    ensures
        final(block)@ == aes128_block(key@, old(block)@),
{
    let cipher = <aes::Aes128Enc as aes::cipher::KeyInit>::new(key.into());
    aes::cipher::BlockCipherEncrypt::encrypt_block(&cipher, block.into());
}

/// Relies on `cmac::Cmac<aes::Aes128>`: `update` then `finalize` yield the
/// 16-byte AES-CMAC of the accumulated bytes, a function of key and message
/// alone. `new` accepts exactly a 16-byte key, which `[u8; 16]` supplies.
#[verifier::external_body]
fn aes128_cmac_bytes(key: &[u8; 16], msg: &Vec<u8>) -> (r: [u8; 16])
    ensures
        r@ == aes128_cmac(key@, msg@),
{
    let mut mac = <cmac::Cmac<aes::Aes128> as cmac::KeyInit>::new(key.into());
    cmac::Mac::update(&mut mac, msg.as_slice());
    let out = cmac::Mac::finalize(mac).into_bytes();
    out.into()
}

/// A software crypto provider holding the two session keys.
pub struct SoftCrypto {
    nwk_s_key: NwkSKey,
    app_s_key: AppSKey,
}

impl SoftCrypto {
    pub fn new(nwk_s_key: NwkSKey, app_s_key: AppSKey) -> (r: Self)
        ensures
            r.key_bytes(Key::Network) == nwk_s_key@,
            r.key_bytes(Key::Application) == app_s_key@,
    {
        SoftCrypto { nwk_s_key, app_s_key }
    }
}

/// A software AES-128 block encrypter holding one session key.
pub struct SoftEncrypter {
    key: [u8; 16],
}

impl Encrypter for SoftEncrypter {
    closed spec fn key(&self) -> Seq<u8> {
        self.key@
    }

    fn encrypt_block(&mut self, block: &mut [u8; 16]) {
        aes128_encrypt_block(&self.key, block);
    }
}

/// A software AES-CMAC computer holding the network session key.
pub struct SoftMac {
    key: [u8; 16],
}

impl Mac for SoftMac {
    closed spec fn key(&self) -> Seq<u8> {
        self.key@
    }

    fn calculate_mic(&mut self, data: &Vec<u8>) -> (r: MIC) {
        let full = aes128_cmac_bytes(&self.key, data);
        let mic = MIC { bytes: [full[0], full[1], full[2], full[3]] };
        proof {
            assert(mic@ =~= spec_cmac_prefix(self.key@, data@));
        }
        mic
    }
}

impl Crypto for SoftCrypto {
    type Encrypter = SoftEncrypter;

    type Mac = SoftMac;

    closed spec fn key_bytes(&self, key: Key) -> Seq<u8> {
        match key {
            Key::Network => self.nwk_s_key@,
            Key::Application => self.app_s_key@,
        }
    }

    fn get_encrypter(&mut self, key: Key) -> (r: SoftEncrypter) {
        let k = match key {
            Key::Network => self.nwk_s_key.bytes,
            Key::Application => self.app_s_key.bytes,
        };
        SoftEncrypter { key: k }
    }

    fn get_mac(&mut self) -> (r: SoftMac) {
        SoftMac { key: self.nwk_s_key.bytes }
    }
}

} // verus!
