//! At-rest encryption: Serpent in CBC mode with zero padding, under a fixed
//! 24-byte key and 16-byte initialization vector given as hex text.
use block_modes::block_padding::ZeroPadding;
use block_modes::{BlockMode, Cbc};
use serpent::Serpent;
use vstd::prelude::*;

verus! {

/// Size in bytes of the cipher key.
pub const KEY_LEN: usize = 24;

/// Size in bytes of the initialization vector, and of one cipher block.
pub const BLOCK_LEN: usize = 16;

/// Value of one hexadecimal digit, either case.
pub open spec fn hex_digit(c: char) -> Option<int> {
    let v = c as u32;
    if 48 <= v && v <= 57 {
        Some(v - 48)
    } else if 97 <= v && v <= 102 {
        Some(v - 87)
    } else if 65 <= v && v <= 70 {
        Some(v - 55)
    } else {
        None
    }
}

/// The bytes that a hex text stands for: two digits per byte, high digit
/// first; `None` for an odd length or a character that is not a hex digit.
pub open spec fn hex_bytes(s: Seq<char>) -> Option<Seq<u8>>
    decreases s.len(),
{
    if s.len() == 0 {
        Some(Seq::<u8>::empty())
    } else if s.len() == 1 {
        None
    } else {
        match (hex_digit(s[0]), hex_digit(s[1]), hex_bytes(s.subrange(2, s.len() as int))) {
            (Some(h), Some(l), Some(rest)) => Some(seq![(h * 16 + l) as u8] + rest),
            _ => None,
        }
    }
}

/// Whether `s` is hex text for exactly `n` bytes.
pub open spec fn hex_of_len(s: Seq<char>, n: nat) -> bool {
    hex_bytes(s) matches Some(b) && b.len() == n
}

/// Length of a plaintext of `n` bytes once zero-padded to whole blocks.
pub open spec fn padded_len(n: nat) -> nat {
    if n % 16 == 0 {
        n
    } else {
        (n / 16 + 1) * 16
    }
}

/// What removing zero padding leaves of `p`: its trailing zero bytes are
/// dropped, but never its first byte.
pub open spec fn zero_unpadded(p: Seq<u8>) -> Seq<u8>
    decreases p.len(),
{
    if p.len() > 1 && p.last() == 0 {
        zero_unpadded(p.drop_last())
    } else {
        p
    }
}

/// The ciphertext of `plain` under `key` and `iv`.
pub uninterp spec fn serpent_cbc_encrypt(key: Seq<u8>, iv: Seq<u8>, plain: Seq<u8>) -> Seq<u8>;

/// The zero-unpadded plaintext of `data` under `key` and `iv`.
pub uninterp spec fn serpent_cbc_decrypt(key: Seq<u8>, iv: Seq<u8>, data: Seq<u8>) -> Seq<u8>;

/// Relies on hex::decode: `Ok` exactly for text of an even number of hex
/// digits (either case), holding one byte per pair, high digit first.
#[verifier::external_body]
fn decode_hex(s: &str) -> (r: Option<Vec<u8>>)
    ensures
        r matches Some(b) <==> hex_bytes(s@) is Some,
        r matches Some(b) ==> hex_bytes(s@) == Some(b@),
{
    hex::decode(s).ok()
}

/// Relies on block_modes' `Cbc<Serpent, ZeroPadding>`: `new_from_slices`
/// accepts a key of 16 to 32 bytes and a 16-byte iv; `encrypt_vec` fills the
/// last block with zero bytes and enciphers, so that deciphering and
/// unpadding the result gives back the plaintext without its trailing zeros.
#[verifier::external_body]
fn serpent_encrypt(key: &[u8; 24], iv: &[u8; 16], plain: &[u8]) -> (r: Vec<u8>)
    ensures
        r@ == serpent_cbc_encrypt(key@, iv@, plain@),
        r@.len() == padded_len(plain@.len()),
        plain@.len() > 0 ==> serpent_cbc_decrypt(key@, iv@, r@) == zero_unpadded(plain@),
{
    Cbc::<Serpent, ZeroPadding>::new_from_slices(key, iv).unwrap().encrypt_vec(plain)
}

/// Relies on block_modes' `Cbc<Serpent, ZeroPadding>`: `decrypt_vec` fails
/// only on a length that is not a whole number of blocks, and panics on an
/// empty input, which `requires` leaves out.
#[verifier::external_body]
fn serpent_decrypt(key: &[u8; 24], iv: &[u8; 16], data: &[u8]) -> (r: Vec<u8>)
    requires
        data@.len() > 0,
        data@.len() % 16 == 0,
    ensures
        r@ == serpent_cbc_decrypt(key@, iv@, data@),
{
    Cbc::<Serpent, ZeroPadding>::new_from_slices(key, iv).unwrap().decrypt_vec(data).unwrap()
}

/// Fixed key material for encrypting values at rest.
pub struct Cipher {
    priv_key: [u8; 24],
    iv: [u8; 16],
}

impl Cipher {
    pub closed spec fn key(&self) -> Seq<u8> {
        self.priv_key@
    }

    pub closed spec fn init_vector(&self) -> Seq<u8> {
        self.iv@
    }

    /// What encrypting `plain` stores.
    pub open spec fn sealed(&self, plain: Seq<u8>) -> Seq<u8> {
        serpent_cbc_encrypt(self.key(), self.init_vector(), plain)
    }

    /// What decrypting stored `data` gives: the empty value stays empty.
    pub open spec fn opened(&self, data: Seq<u8>) -> Seq<u8> {
        if data.len() == 0 {
            data
        } else {
            serpent_cbc_decrypt(self.key(), self.init_vector(), data)
        }
    }

    /// Builds a cipher from hex text for a 24-byte key and a 16-byte iv;
    /// `None` when either text is not hex for exactly that many bytes.
    pub fn from_hex(key_hex: &str, iv_hex: &str) -> (r: Option<Cipher>)
        ensures
            r is Some <==> hex_of_len(key_hex@, 24) && hex_of_len(iv_hex@, 16),
            r matches Some(c) ==> Some(c.key()) == hex_bytes(key_hex@) && Some(c.init_vector())
                == hex_bytes(iv_hex@),
    {
        let k = match decode_hex(key_hex) {
            Some(k) => k,
            None => return None,
        };
        let v = match decode_hex(iv_hex) {
            Some(v) => v,
            None => return None,
        };
        if k.len() != KEY_LEN || v.len() != BLOCK_LEN {
            return None;
        }
        let mut priv_key = [0u8; 24];
        let mut i: usize = 0;
        while i < KEY_LEN
            invariant
                k@.len() == 24,
                i <= 24,
                forall|j: int| 0 <= j < i ==> priv_key@[j] == k@[j],
            decreases 24 - i,
        {
            priv_key[i] = k[i];
            i = i + 1;
        }
        let mut iv = [0u8; 16];
        let mut i: usize = 0;
        while i < BLOCK_LEN
            invariant
                v@.len() == 16,
                i <= 16,
                forall|j: int| 0 <= j < i ==> iv@[j] == v@[j],
            decreases 16 - i,
        {
            iv[i] = v[i];
            i = i + 1;
        }
        assert(priv_key@ =~= k@);
        assert(iv@ =~= v@);
        Some(Cipher { priv_key, iv })
    }

    /// Encrypts a plaintext; equal plaintexts give equal ciphertexts.
    pub fn encrypt(&self, plain: &[u8]) -> (r: Vec<u8>)
        ensures
            r@ == self.sealed(plain@),
            r@.len() == padded_len(plain@.len()),
            plain@.len() > 0 ==> self.opened(r@) == zero_unpadded(plain@),
            plain@.len() == 0 ==> r@.len() == 0,
    {
        serpent_encrypt(&self.priv_key, &self.iv, plain)
    }

    /// Decrypts stored data whose length is a whole number of blocks.
    pub fn decrypt(&self, data: &[u8]) -> (r: Vec<u8>)
        requires
            data@.len() % 16 == 0,
        ensures
            r@ == self.opened(data@),
    {
        if data.len() == 0 {
            Vec::new()
        } else {
            serpent_decrypt(&self.priv_key, &self.iv, data)
        }
    }
}

} // verus!
