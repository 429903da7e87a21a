//! A key buffer that is overwritten with zeros when it is retired.

use base64::Engine;
use vstd::prelude::*;

verus! {

/// The bytes of the padded standard base64 text of `bytes`.
pub uninterp spec fn base64_standard_of(bytes: Seq<u8>) -> Seq<u8>;

/// Relies on `base64::engine::general_purpose::STANDARD.encode`: the padded
/// standard base64 text of `bytes`, which depends on `bytes` alone, handed
/// back as its bytes. It panics only where the length of the text overflows
/// `usize`.
#[verifier::external_body]
fn encode_base64(bytes: &[u8]) -> (r: Vec<u8>)
    requires
        bytes@.len() <= usize::MAX / 2,
    ensures
        r@ == base64_standard_of(bytes@),
{
    base64::engine::general_purpose::STANDARD.encode(bytes).into_bytes()
}

/// `n` zero bytes.
pub open spec fn zeroed(n: nat) -> Seq<u8> {
    Seq::new(n, |_i: int| 0u8)
}

/// Key material. Whoever retires a key wipes it first.
pub struct SecretKey {
    bytes: Vec<u8>,
}

impl View for SecretKey {
    type V = Seq<u8>;

    closed spec fn view(&self) -> Seq<u8> {
        self.bytes@
    }
}

impl SecretKey {
    /// Takes ownership of `bytes` as key material.
    pub fn from_bytes(bytes: Vec<u8>) -> (r: Self)
        ensures
            r@ == bytes@,
    {
        SecretKey { bytes }
    }

    /// The key bytes.
    pub fn as_bytes(&self) -> (r: &[u8])
        ensures
            r@ == self@,
    {
        self.bytes.as_slice()
    }

    /// Number of key bytes.
    pub fn len(&self) -> (r: usize)
        ensures
            r == self@.len(),
    {
        self.bytes.len()
    }

    /// Overwrites every byte with zero; the length is kept.
    pub fn wipe(&mut self)
        ensures
            final(self)@ == zeroed(old(self)@.len()),
    {
        let n = self.bytes.len();
        let mut i: usize = 0;
        while i < n
            invariant
                i <= n,
                n == self.bytes@.len(),
                forall|k: int| 0 <= k < i ==> #[trigger] self.bytes@[k] == 0u8,
            decreases n - i,
        {
            self.bytes.set(i, 0u8);
            i += 1;
        }
        assert(self.bytes@ =~= zeroed(n as nat));
    }

    /// Whether every byte is zero.
    pub fn is_zeroed(&self) -> (r: bool)
        ensures
            r == (self@ == zeroed(self@.len())),
    {
        let n = self.bytes.len();
        let mut i: usize = 0;
        while i < n
            invariant
                i <= n,
                n == self.bytes@.len(),
                forall|k: int| 0 <= k < i ==> #[trigger] self.bytes@[k] == 0u8,
            decreases n - i,
        {
            if self.bytes[i] != 0u8 {
                assert(self.bytes@[i as int] != zeroed(n as nat)[i as int]);
                return false;
            }
            i += 1;
        }
        assert(self.bytes@ =~= zeroed(n as nat));
        true
    }

    /// The passphrase that the store is keyed with: the standard base64 text
    /// of the key bytes, held as key material itself so that it is wiped
    /// once the store is open.
    pub fn to_passphrase(&self) -> (r: SecretKey)
        requires
            self@.len() <= usize::MAX / 2,
        ensures
            r@ == base64_standard_of(self@),
    {
        SecretKey { bytes: encode_base64(self.bytes.as_slice()) }
    }
}

} // verus!
