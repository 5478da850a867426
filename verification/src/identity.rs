use vstd::prelude::*;

verus! {

/// The hexadecimal digit for a number below 16.
pub open spec fn hex_digit(n: int) -> char {
    "0123456789abcdef"@[n]
}

/// Bytes in lower-case hexadecimal: two digits for each byte, the high half first.
pub open spec fn hex_lower(bytes: Seq<u8>) -> Seq<char> {
    Seq::new(
        2 * bytes.len(),
        |i: int|
            if i % 2 == 0 {
                hex_digit(bytes[i / 2] as int / 16)
            } else {
                hex_digit(bytes[i / 2] as int % 16)
            },
    )
}

/// The bytes of the key that `iroh_base::SecretKey`'s `FromStr` reads from a text, if it
/// accepts the text.
pub uninterp spec fn secret_key_parsed(text: Seq<char>) -> Option<Seq<u8>>;

/// The bytes of the public key that `iroh_base::SecretKey::public` derives.
pub uninterp spec fn public_key_bytes(secret: Seq<u8>) -> Seq<u8>;

/// Formats a key with `iroh_base::SecretKey`'s `Display`. Not proved: that the result is
/// the bytes in lower-case hexadecimal, and that the crate's `FromStr` reads the same
/// bytes back from it (it decodes a text of 64 characters as hexadecimal).
#[verifier::external_body]
pub(crate) fn format_secret_key(bytes: &[u8; 32]) -> (text: String)
    ensures
        text@ == hex_lower(bytes@),
        secret_key_parsed(text@) == Some(bytes@),
{
    iroh_base::SecretKey::from_bytes(bytes).to_string()
}

/// Parses a key with `iroh_base::SecretKey`'s `FromStr`. Not proved: that the result is
/// what that crate reads from the text.
#[verifier::external_body]
pub(crate) fn parse_secret_key(text: &str) -> (r: Option<[u8; 32]>)
    ensures
        match r {
            Some(bytes) => secret_key_parsed(text@) == Some(bytes@),
            None => secret_key_parsed(text@) is None,
        },
{
    match text.parse::<iroh_base::SecretKey>() {
        Ok(key) => Some(key.to_bytes()),
        Err(_) => None,
    }
}

/// Derives the public key with `iroh_base::SecretKey::public`. Not proved: that the result
/// is that crate's public key for the secret bytes.
#[verifier::external_body]
pub(crate) fn derive_public_key(bytes: &[u8; 32]) -> (r: [u8; 32])
    ensures
        r@ == public_key_bytes(bytes@),
{
    *iroh_base::SecretKey::from_bytes(bytes).public().as_bytes()
}

/// Draws a fresh key with `iroh_base::SecretKey::generate` from the operating system's
/// random source. Nothing is claimed of the bytes.
#[verifier::external_body]
pub(crate) fn generate_secret_key() -> [u8; 32] {
    iroh_base::SecretKey::generate(rand::rngs::OsRng).to_bytes()
}

/// A long-term signing key: 32 bytes of entropy. It has no `Debug`, so that it does not
/// end up in a log by accident.
#[derive(Clone, Copy)]
pub struct SecretKey {
    bytes: [u8; 32],
}

/// The public half of a [`SecretKey`]: the node's address.
#[derive(Clone, Copy, Debug)]
pub struct PublicKey {
    bytes: [u8; 32],
}

impl View for SecretKey {
    type V = Seq<u8>;

    closed spec fn view(&self) -> Seq<u8> {
        self.bytes@
    }
}

impl View for PublicKey {
    type V = Seq<u8>;

    closed spec fn view(&self) -> Seq<u8> {
        self.bytes@
    }
}

impl SecretKey {
    /// The key with exactly these bytes.
    pub fn from_bytes(bytes: [u8; 32]) -> (key: SecretKey)
        ensures
            key@ == bytes@,
    {
        SecretKey { bytes }
    }

    /// The key's bytes.
    pub fn to_bytes(&self) -> (bytes: [u8; 32])
        ensures
            bytes@ == self@,
    {
        self.bytes
    }

    /// A fresh key from the operating system's random source.
    pub fn generate() -> (key: SecretKey)
        ensures
            key@.len() == 32,
    {
        SecretKey { bytes: generate_secret_key() }
    }

    /// Reads a key from its printable form; `None` where the text is not one.
    pub fn parse(text: &str) -> (r: Option<SecretKey>)
        ensures
            match r {
                Some(key) => secret_key_parsed(text@) == Some(key@),
                None => secret_key_parsed(text@) is None,
            },
    {
        match parse_secret_key(text) {
            Some(bytes) => Some(SecretKey { bytes }),
            None => None,
        }
    }

    /// The key's printable form, from which `parse` reads the same key.
    pub fn to_text(&self) -> (text: String)
        ensures
            text@ == hex_lower(self@),
            secret_key_parsed(text@) == Some(self@),
    {
        format_secret_key(&self.bytes)
    }

    /// The public key that belongs to this key.
    pub fn public(&self) -> (key: PublicKey)
        ensures
            key@ == public_key_bytes(self@),
    {
        PublicKey { bytes: derive_public_key(&self.bytes) }
    }

    /// Whether two keys hold the same bytes.
    pub fn same(&self, other: &SecretKey) -> (r: bool)
        ensures
            r == (self@ == other@),
    {
        let r = bytes_equal(self.bytes.as_slice(), other.bytes.as_slice());
        r
    }
}

impl PublicKey {
    /// The key's bytes.
    pub fn to_bytes(&self) -> (bytes: [u8; 32])
        ensures
            bytes@ == self@,
    {
        self.bytes
    }
}

/// Whether two byte strings are equal.
pub fn bytes_equal(a: &[u8], b: &[u8]) -> (r: bool)
    ensures
        r == (a@ == b@),
{
    if a.len() != b.len() {
        return false;
    }
    let mut i: usize = 0;
    while i < a.len()
        invariant
            a@.len() == b@.len(),
            i <= a@.len(),
            forall|j: int| 0 <= j < i ==> a@[j] == b@[j],
        decreases a@.len() - i,
    {
        if a[i] != b[i] {
            return false;
        }
        i += 1;
    }
    assert(a@ =~= b@);
    true
}

} // verus!
