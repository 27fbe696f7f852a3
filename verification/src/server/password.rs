//! Account passwords, hashed with bcrypt by pwhash.

use vstd::prelude::*;
use vstd::string::StrSliceExecFns;

verus! {

/// A password hashed with bcrypt, as account files keep it.
#[derive(Debug, Clone, PartialEq, Eq)]
pub struct Password(pub String);

/// Whether pwhash's bcrypt accepts a password against a hash.
pub uninterp spec fn bcrypt_accepts(password: Seq<char>, hash: Seq<char>) -> bool;

/// Whether every character of a stored hash is printable ASCII or DEL,
/// from U+0020 to U+007F: the characters bcrypt writes a hash with are all
/// of them.
pub open spec fn readable_hash(hash: Seq<char>) -> bool {
    forall|i: int| 0 <= i < hash.len() ==> ' ' <= #[trigger] hash[i] <= '\u{7f}'
}

/// Calls `pwhash::bcrypt::verify`, which hashes the password again with
/// the salt and cost of the hash and compares. The result is named as a
/// function of the password and the hash. The hash must be readable:
/// pwhash decodes the salt with `b as u32 - 0x20` and a table of 96
/// entries, which overflows on a character below U+0020 and indexes past
/// the table on U+0080.
#[verifier::external_body]
fn bcrypt_verify(password: &str, hash: &str) -> (r: bool)
    requires
        readable_hash(hash@),
    ensures
        r == bcrypt_accepts(password@, hash@),
{
    pwhash::bcrypt::verify(password, hash)
}

/// Calls `pwhash::bcrypt::hash`, which salts the password with random bytes
/// and writes the salt and cost into the hash. The contract claims that it
/// returns a hash (in pwhash 1.0.0 its only path returns `Ok`: the salt comes
/// from `OsRng.fill`, and `do_bcrypt` always succeeds), and that
/// `pwhash::bcrypt::verify` accepts the same password against that hash
/// (verify hashes again with the salt and cost read back from the hash and
/// compares), and that the hash is readable: pwhash writes it as `$2b$10$`
/// and the bcrypt base-64 alphabet (`./A-Za-z0-9`). The hash itself depends
/// on the random salt and is not named.
#[verifier::external_body]
fn bcrypt_hash(password: &str) -> (r: Option<String>)
    ensures
        r is Some,
        r matches Some(h) ==> bcrypt_accepts(password@, h@),
        r matches Some(h) ==> readable_hash(h@),
{
    pwhash::bcrypt::hash(password).ok()
}

/// Why a password could not be hashed.
#[derive(Debug, Clone, Copy, PartialEq, Eq, Structural)]
pub enum PasswordError {
    HashFailed,
}

impl Password {
    /// Whether the password typed matches this hash. A hash with a
    /// character outside U+0020 to U+007F is never one that bcrypt wrote, so
    /// it matches no password.
    pub fn verify(&self, password: &str) -> (r: bool)
        ensures
            r == (readable_hash(self.0@) && bcrypt_accepts(password@, self.0@)),
    {
        let hash = self.0.as_str();
        let n = hash.unicode_len();
        let mut i: usize = 0;
        while i < n
            invariant
                n == hash@.len(),
                hash@ == self.0@,
                0 <= i <= n,
                forall|j: int| 0 <= j < i ==> ' ' <= #[trigger] hash@[j] <= '\u{7f}',
            decreases n - i,
        {
            let c = hash.get_char(i);
            if c < ' ' || c > '\u{7f}' {
                return false;
            }
            i = i + 1;
        }
        bcrypt_verify(password, hash)
    }

    /// The hash of a password, with a random salt; hashing always gives a
    /// hash, the hash is readable, and it accepts the password.
    pub fn try_from(value: &str) -> (r: Result<Self, PasswordError>)
        ensures
            r matches Ok(p) && bcrypt_accepts(value@, p.0@) && readable_hash(p.0@),
    {
        match bcrypt_hash(value) {
            Some(hash) => Ok(Self(hash)),
            None => Err(PasswordError::HashFailed),
        }
    }
}

} // verus!
