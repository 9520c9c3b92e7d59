//! Salted, memory-hard hashing of credentials, delegated to the argon2 crate.
use argon2::password_hash::rand_core::OsRng;
use argon2::password_hash::{PasswordHash, PasswordHasher, PasswordVerifier, SaltString};
use argon2::Argon2;
use vstd::prelude::*;
use vstd::string::StringSliceAdditionalSpecFns;

verus! {

/// Whether Argon2 with default settings accepts `password` against the PHC
/// string `phc`: the parameters and salt are read from `phc`, the digest is
/// recomputed and compared. A string that does not parse is never accepted.
pub uninterp spec fn argon2_verifies(password: Seq<char>, phc: Seq<char>) -> bool;

/// The largest password, in bytes, that Argon2 takes.
pub const MAX_PASSWORD_BYTES: usize = 0xFFFF_FFFF;

/// How every PHC string made here begins: Argon2id, version 19, and the
/// default cost parameters (19 MiB of memory, two passes, one lane). The
/// salt and the digest follow, each after a `$`.
pub open spec fn phc_prefix() -> Seq<char> {
    "$argon2id$v=19$m=19456,t=2,p=1$"@
}

/// Hashes and verifies credentials with Argon2id at its default parameters.
/// It counts the hashing and the verifying operations it performs, so that
/// callers can state how much Argon2 work each of their paths costs.
#[derive(Clone, Copy)]
pub struct CryptoService {
    hashes: Ghost<nat>,
    verifications: Ghost<nat>,
}

impl CryptoService {
    /// Hashing operations performed so far.
    pub closed spec fn hash_count(&self) -> nat {
        self.hashes@
    }

    /// Verifying operations performed so far.
    pub closed spec fn verify_count(&self) -> nat {
        self.verifications@
    }

    pub fn new() -> (r: CryptoService)
        ensures
            r.hash_count() == 0,
            r.verify_count() == 0,
    {
        CryptoService { hashes: Ghost(0), verifications: Ghost(0) }
    }

    /// Relies on argon2's `PasswordHasher::hash_password` (Argon2id, default
    /// parameters) with a fresh salt from `SaltString::generate(OsRng)`. It
    /// refuses exactly a password over `argon2::MAX_PWD_LEN` bytes. The PHC
    /// string it gives starts with the algorithm, version and parameters, and
    /// verifies the same password through `verify_password`. Two calls on one
    /// password differ in their salt, so nothing more is claimed of the string.
    #[verifier::external_body]
    pub fn hash_str(&mut self, to_hash: &str) -> (r: Option<String>)
        ensures
            final(self).hash_count() == old(self).hash_count() + 1,
            final(self).verify_count() == old(self).verify_count(),
            r is Some <==> to_hash.spec_bytes().len() <= MAX_PASSWORD_BYTES,
            r matches Some(h) ==> argon2_verifies(to_hash@, h@),
            r matches Some(h) ==> h@.len() > phc_prefix().len() && h@.subrange(
                0,
                phc_prefix().len() as int,
            ) == phc_prefix(),
    {
        let salt = SaltString::generate(&mut OsRng);
        Argon2::default().hash_password(to_hash.as_bytes(), &salt).ok().map(|h| h.to_string())
    }

    /// Relies on `PasswordHash::new` to parse the PHC string and on argon2's
    /// `PasswordVerifier::verify_password` to recompute and compare the digest
    /// in constant time. A string that does not parse gives `false`; the parser
    /// refuses at once one that is empty or does not start with `$`.
    #[verifier::external_body]
    pub fn verify_hash(&mut self, to_verify: &str, hash: &str) -> (r: bool)
        ensures
            final(self).verify_count() == old(self).verify_count() + 1,
            final(self).hash_count() == old(self).hash_count(),
            r == argon2_verifies(to_verify@, hash@),
            hash@.len() == 0 || hash@[0] != '$' ==> !r,
    {
        match PasswordHash::new(hash) {
            Ok(parsed) => Argon2::default().verify_password(to_verify.as_bytes(), &parsed).is_ok(),
            Err(_) => false,
        }
    }
}

} // verus!
