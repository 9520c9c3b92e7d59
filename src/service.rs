//! The entry points of the authentication core.
use crate::authentication::Authentication;
use crate::crypto::{argon2_verifies, CryptoService, MAX_PASSWORD_BYTES};
use crate::error::UserServiceError;
use crate::policy::password_ok;
use crate::registration::Registration;
use crate::repository::{Query, QueryModel};
use crate::rotation::Rotation;
use vstd::prelude::*;
use vstd::string::StringSliceAdditionalSpecFns;

verus! {

/// Registers, authenticates and rotates credentials. It holds no repository:
/// each operation is a run that hands out the repository queries to perform
/// and takes their replies back.
#[derive(Clone, Copy)]
pub struct UserService {
    pub crypto_service: CryptoService,
}

impl UserService {
    pub fn new() -> (r: UserService)
        ensures
            r.crypto_service.hash_count() == 0,
            r.crypto_service.verify_count() == 0,
    {
        UserService { crypto_service: CryptoService::new() }
    }

    /// Starts registering a credential for `email` and `application`. A
    /// password that meets the rule is hashed exactly once, before any
    /// repository access, and nothing is verified.
    pub fn new_user_access(&mut self, email: &str, application: &str, pwd: &str) -> (r: Result<
        (Registration, Query),
        UserServiceError,
    >)
        ensures
            final(self).crypto_service.verify_count() == old(self).crypto_service.verify_count(),
            final(self).crypto_service.hash_count() == old(self).crypto_service.hash_count()
                + if password_ok(pwd.spec_bytes()) {
                1nat
            } else {
                0nat
            },
            !password_ok(pwd.spec_bytes()) ==> r matches Err(
                UserServiceError::PasswordComplexityNotMet,
            ),
            password_ok(pwd.spec_bytes()) && pwd.spec_bytes().len() <= MAX_PASSWORD_BYTES
                ==> r is Ok,
            r matches Err(e) ==> e is PasswordComplexityNotMet || e is InvalidPassword,
            password_ok(pwd.spec_bytes()) && pwd.spec_bytes().len() > MAX_PASSWORD_BYTES
                ==> r matches Err(UserServiceError::InvalidPassword(_)),
            r matches Ok((m, q)) ==> {
                &&& m.email@ == email@
                &&& m.application@ == application@
                &&& argon2_verifies(pwd@, m.pwd_hash@)
                &&& m.phase is ResolvingUser
                &&& q@ == (QueryModel::GetOrInsertUser { email: email@ })
            },
    {
        Registration::start(&mut self.crypto_service, email, application, pwd)
    }

    /// Starts authenticating `pwd` for `email` and `application`.
    pub fn authenticate_user(&self, email: &str, application: &str, pwd: &str) -> (r: (
        Authentication,
        Query,
    ))
        ensures
            r.0.email@ == email@,
            r.0.application@ == application@,
            r.0.pwd@ == pwd@,
            r.0.phase is LookupUser,
            !r.0.authenticated,
            r.1@ == (QueryModel::FindUser { email: email@ }),
    {
        Authentication::new(email, application, pwd)
    }

    /// Starts replacing the password of the credential for `email` and
    /// `application`.
    pub fn update_user_pwd(&self, email: &str, application: &str, old_pwd: &str, new_pwd: &str) -> (r:
        Result<(Rotation, Query), UserServiceError>)
        ensures
            r is Ok <==> password_ok(new_pwd.spec_bytes()),
            r matches Err(e) ==> e is PasswordComplexityNotMet,
            r matches Ok((m, q)) ==> {
                &&& m.new_pwd@ == new_pwd@
                &&& m.auth.email@ == email@
                &&& m.auth.application@ == application@
                &&& m.auth.pwd@ == old_pwd@
                &&& m.auth.phase is LookupUser
                &&& m.phase is Authenticating
                &&& q@ == (QueryModel::FindUser { email: email@ })
            },
    {
        Rotation::start(email, application, old_pwd, new_pwd)
    }
}

} // verus!
