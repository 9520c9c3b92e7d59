//! Rotation of a credential: the old password is authenticated exactly as
//! `Authentication` does it, and only then is the new hash stored.
use crate::authentication::{
    auth_hashes, auth_next_phase, auth_next_query, auth_outcome, auth_verifies, AuthPhase,
    Authentication,
};
use crate::crypto::{argon2_verifies, CryptoService, MAX_PASSWORD_BYTES};
use crate::error::UserServiceError;
use crate::policy::{password_ok, validate_pwd};
use crate::registration::error_detail;
use crate::repository::{Query, QueryModel, Reply};
use vstd::prelude::*;
use vstd::string::{StringExecFns, StringSliceAdditionalSpecFns};
use vstd::utf8::encode_utf8;

verus! {

pub enum RotationPhase {
    /// Authenticating the old password.
    Authenticating,
    /// Waiting for the new hash to be stored.
    Updating,
    Finished,
}

/// One run of a password rotation. `UserService::update_user_pwd` starts it;
/// perform each query it hands out and give the reply to `resume` until it
/// returns `None`; `result` then holds the outcome. Where the credential has
/// gone by the time of the update, the repository changes nothing and the
/// rotation still succeeds.
pub struct Rotation {
    pub new_pwd: String,
    pub auth: Authentication,
    /// The hash of the new password, once computed.
    pub new_hash: String,
    pub phase: RotationPhase,
    pub result: Result<(), UserServiceError>,
}

impl Rotation {
    /// Validates the new password and starts authenticating the old one.
    pub fn start(email: &str, application: &str, old_pwd: &str, new_pwd: &str) -> (r: Result<
        (Rotation, Query),
        UserServiceError,
    >)
        ensures
            r is Ok <==> password_ok(new_pwd.spec_bytes()),
            r matches Err(e) ==> e is PasswordComplexityNotMet,
            r matches Ok((m, q)) ==> {
                &&& m.new_pwd@ == new_pwd@
                &&& m.auth.email@ == email@
                &&& m.auth.application@ == application@
                &&& m.auth.pwd@ == old_pwd@
                &&& m.auth.phase is LookupUser
                &&& m.phase is Authenticating
                &&& q@ == (QueryModel::FindUser { email: email@ })
            },
    {
        validate_pwd(new_pwd)?;
        let (auth, q) = Authentication::new(email, application, old_pwd);
        let m = Rotation {
            new_pwd: new_pwd.to_owned(),
            auth,
            new_hash: String::new(),
            phase: RotationPhase::Authenticating,
            result: Ok(()),
        };
        Ok((m, q))
    }

    /// Takes the reply to the last query and hands out the next one, or
    /// `None` once `result` holds the outcome. The update is handed out only
    /// after the old password has authenticated.
    pub fn resume(&mut self, crypto: &mut CryptoService, reply: Reply) -> (next: Option<Query>)
        requires
            !(old(self).phase is Finished),
            old(self).phase is Authenticating <==> !(old(self).auth.phase is Finished),
        ensures
            final(self).new_pwd@ == old(self).new_pwd@,
            final(self).auth.same_request(&old(self).auth),
            final(self).phase is Authenticating <==> !(final(self).auth.phase is Finished),
            old(self).phase is Authenticating ==> {
                let pre = old(self).auth;
                let post = final(self).auth;
                &&& post.phase == auth_next_phase(pre.phase, reply@)
                &&& post.authenticated == auth_outcome(pre.phase, pre.pwd@, reply@)
                &&& final(crypto).verify_count() == old(crypto).verify_count() + auth_verifies(
                    pre.phase,
                    reply@,
                )
                &&& final(crypto).hash_count() == old(crypto).hash_count() + auth_hashes(
                    pre.phase,
                    reply@,
                ) + if post.phase is Finished && post.authenticated {
                    1nat
                } else {
                    0nat
                }
                &&& final(self).phase is Authenticating ==> (next matches Some(q)
                    && auth_next_query(pre.phase, pre.application@, reply@) == Some(q@))
                &&& post.phase is Finished && !post.authenticated ==> {
                    &&& final(self).phase is Finished
                    &&& final(self).result matches Err(UserServiceError::AuthenticationFailed)
                }
                &&& post.phase is Finished && post.authenticated
                    && encode_utf8(old(self).new_pwd@).len() <= MAX_PASSWORD_BYTES
                    ==> final(self).phase is Updating
                &&& post.phase is Finished && post.authenticated
                    && encode_utf8(old(self).new_pwd@).len() > MAX_PASSWORD_BYTES
                    ==> final(self).phase is Finished && final(self).result is Err
                &&& final(self).phase is Updating ==> {
                    &&& post.authenticated
                    &&& argon2_verifies(old(self).new_pwd@, final(self).new_hash@)
                    &&& (next matches Some(q) && q@ == (QueryModel::UpdateAccessHash {
                        email: pre.email@,
                        application: pre.application@,
                        pwd_hash: final(self).new_hash@,
                    }))
                }
            },
            old(self).phase is Updating ==> {
                &&& final(self).phase is Finished
                &&& final(self).auth == old(self).auth
                &&& final(self).new_hash@ == old(self).new_hash@
                &&& *final(crypto) == *old(crypto)
                &&& reply@ is Updated ==> final(self).result is Ok
                &&& !(reply@ is Updated) ==> (final(self).result matches Err(
                    UserServiceError::DatabaseError(m),
                ) && m@ == error_detail(reply@))
            },
            next is Some <==> !(final(self).phase is Finished),
            (next matches Some(q) && q@ is UpdateAccessHash) ==> final(self).auth.authenticated,
    {
        match self.phase {
            RotationPhase::Authenticating => {
                let next = self.auth.resume(crypto, reply);
                if next.is_some() {
                    return next;
                }
                if !self.auth.authenticated {
                    self.phase = RotationPhase::Finished;
                    self.result = Err(UserServiceError::AuthenticationFailed);
                    return None;
                }
                match crypto.hash_str(self.new_pwd.as_str()) {
                    Some(h) => {
                        self.new_hash = h;
                        self.phase = RotationPhase::Updating;
                        Some(
                            Query::UpdateAccessHash {
                                email: self.auth.email.clone(),
                                application: self.auth.application.clone(),
                                pwd_hash: self.new_hash.clone(),
                            },
                        )
                    },
                    None => {
                        self.phase = RotationPhase::Finished;
                        self.result = Err(
                            UserServiceError::InvalidPassword(String::from_str("too long to hash")),
                        );
                        None
                    },
                }
            },
            _ => {
                self.phase = RotationPhase::Finished;
                self.result = match reply {
                    Reply::Updated => Ok(()),
                    Reply::Failed(m) => Err(UserServiceError::DatabaseError(m)),
                    _ => Err(
                        UserServiceError::DatabaseError(String::from_str("unexpected repository reply")),
                    ),
                };
                None
            },
        }
    }
}

} // verus!
