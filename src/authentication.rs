//! Authentication that takes the same work whether or not the user or the
//! credential exists: every run makes two repository round trips and exactly
//! one hashing operation (a real verification, or a decoy hash whose result is
//! thrown away), so its latency does not tell which branch was taken.
use crate::crypto::{argon2_verifies, CryptoService};
use crate::repository::{Query, QueryModel, Reply, ReplyModel};
use vstd::prelude::*;

verus! {

/// The user id of the decoy credential lookup; the repository never assigns it.
pub const DECOY_USER_ID: i64 = -1;

pub enum AuthPhase {
    /// Waiting for the user lookup.
    LookupUser,
    /// Waiting for the credential lookup of a user that exists.
    LookupAccess,
    /// Waiting for the decoy credential lookup; its reply is ignored.
    DecoyLookup,
    Finished,
}

/// One run of authentication. Start it with `Authentication::new`, perform
/// each query it hands out and give the reply to `resume` until it returns
/// `None`; `authenticated` then holds the outcome.
pub struct Authentication {
    pub email: String,
    pub application: String,
    pub pwd: String,
    pub phase: AuthPhase,
    pub authenticated: bool,
}

/// The phase after `reply` comes in.
pub open spec fn auth_next_phase(phase: AuthPhase, reply: ReplyModel) -> AuthPhase {
    match phase {
        AuthPhase::LookupUser => if reply matches ReplyModel::User(Some(_)) {
            AuthPhase::LookupAccess
        } else {
            AuthPhase::DecoyLookup
        },
        _ => AuthPhase::Finished,
    }
}

/// The query handed out after `reply` comes in: after the user lookup, the
/// credential lookup of that user, or else the same lookup for the decoy id.
pub open spec fn auth_next_query(
    phase: AuthPhase,
    application: Seq<char>,
    reply: ReplyModel,
) -> Option<QueryModel> {
    match phase {
        AuthPhase::LookupUser => Some(
            QueryModel::FindAccess {
                user_id: match reply {
                    ReplyModel::User(Some(id)) => id,
                    _ => DECOY_USER_ID,
                },
                application,
            },
        ),
        _ => None,
    }
}

/// The outcome once `reply` has come in: true only where the credential was
/// found and the password verifies against its hash.
pub open spec fn auth_outcome(phase: AuthPhase, pwd: Seq<char>, reply: ReplyModel) -> bool {
    match (phase, reply) {
        (AuthPhase::LookupAccess, ReplyModel::Access(Some(h))) => argon2_verifies(pwd, h),
        _ => false,
    }
}

/// Verifications of the password performed when `reply` comes in: one where
/// the credential was found.
pub open spec fn auth_verifies(phase: AuthPhase, reply: ReplyModel) -> nat {
    match (phase, reply) {
        (AuthPhase::LookupAccess, ReplyModel::Access(Some(_))) => 1,
        _ => 0,
    }
}

/// Decoy hashes of the password performed when `reply` comes in: one on
/// every path to the end where no verification is made.
pub open spec fn auth_hashes(phase: AuthPhase, reply: ReplyModel) -> nat {
    match phase {
        AuthPhase::LookupUser => 0,
        AuthPhase::LookupAccess => if reply matches ReplyModel::Access(Some(_)) {
            0
        } else {
            1
        },
        _ => 1,
    }
}

impl Authentication {
    pub open spec fn same_request(&self, other: &Authentication) -> bool {
        &&& self.email@ == other.email@
        &&& self.application@ == other.application@
        &&& self.pwd@ == other.pwd@
    }

    /// Starts a run; the first query looks the user up by email.
    pub fn new(email: &str, application: &str, pwd: &str) -> (r: (Authentication, Query))
        ensures
            r.0.email@ == email@,
            r.0.application@ == application@,
            r.0.pwd@ == pwd@,
            r.0.phase is LookupUser,
            !r.0.authenticated,
            r.1@ == (QueryModel::FindUser { email: email@ }),
    {
        let m = Authentication {
            email: email.to_owned(),
            application: application.to_owned(),
            pwd: pwd.to_owned(),
            phase: AuthPhase::LookupUser,
            authenticated: false,
        };
        (m, Query::FindUser { email: email.to_owned() })
    }

    /// Takes the reply to the last query and hands out the next one, or
    /// `None` once the outcome is known. A failed or unexpected reply is
    /// treated as "not found", so that it takes the same work.
    pub fn resume(&mut self, crypto: &mut CryptoService, reply: Reply) -> (next: Option<Query>)
        requires
            !(old(self).phase is Finished),
        ensures
            final(self).same_request(old(self)),
            final(self).phase == auth_next_phase(old(self).phase, reply@),
            final(self).authenticated == auth_outcome(old(self).phase, old(self).pwd@, reply@),
            final(crypto).verify_count() == old(crypto).verify_count() + auth_verifies(
                old(self).phase,
                reply@,
            ),
            final(crypto).hash_count() == old(crypto).hash_count() + auth_hashes(
                old(self).phase,
                reply@,
            ),
            next is Some <==> !(final(self).phase is Finished),
            next matches Some(q) ==> auth_next_query(
                old(self).phase,
                old(self).application@,
                reply@,
            ) == Some(q@),
            next is None ==> auth_next_query(old(self).phase, old(self).application@, reply@)
                is None,
    {
        match self.phase {
            AuthPhase::LookupUser => {
                let user_id = match reply {
                    Reply::User(Some(id)) => {
                        self.phase = AuthPhase::LookupAccess;
                        id
                    },
                    _ => {
                        self.phase = AuthPhase::DecoyLookup;
                        DECOY_USER_ID
                    },
                };
                self.authenticated = false;
                Some(Query::FindAccess { user_id, application: self.application.clone() })
            },
            AuthPhase::LookupAccess => {
                match reply {
                    Reply::Access(Some(hash)) => {
                        self.authenticated = crypto.verify_hash(self.pwd.as_str(), hash.as_str());
                    },
                    _ => {
                        let _ = crypto.hash_str(self.pwd.as_str());
                        self.authenticated = false;
                    },
                }
                self.phase = AuthPhase::Finished;
                None
            },
            _ => {
                let _ = crypto.hash_str(self.pwd.as_str());
                self.authenticated = false;
                self.phase = AuthPhase::Finished;
                None
            },
        }
    }
}

} // verus!
