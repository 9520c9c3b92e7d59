//! Registration of a credential for an email and an application.
use crate::crypto::{argon2_verifies, CryptoService, MAX_PASSWORD_BYTES};
use crate::error::UserServiceError;
use crate::policy::{password_ok, validate_pwd};
use crate::repository::{Query, QueryModel, Reply, ReplyModel};
use vstd::prelude::*;
use vstd::string::{StringExecFns, StringSliceAdditionalSpecFns};

verus! {

pub enum RegistrationPhase {
    /// Waiting for the user to be found or created.
    ResolvingUser,
    /// Waiting to learn whether the user has a credential for the application.
    CheckingAccess,
    /// Waiting for the new credential to be stored.
    Inserting,
    /// The insert failed: waiting to learn whether a concurrent registration
    /// stored the credential first.
    Rechecking,
    Finished,
}

/// What a finished registration returns, on the view of its strings.
pub enum RegistrationOutcome {
    Registered(i64),
    AlreadyExists,
    DatabaseError(Seq<char>),
}

/// One run of registration. `UserService::new_user_access` starts it; perform
/// each query it hands out and give the reply to `resume` until it returns
/// `None`; `result` then holds the outcome.
pub struct Registration {
    pub email: String,
    pub application: String,
    /// The hash of the password, computed before any repository access.
    pub pwd_hash: String,
    pub user_id: i64,
    pub phase: RegistrationPhase,
    /// The detail of a failed insert, reported where the recheck finds no
    /// credential.
    pub insert_error: String,
    pub result: Result<i64, UserServiceError>,
}

pub open spec fn error_detail(reply: ReplyModel) -> Seq<char> {
    match reply {
        ReplyModel::Failed(m) => m,
        _ => unexpected_reply_detail(),
    }
}

pub open spec fn unexpected_reply_detail() -> Seq<char> {
    "unexpected repository reply"@
}

/// The phase after `reply` comes in.
pub open spec fn reg_next_phase(phase: RegistrationPhase, reply: ReplyModel) -> RegistrationPhase {
    match (phase, reply) {
        (RegistrationPhase::ResolvingUser, ReplyModel::User(Some(_))) => RegistrationPhase::CheckingAccess,
        (RegistrationPhase::CheckingAccess, ReplyModel::Exists(false)) => RegistrationPhase::Inserting,
        (RegistrationPhase::Inserting, ReplyModel::Failed(_)) => RegistrationPhase::Rechecking,
        _ => RegistrationPhase::Finished,
    }
}

/// The outcome, where the phase after `reply` is `Finished`.
pub open spec fn reg_outcome(
    phase: RegistrationPhase,
    insert_error: Seq<char>,
    reply: ReplyModel,
) -> RegistrationOutcome {
    match (phase, reply) {
        (RegistrationPhase::CheckingAccess, ReplyModel::Exists(true)) => RegistrationOutcome::AlreadyExists,
        (RegistrationPhase::Inserting, ReplyModel::Inserted(id)) => RegistrationOutcome::Registered(id),
        (RegistrationPhase::Rechecking, ReplyModel::Exists(true)) => RegistrationOutcome::AlreadyExists,
        (RegistrationPhase::Rechecking, _) => RegistrationOutcome::DatabaseError(insert_error),
        _ => RegistrationOutcome::DatabaseError(error_detail(reply)),
    }
}

/// Whether `r` is the result that `o` describes for `email`.
pub open spec fn reg_result_is(
    r: Result<i64, UserServiceError>,
    email: Seq<char>,
    o: RegistrationOutcome,
) -> bool {
    match o {
        RegistrationOutcome::Registered(id) => r == Ok::<i64, UserServiceError>(id),
        RegistrationOutcome::AlreadyExists => r matches Err(UserServiceError::UserAlreadyExists(e))
            && e@ == email,
        RegistrationOutcome::DatabaseError(d) => r matches Err(UserServiceError::DatabaseError(m))
            && m@ == d,
    }
}

/// The query handed out after `reply` comes in, for a user id `user_id`
/// learnt so far.
pub open spec fn reg_next_query(
    phase: RegistrationPhase,
    user_id: i64,
    application: Seq<char>,
    pwd_hash: Seq<char>,
    reply: ReplyModel,
) -> Option<QueryModel> {
    match (phase, reply) {
        (RegistrationPhase::ResolvingUser, ReplyModel::User(Some(id))) => Some(
            QueryModel::AccessExists { user_id: id, application },
        ),
        (RegistrationPhase::CheckingAccess, ReplyModel::Exists(false)) => Some(
            QueryModel::InsertAccess { user_id, application, pwd_hash },
        ),
        (RegistrationPhase::Inserting, ReplyModel::Failed(_)) => Some(
            QueryModel::AccessExists { user_id, application },
        ),
        _ => None,
    }
}

fn database_error(reply: Reply) -> (r: UserServiceError)
    ensures
        r matches UserServiceError::DatabaseError(m) && m@ == error_detail(reply@),
{
    match reply {
        Reply::Failed(m) => UserServiceError::DatabaseError(m),
        _ => UserServiceError::DatabaseError(String::from_str("unexpected repository reply")),
    }
}

impl Registration {
    /// Validates the password, hashes it, and hands out the first query,
    /// which finds or creates the user. The password is hashed whatever the
    /// repository holds, so the cost of a registration does not tell whether
    /// the email was known. This is the only hashing of a registration:
    /// `resume` has no hasher to call.
    pub fn start(crypto: &mut CryptoService, email: &str, application: &str, pwd: &str) -> (r:
        Result<(Registration, Query), UserServiceError>)
        ensures
            final(crypto).verify_count() == old(crypto).verify_count(),
            final(crypto).hash_count() == old(crypto).hash_count() + if password_ok(
                pwd.spec_bytes(),
            ) {
                1nat
            } else {
                0nat
            },
            !password_ok(pwd.spec_bytes()) ==> r matches Err(
                UserServiceError::PasswordComplexityNotMet,
            ),
            password_ok(pwd.spec_bytes()) && pwd.spec_bytes().len() <= MAX_PASSWORD_BYTES
                ==> r is Ok,
            r matches Err(e) ==> e is PasswordComplexityNotMet || e is InvalidPassword,
            password_ok(pwd.spec_bytes()) && pwd.spec_bytes().len() > MAX_PASSWORD_BYTES
                ==> r matches Err(UserServiceError::InvalidPassword(_)),
            r matches Ok((m, q)) ==> {
                &&& m.email@ == email@
                &&& m.application@ == application@
                &&& argon2_verifies(pwd@, m.pwd_hash@)
                &&& m.phase is ResolvingUser
                &&& q@ == (QueryModel::GetOrInsertUser { email: email@ })
            },
    {
        validate_pwd(pwd)?;
        match crypto.hash_str(pwd) {
            Some(pwd_hash) => {
                let m = Registration {
                    email: email.to_owned(),
                    application: application.to_owned(),
                    pwd_hash,
                    user_id: 0,
                    phase: RegistrationPhase::ResolvingUser,
                    insert_error: String::new(),
                    result: Ok(0),
                };
                Ok((m, Query::GetOrInsertUser { email: email.to_owned() }))
            },
            None => Err(UserServiceError::InvalidPassword(String::from_str("too long to hash"))),
        }
    }

    /// Takes the reply to the last query and hands out the next one, or
    /// `None` once `result` holds the outcome.
    pub fn resume(&mut self, reply: Reply) -> (next: Option<Query>)
        requires
            !(old(self).phase is Finished),
        ensures
            final(self).email@ == old(self).email@,
            final(self).application@ == old(self).application@,
            final(self).pwd_hash@ == old(self).pwd_hash@,
            final(self).phase == reg_next_phase(old(self).phase, reply@),
            old(self).phase is ResolvingUser ==> (reply@ matches ReplyModel::User(Some(id))
                ==> final(self).user_id == id),
            !(old(self).phase is ResolvingUser) ==> final(self).user_id == old(self).user_id,
            old(self).phase is Inserting ==> (reply@ matches ReplyModel::Failed(d)
                ==> final(self).insert_error@ == d),
            !(old(self).phase is Inserting) ==> final(self).insert_error@
                == old(self).insert_error@,
            final(self).phase is Finished ==> reg_result_is(
                final(self).result,
                old(self).email@,
                reg_outcome(old(self).phase, old(self).insert_error@, reply@),
            ),
            next is Some <==> !(final(self).phase is Finished),
            next matches Some(q) ==> reg_next_query(
                old(self).phase,
                old(self).user_id,
                old(self).application@,
                old(self).pwd_hash@,
                reply@,
            ) == Some(q@),
            next is None ==> reg_next_query(
                old(self).phase,
                old(self).user_id,
                old(self).application@,
                old(self).pwd_hash@,
                reply@,
            ) is None,
    {
        match self.phase {
            RegistrationPhase::ResolvingUser => match reply {
                Reply::User(Some(id)) => {
                    self.user_id = id;
                    self.phase = RegistrationPhase::CheckingAccess;
                    Some(Query::AccessExists { user_id: id, application: self.application.clone() })
                },
                other => self.finish(Err(database_error(other))),
            },
            RegistrationPhase::CheckingAccess => match reply {
                Reply::Exists(false) => {
                    self.phase = RegistrationPhase::Inserting;
                    Some(
                        Query::InsertAccess {
                            user_id: self.user_id,
                            application: self.application.clone(),
                            pwd_hash: self.pwd_hash.clone(),
                        },
                    )
                },
                Reply::Exists(true) => {
                    let e = UserServiceError::UserAlreadyExists(self.email.clone());
                    self.finish(Err(e))
                },
                other => self.finish(Err(database_error(other))),
            },
            RegistrationPhase::Inserting => match reply {
                Reply::Inserted(id) => self.finish(Ok(id)),
                Reply::Failed(m) => {
                    self.insert_error = m;
                    self.phase = RegistrationPhase::Rechecking;
                    Some(
                        Query::AccessExists {
                            user_id: self.user_id,
                            application: self.application.clone(),
                        },
                    )
                },
                other => self.finish(Err(database_error(other))),
            },
            _ => match reply {
                Reply::Exists(true) => {
                    let e = UserServiceError::UserAlreadyExists(self.email.clone());
                    self.finish(Err(e))
                },
                _ => {
                    let e = UserServiceError::DatabaseError(self.insert_error.clone());
                    self.finish(Err(e))
                },
            },
        }
    }

    fn finish(&mut self, result: Result<i64, UserServiceError>) -> (next: Option<Query>)
        ensures
            final(self).email == old(self).email,
            final(self).application == old(self).application,
            final(self).pwd_hash == old(self).pwd_hash,
            final(self).user_id == old(self).user_id,
            final(self).insert_error == old(self).insert_error,
            final(self).phase is Finished,
            final(self).result == result,
            next is None,
    {
        self.phase = RegistrationPhase::Finished;
        self.result = result;
        None
    }
}

} // verus!
