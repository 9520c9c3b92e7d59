//! The repository contract that the core relies on, as a model, and what
//! follows for whole runs of the operations against a repository that keeps it.
use crate::authentication::{
    auth_hashes, auth_next_phase, auth_next_query, auth_outcome, auth_verifies, AuthPhase,
};
use crate::crypto::argon2_verifies;
use crate::registration::{
    reg_next_phase, reg_next_query, reg_outcome, RegistrationOutcome, RegistrationPhase,
};
use crate::repository::{QueryModel, ReplyModel};
use vstd::prelude::*;

verus! {

/// What a repository holds: the id of each user by email, and the stored hash
/// of each credential by user id and application.
pub struct StoreModel {
    pub users: Map<Seq<char>, i64>,
    pub accesses: Map<(i64, Seq<char>), Seq<char>>,
    /// The id that the next new user gets.
    pub next_user_id: i64,
    /// The id that the next new credential gets.
    pub next_access_id: i64,
}

/// User ids are positive, below the next one, and every credential belongs
/// to a user.
pub open spec fn store_wf(s: StoreModel) -> bool {
    &&& 0 < s.next_user_id < i64::MAX
    &&& forall|e: Seq<char>| #[trigger]
        s.users.contains_key(e) ==> 0 < s.users[e] < s.next_user_id
    &&& forall|k: (i64, Seq<char>)| #[trigger]
        s.accesses.contains_key(k) ==> 0 < k.0 < s.next_user_id
}

/// The reply that a repository keeping its contract gives to `q`.
pub open spec fn store_reply(s: StoreModel, q: QueryModel) -> ReplyModel {
    match q {
        QueryModel::FindUser { email } => ReplyModel::User(
            if s.users.contains_key(email) {
                Some(s.users[email])
            } else {
                None
            },
        ),
        QueryModel::GetOrInsertUser { email } => ReplyModel::User(
            Some(
                if s.users.contains_key(email) {
                    s.users[email]
                } else {
                    s.next_user_id
                },
            ),
        ),
        QueryModel::FindAccess { user_id, application } => ReplyModel::Access(
            if s.accesses.contains_key((user_id, application)) {
                Some(s.accesses[(user_id, application)])
            } else {
                None
            },
        ),
        QueryModel::AccessExists { user_id, application } => ReplyModel::Exists(
            s.accesses.contains_key((user_id, application)),
        ),
        QueryModel::InsertAccess { .. } => ReplyModel::Inserted(s.next_access_id),
        QueryModel::UpdateAccessHash { .. } => ReplyModel::Updated,
    }
}

/// What the repository holds after answering `q`.
pub open spec fn store_after(s: StoreModel, q: QueryModel) -> StoreModel {
    match q {
        QueryModel::GetOrInsertUser { email } => if s.users.contains_key(email) {
            s
        } else {
            StoreModel {
                users: s.users.insert(email, s.next_user_id),
                next_user_id: (s.next_user_id + 1) as i64,
                ..s
            }
        },
        QueryModel::InsertAccess { user_id, application, pwd_hash } => StoreModel {
            accesses: s.accesses.insert((user_id, application), pwd_hash),
            next_access_id: (s.next_access_id + 1) as i64,
            ..s
        },
        QueryModel::UpdateAccessHash { email, application, pwd_hash } => if s.users.contains_key(
            email,
        ) && s.accesses.contains_key((s.users[email], application)) {
            StoreModel {
                accesses: s.accesses.insert((s.users[email], application), pwd_hash),
                ..s
            }
        } else {
            s
        },
        _ => s,
    }
}

/// Whether `email` has a credential for `application`.
pub open spec fn has_access(s: StoreModel, email: Seq<char>, application: Seq<char>) -> bool {
    s.users.contains_key(email) && s.accesses.contains_key((s.users[email], application))
}

/// The credential of `email` for `application` exists and `pwd` verifies
/// against its hash.
pub open spec fn credential_matches(
    s: StoreModel,
    email: Seq<char>,
    application: Seq<char>,
    pwd: Seq<char>,
) -> bool {
    has_access(s, email, application) && argon2_verifies(
        pwd,
        s.accesses[(s.users[email], application)],
    )
}

/// The outcome of a whole authentication run against `s`.
pub open spec fn auth_run(
    s: StoreModel,
    email: Seq<char>,
    application: Seq<char>,
    pwd: Seq<char>,
) -> bool {
    let r1 = store_reply(s, QueryModel::FindUser { email });
    let q2 = auth_next_query(AuthPhase::LookupUser, application, r1)->0;
    let r2 = store_reply(s, q2);
    auth_outcome(auth_next_phase(AuthPhase::LookupUser, r1), pwd, r2)
}

/// Decoy hashes made by a whole authentication run whose two replies are
/// `r1` and `r2`.
pub open spec fn auth_run_hashes(r1: ReplyModel, r2: ReplyModel) -> nat {
    auth_hashes(AuthPhase::LookupUser, r1) + auth_hashes(
        auth_next_phase(AuthPhase::LookupUser, r1),
        r2,
    )
}

/// Verifications made by a whole authentication run whose two replies are
/// `r1` and `r2`.
pub open spec fn auth_run_verifies(r1: ReplyModel, r2: ReplyModel) -> nat {
    auth_verifies(AuthPhase::LookupUser, r1) + auth_verifies(
        auth_next_phase(AuthPhase::LookupUser, r1),
        r2,
    )
}

/// Whatever the two replies, an authentication run ends after its second
/// reply, having made two repository round trips (the user lookup, then one
/// credential lookup, real or decoy) and exactly one Argon2 operation: an
/// unknown email, a missing credential and a failed lookup each cost one
/// decoy hash and no verification; a found credential, whether the password
/// is right or wrong, costs one verification and no hash.
pub proof fn lemma_authentication_uniform_work(
    application: Seq<char>,
    r1: ReplyModel,
    r2: ReplyModel,
)
    ensures
        auth_next_query(AuthPhase::LookupUser, application, r1) matches Some(
            QueryModel::FindAccess { .. },
        ),
        auth_next_query(auth_next_phase(AuthPhase::LookupUser, r1), application, r2) is None,
        !(auth_next_phase(AuthPhase::LookupUser, r1) is Finished),
        auth_next_phase(auth_next_phase(AuthPhase::LookupUser, r1), r2) is Finished,
        auth_run_hashes(r1, r2) + auth_run_verifies(r1, r2) == 1,
        !(r1 matches ReplyModel::User(Some(_))) ==> auth_run_hashes(r1, r2) == 1
            && auth_run_verifies(r1, r2) == 0,
        (r1 matches ReplyModel::User(Some(_))) ==> (r2 matches ReplyModel::Access(Some(_))
            <==> auth_run_verifies(r1, r2) == 1),
{
}

/// Against a repository that keeps its contract, authentication succeeds
/// exactly when the email has a credential for the application and the
/// password verifies against its hash. An unknown email, a known email with
/// another application and a wrong password all give `false`, not an error.
pub proof fn lemma_authentication_outcome(
    s: StoreModel,
    email: Seq<char>,
    application: Seq<char>,
    pwd: Seq<char>,
)
    requires
        store_wf(s),
    ensures
        auth_run(s, email, application, pwd) == credential_matches(s, email, application, pwd),
{
    if !s.users.contains_key(email) {
        let k = (crate::authentication::DECOY_USER_ID, application);
        if s.accesses.contains_key(k) {
            assert(0 < k.0);
        }
    }
}

/// Getting or creating a user twice by the same email gives the same id, and
/// the second call changes nothing.
pub proof fn lemma_get_or_create_user_idempotent(s: StoreModel, email: Seq<char>)
    ensures
        ({
            let q = QueryModel::GetOrInsertUser { email };
            let s1 = store_after(s, q);
            &&& store_reply(s1, q) == store_reply(s, q)
            &&& store_after(s1, q) == s1
        }),
{
}

/// The outcome of a whole registration run against `s`, for a password whose
/// hash is `pwd_hash`, and what the repository holds afterwards. A repository
/// that keeps its contract never fails, so the run takes at most three
/// queries.
pub open spec fn reg_run(
    s: StoreModel,
    email: Seq<char>,
    application: Seq<char>,
    pwd_hash: Seq<char>,
) -> (StoreModel, RegistrationOutcome) {
    let p0 = RegistrationPhase::ResolvingUser;
    let q1 = QueryModel::GetOrInsertUser { email };
    let r1 = store_reply(s, q1);
    let s1 = store_after(s, q1);
    let uid = match r1 {
        ReplyModel::User(Some(id)) => id,
        _ => 0,
    };
    let q2 = reg_next_query(p0, 0, application, pwd_hash, r1)->0;
    let r2 = store_reply(s1, q2);
    let s2 = store_after(s1, q2);
    let p1 = reg_next_phase(p0, r1);
    let p2 = reg_next_phase(p1, r2);
    if p2 is Finished {
        (s2, reg_outcome(p1, Seq::empty(), r2))
    } else {
        let q3 = reg_next_query(p1, uid, application, pwd_hash, r2)->0;
        let r3 = store_reply(s2, q3);
        (store_after(s2, q3), reg_outcome(p2, Seq::empty(), r3))
    }
}

/// A first registration for an email and an application succeeds and stores
/// the credential; a second one for the same pair is refused with
/// `AlreadyExists` and changes nothing; one for the same email and another
/// application succeeds.
pub proof fn lemma_registration_conflict(
    s: StoreModel,
    email: Seq<char>,
    application: Seq<char>,
    other_application: Seq<char>,
    h1: Seq<char>,
    h2: Seq<char>,
    h3: Seq<char>,
)
    requires
        store_wf(s),
        application != other_application,
        !has_access(s, email, application),
        !has_access(s, email, other_application),
    ensures
        ({
            let (s1, o1) = reg_run(s, email, application, h1);
            let (s2, o2) = reg_run(s1, email, application, h2);
            let (s3, o3) = reg_run(s1, email, other_application, h3);
            &&& o1 == RegistrationOutcome::Registered(s.next_access_id)
            &&& has_access(s1, email, application)
            &&& s1.accesses[(s1.users[email], application)] == h1
            &&& o2 == RegistrationOutcome::AlreadyExists
            &&& s2 == s1
            &&& o3 is Registered
            &&& has_access(s3, email, other_application)
        }),
{
    let q1 = QueryModel::GetOrInsertUser { email };
    let s1 = store_after(s, q1);
    let uid = s1.users[email];
    if !s.users.contains_key(email) {
        assert(!s.accesses.contains_key((s.next_user_id, application)));
        assert(!s.accesses.contains_key((s.next_user_id, other_application)));
    }
    assert(s1.accesses == s.accesses);
}

/// What the repository holds after a whole rotation run against `s` that
/// stores `new_hash` once the old password has authenticated.
pub open spec fn rot_run(
    s: StoreModel,
    email: Seq<char>,
    application: Seq<char>,
    old_pwd: Seq<char>,
    new_hash: Seq<char>,
) -> StoreModel {
    let r1 = store_reply(s, QueryModel::FindUser { email });
    let q2 = auth_next_query(AuthPhase::LookupUser, application, r1)->0;
    let s2 = store_after(store_after(s, QueryModel::FindUser { email }), q2);
    if auth_run(s, email, application, old_pwd) {
        store_after(s2, QueryModel::UpdateAccessHash { email, application, pwd_hash: new_hash })
    } else {
        s2
    }
}

/// A rotation with a wrong old password leaves the repository as it was. One
/// with the right old password stores a hash of the new password, so that the
/// new password then authenticates.
pub proof fn lemma_rotation(
    s: StoreModel,
    email: Seq<char>,
    application: Seq<char>,
    old_pwd: Seq<char>,
    new_pwd: Seq<char>,
    new_hash: Seq<char>,
)
    requires
        store_wf(s),
        argon2_verifies(new_pwd, new_hash),
    ensures
        !credential_matches(s, email, application, old_pwd) ==> rot_run(
            s,
            email,
            application,
            old_pwd,
            new_hash,
        ) == s,
        credential_matches(s, email, application, old_pwd) ==> auth_run(
            rot_run(s, email, application, old_pwd, new_hash),
            email,
            application,
            new_pwd,
        ),
{
    lemma_authentication_outcome(s, email, application, old_pwd);
    let s1 = rot_run(s, email, application, old_pwd, new_hash);
    if credential_matches(s, email, application, old_pwd) {
        assert(store_wf(s1));
        lemma_authentication_outcome(s1, email, application, new_pwd);
    }
}

} // verus!
