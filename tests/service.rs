use authenticator::error::UserServiceError;
use authenticator::repository::{Query, Reply};
use authenticator::service::UserService;
use std::collections::HashMap;

/// An in-memory repository that answers the queries of the core.
struct FakeRepo {
    users: HashMap<String, i64>,
    accesses: HashMap<(i64, String), (i64, String)>,
    next_id: i64,
    fail: bool,
    queries: usize,
}

impl FakeRepo {
    fn new() -> FakeRepo {
        FakeRepo { users: HashMap::new(), accesses: HashMap::new(), next_id: 1, fail: false, queries: 0 }
    }

    fn hash_of(&self, email: &str, application: &str) -> Option<String> {
        let uid = self.users.get(email)?;
        self.accesses.get(&(*uid, application.to_string())).map(|a| a.1.clone())
    }

    fn answer(&mut self, q: Query) -> Reply {
        self.queries += 1;
        if self.fail {
            return Reply::Failed("connection refused".to_string());
        }
        match q {
            Query::FindUser { email } => Reply::User(self.users.get(&email).copied()),
            Query::GetOrInsertUser { email } => {
                if let Some(id) = self.users.get(&email) {
                    return Reply::User(Some(*id));
                }
                let id = self.next_id;
                self.next_id += 1;
                self.users.insert(email, id);
                Reply::User(Some(id))
            }
            Query::FindAccess { user_id, application } => {
                Reply::Access(self.accesses.get(&(user_id, application)).map(|a| a.1.clone()))
            }
            Query::AccessExists { user_id, application } => {
                Reply::Exists(self.accesses.contains_key(&(user_id, application)))
            }
            Query::InsertAccess { user_id, application, pwd_hash } => {
                let id = self.next_id;
                self.next_id += 1;
                self.accesses.insert((user_id, application), (id, pwd_hash));
                Reply::Inserted(id)
            }
            Query::UpdateAccessHash { email, application, pwd_hash } => {
                if let Some(uid) = self.users.get(&email) {
                    if let Some(a) = self.accesses.get_mut(&(*uid, application)) {
                        a.1 = pwd_hash;
                    }
                }
                Reply::Updated
            }
        }
    }
}

fn register(s: &mut UserService, repo: &mut FakeRepo, email: &str, app: &str, pwd: &str) -> Result<i64, UserServiceError> {
    let (mut m, mut q) = s.new_user_access(email, app, pwd)?;
    loop {
        let reply = repo.answer(q);
        match m.resume(reply) {
            Some(next) => q = next,
            None => return m.result,
        }
    }
}

fn authenticate(s: &mut UserService, repo: &mut FakeRepo, email: &str, app: &str, pwd: &str) -> bool {
    let (mut m, mut q) = s.authenticate_user(email, app, pwd);
    loop {
        let reply = repo.answer(q);
        match m.resume(&mut s.crypto_service, reply) {
            Some(next) => q = next,
            None => return m.authenticated,
        }
    }
}

fn rotate(s: &mut UserService, repo: &mut FakeRepo, email: &str, app: &str, old: &str, new: &str) -> Result<(), UserServiceError> {
    let (mut m, mut q) = s.update_user_pwd(email, app, old, new)?;
    loop {
        let reply = repo.answer(q);
        match m.resume(&mut s.crypto_service, reply) {
            Some(next) => q = next,
            None => return m.result,
        }
    }
}

#[test]
fn registration_conflicts_per_application() {
    let mut s = UserService::new();
    let mut repo = FakeRepo::new();
    let id = register(&mut s, &mut repo, "a@a.com", "svc", "Abcdef12").unwrap();
    assert!(id > 0);
    match register(&mut s, &mut repo, "a@a.com", "svc", "Abcdef12") {
        Err(UserServiceError::UserAlreadyExists(e)) => assert_eq!(e, "a@a.com"),
        _ => panic!("expected a conflict"),
    }
    let other = register(&mut s, &mut repo, "a@a.com", "other", "Abcdef12").unwrap();
    assert_ne!(other, id);
    assert_eq!(repo.users.len(), 1);
}

#[test]
fn registration_refuses_weak_password_before_the_repository() {
    let mut s = UserService::new();
    let mut repo = FakeRepo::new();
    assert!(matches!(
        register(&mut s, &mut repo, "a@a.com", "svc", "short1A"),
        Err(UserServiceError::PasswordComplexityNotMet)
    ));
    assert_eq!(repo.queries, 0);
}

#[test]
fn registration_reports_repository_failure() {
    let mut s = UserService::new();
    let mut repo = FakeRepo::new();
    repo.fail = true;
    match register(&mut s, &mut repo, "a@a.com", "svc", "Abcdef12") {
        Err(UserServiceError::DatabaseError(d)) => assert_eq!(d, "connection refused"),
        _ => panic!("expected a database error"),
    }
}

#[test]
fn registration_stores_a_hash_not_the_password() {
    let mut s = UserService::new();
    let mut repo = FakeRepo::new();
    register(&mut s, &mut repo, "a@a.com", "svc", "Abcdef12").unwrap();
    let h = repo.hash_of("a@a.com", "svc").unwrap();
    assert_ne!(h, "Abcdef12");
    assert!(s.crypto_service.verify_hash("Abcdef12", &h));
}

#[test]
fn failed_insert_that_lost_a_race_is_a_conflict() {
    let mut s = UserService::new();
    let mut repo = FakeRepo::new();
    let (mut m, q) = s.new_user_access("a@a.com", "svc", "Abcdef12").unwrap();
    let q = m.resume(repo.answer(q)).unwrap();
    let q = m.resume(repo.answer(q)).unwrap();
    assert!(matches!(q, Query::InsertAccess { .. }));
    // A concurrent registration stores the credential first; our insert fails.
    repo.accesses.insert((1, "svc".to_string()), (99, "x".to_string()));
    let q = m.resume(Reply::Failed("duplicate key".to_string())).unwrap();
    assert!(matches!(q, Query::AccessExists { .. }));
    assert!(m.resume(repo.answer(q)).is_none());
    assert!(matches!(m.result, Err(UserServiceError::UserAlreadyExists(_))));
}

#[test]
fn failed_insert_without_a_race_is_a_database_error() {
    let mut s = UserService::new();
    let mut repo = FakeRepo::new();
    let (mut m, q) = s.new_user_access("a@a.com", "svc", "Abcdef12").unwrap();
    let q = m.resume(repo.answer(q)).unwrap();
    let _ = m.resume(repo.answer(q)).unwrap();
    let q = m.resume(Reply::Failed("disk full".to_string())).unwrap();
    assert!(m.resume(repo.answer(q)).is_none());
    match &m.result {
        Err(UserServiceError::DatabaseError(d)) => assert_eq!(d, "disk full"),
        _ => panic!("expected a database error"),
    }
}

#[test]
fn authentication_outcomes() {
    let mut s = UserService::new();
    let mut repo = FakeRepo::new();
    register(&mut s, &mut repo, "a@a.com", "svc", "Abcdef12").unwrap();
    assert!(!authenticate(&mut s, &mut repo, "b@b.com", "svc", "Abcdef12"));
    assert!(!authenticate(&mut s, &mut repo, "a@a.com", "other", "Abcdef12"));
    assert!(!authenticate(&mut s, &mut repo, "a@a.com", "svc", "Abcdef13"));
    assert!(authenticate(&mut s, &mut repo, "a@a.com", "svc", "Abcdef12"));
}

#[test]
fn authentication_failure_of_repository_is_false() {
    let mut s = UserService::new();
    let mut repo = FakeRepo::new();
    register(&mut s, &mut repo, "a@a.com", "svc", "Abcdef12").unwrap();
    repo.fail = true;
    assert!(!authenticate(&mut s, &mut repo, "a@a.com", "svc", "Abcdef12"));
}

#[test]
fn authentication_takes_the_same_round_trips_on_every_path() {
    let mut s = UserService::new();
    let mut repo = FakeRepo::new();
    register(&mut s, &mut repo, "a@a.com", "svc", "Abcdef12").unwrap();
    let mut counts = Vec::new();
    for (email, app, pwd) in [
        ("nobody@a.com", "svc", "Abcdef12"),
        ("a@a.com", "svc", "Wrong123"),
        ("a@a.com", "other", "Abcdef12"),
        ("a@a.com", "svc", "Abcdef12"),
    ] {
        let before = repo.queries;
        authenticate(&mut s, &mut repo, email, app, pwd);
        counts.push(repo.queries - before);
    }
    assert_eq!(counts, vec![2, 2, 2, 2]);
}

#[test]
fn unknown_email_makes_a_decoy_lookup() {
    let mut s = UserService::new();
    let (mut m, q) = s.authenticate_user("nobody@a.com", "svc", "Abcdef12");
    assert!(matches!(q, Query::FindUser { .. }));
    match m.resume(&mut s.crypto_service, Reply::User(None)) {
        Some(Query::FindAccess { user_id, application }) => {
            assert_eq!(user_id, -1);
            assert_eq!(application, "svc");
        }
        _ => panic!("expected the decoy lookup"),
    }
    assert!(m.resume(&mut s.crypto_service, Reply::Access(None)).is_none());
    assert!(!m.authenticated);
}

#[test]
fn rotation_with_wrong_old_password_changes_nothing() {
    let mut s = UserService::new();
    let mut repo = FakeRepo::new();
    register(&mut s, &mut repo, "a@a.com", "svc", "Abcdef12").unwrap();
    let before = repo.hash_of("a@a.com", "svc");
    assert!(matches!(
        rotate(&mut s, &mut repo, "a@a.com", "svc", "Wrong123", "Newpass99"),
        Err(UserServiceError::AuthenticationFailed)
    ));
    assert_eq!(repo.hash_of("a@a.com", "svc"), before);
}

#[test]
fn rotation_with_right_old_password_switches_passwords() {
    let mut s = UserService::new();
    let mut repo = FakeRepo::new();
    register(&mut s, &mut repo, "a@a.com", "svc", "Abcdef12").unwrap();
    rotate(&mut s, &mut repo, "a@a.com", "svc", "Abcdef12", "Newpass99").unwrap();
    assert!(!authenticate(&mut s, &mut repo, "a@a.com", "svc", "Abcdef12"));
    assert!(authenticate(&mut s, &mut repo, "a@a.com", "svc", "Newpass99"));
}

#[test]
fn rotation_refuses_weak_new_password() {
    let mut s = UserService::new();
    let mut repo = FakeRepo::new();
    assert!(matches!(
        rotate(&mut s, &mut repo, "a@a.com", "svc", "Abcdef12", "weak"),
        Err(UserServiceError::PasswordComplexityNotMet)
    ));
    assert_eq!(repo.queries, 0);
}

#[test]
fn rotation_reports_failed_update() {
    let mut s = UserService::new();
    let mut repo = FakeRepo::new();
    register(&mut s, &mut repo, "a@a.com", "svc", "Abcdef12").unwrap();
    let (mut m, q) = s.update_user_pwd("a@a.com", "svc", "Abcdef12", "Newpass99").unwrap();
    let q = m.resume(&mut s.crypto_service, repo.answer(q)).unwrap();
    let q = m.resume(&mut s.crypto_service, repo.answer(q)).unwrap();
    assert!(matches!(q, Query::UpdateAccessHash { .. }));
    assert!(m.resume(&mut s.crypto_service, Reply::Failed("timeout".to_string())).is_none());
    match &m.result {
        Err(UserServiceError::DatabaseError(d)) => assert_eq!(d, "timeout"),
        _ => panic!("expected a database error"),
    }
}

#[test]
fn get_or_create_user_twice_gives_the_same_id() {
    let mut s = UserService::new();
    let mut repo = FakeRepo::new();
    let (mut m, q) = s.new_user_access("a@a.com", "svc", "Abcdef12").unwrap();
    let first = repo.answer(q);
    let second = repo.answer(Query::GetOrInsertUser { email: "a@a.com".to_string() });
    match (&first, &second) {
        (Reply::User(Some(a)), Reply::User(Some(b))) => assert_eq!(a, b),
        _ => panic!("expected two users"),
    }
    assert!(m.resume(first).is_some());
}

#[test]
fn unexpected_reply_is_a_database_error() {
    let mut s = UserService::new();
    let (mut m, _) = s.new_user_access("a@a.com", "svc", "Abcdef12").unwrap();
    assert!(m.resume(Reply::Updated).is_none());
    match &m.result {
        Err(UserServiceError::DatabaseError(d)) => assert_eq!(d, "unexpected repository reply"),
        _ => panic!("expected a database error"),
    }
}

#[test]
fn failed_access_lookup_is_false() {
    let mut s = UserService::new();
    let (mut m, _) = s.authenticate_user("a@a.com", "svc", "Abcdef12");
    assert!(m.resume(&mut s.crypto_service, Reply::User(Some(3))).is_some());
    assert!(m.resume(&mut s.crypto_service, Reply::Failed("gone".to_string())).is_none());
    assert!(!m.authenticated);
}
