//! The requests that the authentication core makes of the credential
//! repository, and the replies it expects. The repository itself lies outside
//! the library: whoever runs an operation performs each request and hands the
//! reply back.
use vstd::prelude::*;

verus! {

/// A request to the repository.
pub enum Query {
    /// The id of the user with this email, if there is one.
    FindUser { email: String },
    /// The id of the user with this email, created if there is none.
    GetOrInsertUser { email: String },
    /// The stored hash of the credential of a user for an application.
    FindAccess { user_id: i64, application: String },
    /// Whether a user has a credential for an application.
    AccessExists { user_id: i64, application: String },
    /// Stores a new credential; the reply carries its id.
    InsertAccess { user_id: i64, application: String, pwd_hash: String },
    /// Replaces the hash of the credential for an email and an application.
    UpdateAccessHash { email: String, application: String, pwd_hash: String },
}

pub enum QueryModel {
    FindUser { email: Seq<char> },
    GetOrInsertUser { email: Seq<char> },
    FindAccess { user_id: i64, application: Seq<char> },
    AccessExists { user_id: i64, application: Seq<char> },
    InsertAccess { user_id: i64, application: Seq<char>, pwd_hash: Seq<char> },
    UpdateAccessHash { email: Seq<char>, application: Seq<char>, pwd_hash: Seq<char> },
}

impl View for Query {
    type V = QueryModel;

    open spec fn view(&self) -> QueryModel {
        match self {
            Query::FindUser { email } => QueryModel::FindUser { email: email@ },
            Query::GetOrInsertUser { email } => QueryModel::GetOrInsertUser { email: email@ },
            Query::FindAccess { user_id, application } => QueryModel::FindAccess {
                user_id: *user_id,
                application: application@,
            },
            Query::AccessExists { user_id, application } => QueryModel::AccessExists {
                user_id: *user_id,
                application: application@,
            },
            Query::InsertAccess { user_id, application, pwd_hash } => QueryModel::InsertAccess {
                user_id: *user_id,
                application: application@,
                pwd_hash: pwd_hash@,
            },
            Query::UpdateAccessHash { email, application, pwd_hash } =>
                QueryModel::UpdateAccessHash {
                email: email@,
                application: application@,
                pwd_hash: pwd_hash@,
            },
        }
    }
}

/// What the repository answered.
pub enum Reply {
    /// To `FindUser` and `GetOrInsertUser`.
    User(Option<i64>),
    /// To `FindAccess`: the stored hash.
    Access(Option<String>),
    /// To `AccessExists`.
    Exists(bool),
    /// To `InsertAccess`: the id of the new credential.
    Inserted(i64),
    /// To `UpdateAccessHash`.
    Updated,
    /// The repository failed, with its detail.
    Failed(String),
}

pub enum ReplyModel {
    User(Option<i64>),
    Access(Option<Seq<char>>),
    Exists(bool),
    Inserted(i64),
    Updated,
    Failed(Seq<char>),
}

impl View for Reply {
    type V = ReplyModel;

    open spec fn view(&self) -> ReplyModel {
        match self {
            Reply::User(u) => ReplyModel::User(*u),
            Reply::Access(a) => ReplyModel::Access(
                match a {
                    Some(h) => Some(h@),
                    None => None,
                },
            ),
            Reply::Exists(b) => ReplyModel::Exists(*b),
            Reply::Inserted(id) => ReplyModel::Inserted(*id),
            Reply::Updated => ReplyModel::Updated,
            Reply::Failed(m) => ReplyModel::Failed(m@),
        }
    }
}

} // verus!
