//! The bodies of the three requests that the service takes.
use vstd::prelude::*;

verus! {

pub struct RegisterAccessRequest {
    pub application: String,
    pub pwd: String,
}

pub struct RegisterUserRequest {
    pub email: String,
    pub access: RegisterAccessRequest,
}

pub struct AuthenticateUserRequest {
    pub email: String,
    pub application: String,
    pub pwd: String,
}

pub struct UpdateUserPasswordRequest {
    pub email: String,
    pub application: String,
    pub old_pwd: String,
    pub new_pwd: String,
}

} // verus!
