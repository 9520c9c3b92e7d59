//! The authentication core of a credential service: per-application
//! credentials of email-identified users are registered, authenticated and
//! rotated. Passwords must meet a complexity rule and are stored as salted
//! Argon2id hashes. Authentication performs the same work whether or not the
//! user or the credential exists, so its latency does not reveal which emails
//! are registered.
//!
//! The core makes no repository calls itself: each operation is a run that
//! hands out the repository queries to perform and takes the replies back.

pub mod authentication;
pub mod config;
pub mod crypto;
pub mod dto;
pub mod error;
pub mod laws;
pub mod policy;
pub mod registration;
pub mod repository;
pub mod rotation;
pub mod service;
