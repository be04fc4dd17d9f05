//! Credential authentication and stateless session tokens.
//!
//! The library verifies submitted credentials against stored identities,
//! issues signed, time-bounded bearer tokens, and validates those tokens to
//! recover the authenticated identity for protected requests. Identities
//! live in a store behind the [`repo::IUserRepo`] contract; passwords are
//! checked against salted one-way hashes; possession of a validly signed,
//! unexpired token is the sole authorization proof.

pub mod auth_service;
pub mod entities;
pub mod hasher;
pub mod strutil;
pub mod repo;
pub mod token;
pub mod user_service;
