//! Registration of users: a name and a password come in; the name must be
//! free, the password is hashed with Argon2id, a row is stored, read back
//! and shown to the caller without its digest.
//!
//! The library decides and computes; it does not talk to the store. A
//! [`services::users::Registration`] says which call it waits for, takes the
//! answer and says what comes next, so that whoever holds the store makes
//! the calls. [`services::runs`] states what holds of every such exchange.

pub mod database;
pub mod decimal;
pub mod entities;
pub mod handlers;
pub mod models;
pub mod repositories;
pub mod services;
pub mod setting;
pub mod views;
