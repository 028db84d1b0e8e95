//! Core engine of a storefront polling and notification tool for registered
//! game accounts: session lifecycle, poll scheduling, offer resolution and
//! webhook message formatting, verified end to end. Network transport,
//! interactive login and relational persistence are collaborators that the
//! caller supplies behind the provider traits.

pub mod account;
pub mod auth;
pub mod catalog;
pub mod clock;
pub mod datastore;
pub mod fragment;
pub mod message;
pub mod models;
pub mod numfmt;
pub mod offers;
pub mod providers;
pub mod schedule;
pub mod session;
pub mod val_store;
pub mod valdata;
