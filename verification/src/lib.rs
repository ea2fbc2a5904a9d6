//! Grafter: a portal in front of Keycloak, in which operators propose changes to accounts,
//! admins apply them, and every change is recorded.
//!
//! The library decides and does nothing else. A request is a conversation:
//! [`portal::respond`] takes the request and what came back so far, and says what is needed
//! next or how the request ends. What is needed may be a call to the identity provider or to
//! the storage; [`provider::keycloak`] and [`storage::s3`] hold the same kind of conversation
//! with an HTTP server and with a bucket.
//!
//! Contracts speak of models: the deep view of a value, in which texts are `Seq<char>` and
//! lists are `Seq`. Each step of a conversation has a spec function that says what it asks
//! for and what follows from each reply. What holds of whole requests is proved in [`laws`].

pub mod asks;
pub mod attributes;
pub mod auth;
pub mod config;
pub mod effects;
pub mod error;
pub mod laws;
pub mod lists;
pub mod outside;
pub mod pages;
pub mod portal;
pub mod provider;
pub mod routes;
pub mod script;
pub mod service;
pub mod session;
pub mod storage;
pub mod test_support;
pub mod text;
pub mod time;
