//! Core of a confidential data-serving gateway built around Arrow Flight:
//! policy documents and their predicates, the attested handshake, bearer-token
//! authorisation, the subject-scoped SQL table store, the asynchronous Flight
//! client facade, and length-delimited frame codecs.

pub mod auth;
pub mod bridge;
pub mod client;
pub mod config;
pub mod frames;
pub mod grpc;
pub mod handshake;
pub mod json;
pub mod module;
pub mod policy;
pub mod predicate;
pub mod report;
pub mod service;
pub mod shared;
pub mod storage;
pub mod util;
pub mod yak;
