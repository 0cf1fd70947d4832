//! An access gateway's decision logic: the ordered, first-match policy
//! engine, the decision service that applies it to resolved identities, and
//! the steps by which an enforcement point acts on its answers.

pub mod config;
pub mod cookie;
pub mod enforce;
pub mod policy;
pub mod service;
pub mod text;
