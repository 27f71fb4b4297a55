//! An OAuth2 authorization server core: scopes, storage identifiers, the
//! entity model, storage capabilities, the protocol engine and start-up
//! provisioning.

pub mod bootstrap;
pub mod document;
pub mod entity;
pub mod error;
pub mod guid;
pub mod handler;
pub mod partitioned;
pub mod redirect;
pub mod request;
pub mod response;
pub mod scope;
pub mod session;
pub mod storage;
