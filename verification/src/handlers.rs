//! One operation per endpoint: from the body of a request to the body of
//! its response, or to the error that refuses it.

pub mod account;
pub mod health;
pub mod keypair;
pub mod message;
pub mod send;
pub mod token;
