//! Antigen signing and self / non-self recognition.
//!
//! A species identity owns an elliptic-curve key pair whose strength follows
//! its category. It signs sets of protein markers into antigens; a verifier
//! holding the public key decides whether a presented antigen is genuine, and
//! a classifier then decides whether its proteins are recognised as self.

pub mod error;
pub mod codec;
pub mod entropy;
pub mod curves;
pub mod identity;
pub mod antigen;
pub mod laws;
