//! A cluster controller that mirrors the secret published by a `SharedSecret`
//! into the namespaces of the `SharedSecretRequest`s that ask for it.
//!
//! The crate holds the decisions of the controller as verified state machines:
//! every call to the cluster API is a value that a machine hands out, and every
//! answer is a value handed back to it.

pub mod controller;
