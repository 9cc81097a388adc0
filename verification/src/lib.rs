//! A typed event stream over a kernel input session.
//!
//! The native input layer is driven from outside this crate. What lives here
//! is everything that decides: which native reads make up the decoding of one
//! pending event and when its handle is released, how the values that were
//! read become a typed [`events::Event`], how a session is brought up and torn
//! down again when a step fails, and how the dispatch, fetch and wait cycle of
//! the event stream proceeds.
#![allow(non_camel_case_types)]

pub mod access;
pub mod decode;
pub mod events;
pub mod options;
pub mod protocol;
pub mod raw;
pub mod scalar;
pub mod session;
pub mod source;
pub mod text;
