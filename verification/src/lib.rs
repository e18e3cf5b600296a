//! Host-side core of a confidential function runtime: the label monitor, the
//! per-session handle tables and the decisions behind every cloud call.
//!
//! A session owns a [`processor::SyscallProcessor`]. The labeled store, the
//! blob store, the scheduler and the network stay outside it. A cloud call
//! that needs one of them goes back and forth:
//!
//! - first a function named `..._plan` decides, from the session and the
//!   request, what is asked of the outside, and makes the checks that must
//!   come before it;
//! - then the caller performs what was decided;
//! - last the function named after the call takes what came of it, changes
//!   the session and gives the reply for the guest.
//!
//! What a step needs to know of stored objects (a label, a listing, the
//! name of a blob) is fetched by the caller and passed in as a plain value.
//! No step fails fatally: every failure is a reply with `success` unset.

pub mod blob;
pub mod create;
pub mod directory;
pub mod failure;
pub mod gate;
pub mod handles;
pub mod interface;
pub mod invoke;
pub mod label;
pub mod monitor;
pub mod objects;
pub mod processor;
pub mod update;
