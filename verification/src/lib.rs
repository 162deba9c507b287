//! A user-record service and a collection of small language examples, all
//! verified.
//!
//! The core is the user store in [`model`]: a single table of user records
//! with a unique-email constraint, server-assigned ids and timestamps, and
//! create/read/update/delete operations whose contracts pin every outcome.
//! [`handler`] adapts each store outcome to a wire status, and [`laws`]
//! proves the properties that tie the operations together. The remaining
//! modules hold small free-standing examples: arithmetic, enums, traits,
//! generics, lifetimes and a boxed list, each with its own contract.

pub mod enums;
pub mod error_handling;
pub mod flow_control;
pub mod functions;
pub mod generics;
pub mod handler;
pub mod laws;
pub mod lifetimes;
pub mod model;
pub mod ownership;
pub mod restaurant;
pub mod smart_pointers;
pub mod structs;
pub mod traits_demo;
