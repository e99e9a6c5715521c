//! What the operations are for, stated over their inputs and results.
//!
//! Each law speaks of what a call answers and leaves, in terms of the values that nginx holds.

pub mod bodies;
pub mod body_reads;
pub mod builders;
pub mod contexts;
pub mod continuations;
pub mod headers;
pub mod messages;
pub mod peer_inits;
pub mod peers;
pub mod refusals;
pub mod requests;
pub mod states;
pub mod subrequests;
pub mod temp_files;
pub mod upstreams;
pub mod values;
pub mod variables;
pub mod views;
