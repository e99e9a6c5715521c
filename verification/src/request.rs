//! Checked request views and the operations on them.

pub mod body;
pub mod body_headers;
pub mod client_body;
pub mod context;
pub mod context_soundness;
pub mod continuation;
pub mod header_access;
pub mod header_builders;
pub mod header_list;
pub mod header_slots;
pub mod headers;
pub mod method;
pub mod shown;
pub mod temp_file;
pub mod view;
