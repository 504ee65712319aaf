//! Describing memory for a message-passing runtime: predefined and composite
//! datatype descriptors, and buffers that pair an address with a count and a
//! descriptor.
pub mod buffer;
pub mod descriptor;
pub mod user;
