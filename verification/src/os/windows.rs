//! Windows security descriptors.

pub mod sddl;
