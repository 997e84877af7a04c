//! The actions that touch the host directly.

pub mod fetch_and_unpack_nix;
