//! Deterministic bit-pattern generators for memory and storage diagnostics.
//!
//! Two independent pure generators make up the library: a walking-bit
//! generator, where a single set (or clear) bit sweeps back and forth across
//! the word, and an alternating-word generator, which alternates a seed word
//! with its bitwise complement. Each comes in a native 32-bit variant and a
//! legacy 16-bit variant whose words live in the low half of a 32-bit
//! container. Every generator is a pure function of its arguments: the exact
//! value of each output word is pinned down in the contracts.

pub mod alternating;
pub mod walking;

pub use alternating::make_0sfs_data;
pub use alternating::make_0sfs_data16;
pub use alternating::make_as5s_data;
pub use alternating::make_as5s_data16;
pub use alternating::make_xor_data;
pub use alternating::make_xor_data16;
pub use walking::make_walking_bit_data;
pub use walking::make_walking_bit_data16;
