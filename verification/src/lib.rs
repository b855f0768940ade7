//! Codec for the IPv6 fragment extension header.
//!
//! The crate offers three ways to work with the 8-byte fragment header:
//! an owned [`Ipv6FragmentHeader`] with pure encode/decode operations, a
//! borrowed [`Ipv6FragmentHeaderSlice`] that validates the length once and
//! then reads fields straight from the bytes, and a layered error taxonomy
//! ([`err::HeaderSliceError`]) that tells "not enough bytes" apart from
//! "bytes present but invalid".

pub mod decimal;
pub mod err;
pub mod frag_offset;
pub mod ipv6_fragment;

pub use frag_offset::IpFragOffset;
pub use ipv6_fragment::Ipv6FragmentHeader;
pub use ipv6_fragment::Ipv6FragmentHeaderSlice;
