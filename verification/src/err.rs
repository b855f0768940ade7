//! Error taxonomy shared by every slice-based decode entry point.
//!
//! A decode either runs out of bytes ([`TruncationError`]) or meets bytes
//! whose content is invalid for the protocol ([`HeaderError`]).  The union
//! [`HeaderSliceError`] carries one of the two, so that every decode entry
//! point reports failures in the same shape.

use vstd::prelude::*;
use vstd::string::StringExecFns;

use crate::decimal::decimal_string;
use crate::decimal::spec_decimal;

verus! {

/// Protocol header that was being decoded when an error occurred.
///
/// The tag is copied into every [`TruncationError`] so that diagnostics can
/// name the exact layer of the packet stack that ran out of bytes.
#[derive(Clone, Copy, Debug, PartialEq, Eq, Hash, Structural)]
pub enum Layer {
    /// IPv4 header.
    Ipv4Header,
    /// IPv6 fragment extension header.
    Ipv6FragHeader,
}

/// The display name of a layer.
pub open spec fn spec_layer_name(layer: Layer) -> Seq<char> {
    match layer {
        Layer::Ipv4Header => "IPv4 Header"@,
        Layer::Ipv6FragHeader => "IPv6 Fragment Header"@,
    }
}

/// The phrase naming a layer's header in running text.
pub open spec fn spec_layer_header_phrase(layer: Layer) -> Seq<char> {
    match layer {
        Layer::Ipv4Header => "IPv4 header"@,
        Layer::Ipv6FragHeader => "IPv6 fragment header"@,
    }
}

impl Layer {
    /// The display name of the layer.
    pub fn name(&self) -> (r: &'static str)
        ensures
            r@ == spec_layer_name(*self),
    {
        match self {
            Layer::Ipv4Header => "IPv4 Header",
            Layer::Ipv6FragHeader => "IPv6 Fragment Header",
        }
    }

    /// The phrase naming the layer's header in running text.
    pub fn header_phrase(&self) -> (r: &'static str)
        ensures
            r@ == spec_layer_header_phrase(*self),
    {
        match self {
            Layer::Ipv4Header => "IPv4 header",
            Layer::Ipv6FragHeader => "IPv6 fragment header",
        }
    }
}

/// Error when a slice or limited stream holds fewer bytes than the header
/// requires.
///
/// Truncation is recoverable for the caller (wait for more data or report
/// "packet too short"); nothing beneath "not enough bytes" exists to chain
/// to, so this error is a leaf without a nested cause.
#[derive(Clone, Copy, Debug, PartialEq, Eq, Hash, Structural)]
pub struct TruncationError {
    /// Minimum number of bytes the decoder required.
    pub required_len: usize,
    /// Number of bytes that were actually present.
    pub actual_len: usize,
    /// Layer that was being decoded when the bytes ran out.
    pub layer: Layer,
    /// Offset of the start of that layer within the overall buffer or
    /// stream.
    pub layer_start_offset: usize,
}

/// The diagnostic text of a truncation error: the layer name and both the
/// required and the actual byte count.
pub open spec fn spec_truncation_description(e: TruncationError) -> Seq<char> {
    spec_layer_name(e.layer) + ": Length of the slice ("@ + spec_decimal(e.actual_len as nat)
        + " bytes/octets) is too small to contain an "@ + spec_layer_header_phrase(e.layer)
        + ". The slice must at least contain "@ + spec_decimal(e.required_len as nat)
        + " bytes/octets."@
}

impl TruncationError {
    /// Render the error for reporting: the layer name and both the
    /// required and the actual byte count.
    pub fn description(&self) -> (r: String)
        ensures
            r@ == spec_truncation_description(*self),
    {
        let mut s = String::new();
        s.append(self.layer.name());
        s.append(": Length of the slice (");
        s.append(decimal_string(self.actual_len as u64).as_str());
        s.append(" bytes/octets) is too small to contain an ");
        s.append(self.layer.header_phrase());
        s.append(". The slice must at least contain ");
        s.append(decimal_string(self.required_len as u64).as_str());
        s.append(" bytes/octets.");
        proof {
            assert(s@ =~= spec_truncation_description(*self));
        }
        s
    }
}

/// Content error: the bytes were present but their values are invalid for
/// the protocol.  A closed set of per-protocol violations, each carrying
/// the offending value.
#[derive(Clone, Copy, Debug, PartialEq, Eq, Hash, Structural)]
pub enum HeaderError {
    /// The version field of an IPv4 header held something other than 4.
    UnexpectedVersion {
        /// The version number found in the header.
        version_number: u8,
    },
}

/// The diagnostic text of a content error, naming the violation and the
/// offending value.
pub open spec fn spec_header_error_description(e: HeaderError) -> Seq<char> {
    match e {
        HeaderError::UnexpectedVersion { version_number } => "Unexpected IP version number '"@
            + spec_decimal(version_number as nat) + "' (4 was expected)."@,
    }
}

impl HeaderError {
    /// Render the error for reporting: the violation and the offending
    /// value.
    pub fn description(&self) -> (r: String)
        ensures
            r@ == spec_header_error_description(*self),
    {
        match self {
            HeaderError::UnexpectedVersion { version_number } => {
                let mut s = String::new();
                s.append("Unexpected IP version number '");
                s.append(decimal_string(*version_number as u64).as_str());
                s.append("' (4 was expected).");
                proof {
                    assert(s@ =~= spec_header_error_description(*self));
                }
                s
            },
        }
    }
}

/// The diagnostic text of a slice-decode error.  Truncation errors render
/// the layer name and both byte counts; content errors delegate their
/// rendering to the specific violation.
pub open spec fn spec_slice_error_description(e: HeaderSliceError) -> Seq<char> {
    match e {
        HeaderSliceError::Truncation(t) => spec_truncation_description(t),
        HeaderSliceError::Content(c) => spec_header_error_description(c),
    }
}

/// Error of a slice-based decode entry point: either the slice was too
/// short, or its content was invalid.
#[derive(Clone, Copy, Debug, PartialEq, Eq, Hash, Structural)]
pub enum HeaderSliceError {
    /// The slice held fewer bytes than the header requires.
    Truncation(TruncationError),
    /// The slice was long enough but its content was invalid.
    Content(HeaderError),
}

impl HeaderSliceError {
    /// Render the error for reporting.  A truncation renders the layer
    /// name and both byte counts; a content error renders its violation.
    pub fn description(&self) -> (r: String)
        ensures
            r@ == spec_slice_error_description(*self),
    {
        match self {
            HeaderSliceError::Truncation(t) => t.description(),
            HeaderSliceError::Content(c) => c.description(),
        }
    }

    /// The nested cause of the error: the content violation, if there is
    /// one.  Truncation errors are leaves and have no cause.
    pub fn source(&self) -> (r: Option<&HeaderError>)
        ensures
            r is Some <==> self is Content,
            self matches HeaderSliceError::Content(c) ==> (r matches Some(e) && *e == c),
    {
        match self {
            HeaderSliceError::Truncation(_) => None,
            HeaderSliceError::Content(e) => Some(e),
        }
    }
}

/// Error when a value handed to a checked constructor exceeds the legal
/// bit width of the protocol field.
#[derive(Clone, Copy, Debug, PartialEq, Eq, Hash, Structural)]
pub struct ValueTooBigError {
    /// The value that was handed in.
    pub actual: u16,
    /// The largest value the field can carry.
    pub max_allowed: u16,
}

} // verus!
