use std::collections::hash_map::DefaultHasher;
use std::hash::Hash;
use std::hash::Hasher;

use etherparse::err::HeaderError;
use etherparse::err::HeaderSliceError;
use etherparse::err::Layer;
use etherparse::err::TruncationError;

#[test]
fn debug() {
    let err = HeaderError::UnexpectedVersion { version_number: 6 };
    assert_eq!(
        format!("Content({:?})", err.clone()),
        format!("{:?}", HeaderSliceError::Content(err))
    );
}

#[test]
fn clone_eq_hash() {
    let err = HeaderSliceError::Content(HeaderError::UnexpectedVersion { version_number: 6 });
    assert_eq!(err, err.clone());
    let hash_a = {
        let mut hasher = DefaultHasher::new();
        err.hash(&mut hasher);
        hasher.finish()
    };
    let hash_b = {
        let mut hasher = DefaultHasher::new();
        err.clone().hash(&mut hasher);
        hasher.finish()
    };
    assert_eq!(hash_a, hash_b);
}

#[test]
fn fmt() {
    assert_eq!(
        "IPv4 Header: Length of the slice (1 bytes/octets) is too small to contain an IPv4 header. The slice must at least contain 2 bytes/octets.",
        HeaderSliceError::Truncation(TruncationError {
            required_len: 2,
            actual_len: 1,
            layer: Layer::Ipv4Header,
            layer_start_offset: 0,
        })
        .description()
    );
    {
        let err = HeaderError::UnexpectedVersion { version_number: 6 };
        assert_eq!(
            err.description(),
            HeaderSliceError::Content(err.clone()).description()
        );
    }
}

#[test]
fn source() {
    assert!(HeaderSliceError::Truncation(TruncationError {
        required_len: 0,
        actual_len: 0,
        layer: Layer::Ipv4Header,
        layer_start_offset: 0,
    })
    .source()
    .is_none());
    assert!(
        HeaderSliceError::Content(HeaderError::UnexpectedVersion { version_number: 6 })
            .source()
            .is_some()
    );
}

#[test]
fn fragment_layer_description() {
    let err = TruncationError {
        required_len: 8,
        actual_len: 3,
        layer: Layer::Ipv6FragHeader,
        layer_start_offset: 0,
    };
    assert_eq!(
        "IPv6 Fragment Header: Length of the slice (3 bytes/octets) is too small to contain an IPv6 fragment header. The slice must at least contain 8 bytes/octets.",
        err.description()
    );
}

#[test]
fn content_description_names_offending_value() {
    let err = HeaderError::UnexpectedVersion { version_number: 6 };
    assert_eq!("Unexpected IP version number '6' (4 was expected).", err.description());
}

#[test]
fn layer_names() {
    assert_eq!("IPv4 Header", Layer::Ipv4Header.name());
    assert_eq!("IPv6 Fragment Header", Layer::Ipv6FragHeader.name());
    assert_eq!("IPv4 header", Layer::Ipv4Header.header_phrase());
    assert_eq!("IPv6 fragment header", Layer::Ipv6FragHeader.header_phrase());
}
