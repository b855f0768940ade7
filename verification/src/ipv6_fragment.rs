//! The IPv6 fragment extension header: owned entity and borrowed slice view.
//!
//! The wire format is 8 bytes, all multi-byte integers big-endian:
//! byte 0 holds the next-header protocol number, byte 1 is reserved,
//! byte 2 and the low five bits of byte 3 hold the 13-bit fragment offset,
//! the top bit of byte 3 is the more-fragments flag (bits 6..5 of byte 3
//! are reserved), and bytes 4..8 hold the 32-bit identification value.
//! Reserved bits are written as zero and ignored on decode.

use vstd::prelude::*;
use vstd::slice::slice_subrange;

use crate::err::HeaderSliceError;
use crate::err::Layer;
use crate::err::TruncationError;
use crate::frag_offset::FRAG_OFFSET_MAX;
use crate::frag_offset::IpFragOffset;

verus! {

/// Serialized length of the fragment header in bytes.
pub const IPV6_FRAGMENT_HEADER_LEN: usize = 8;

/// In byte 2 of the header, the bits that carry offset bits 12..8.
pub const BYTE2_OFFSET_HIGH_MASK: u8 = 0b1111_1000;

/// In byte 2 of the header, the bits that carry offset bits 7..5.
pub const BYTE2_OFFSET_LOW_MASK: u8 = 0b0000_0111;

/// In byte 3 of the header, the bits that carry offset bits 4..0.
pub const BYTE3_OFFSET_MASK: u8 = 0b0001_1111;

/// In byte 3 of the header, the more-fragments flag.
pub const BYTE3_MORE_FRAGMENTS_FLAG: u8 = 0b1000_0000;

/// Every bit of byte 3 that the decoder reads; bits 6..5 are reserved and
/// ignored.
pub const BYTE3_USED_MASK: u8 = 0b1001_1111;

/// After the high offset bits are shifted down from byte 2, the bits that
/// belong to the offset.
pub const OFFSET_HIGH_FROM_BYTE2_MASK: u8 = 0b0001_1111;

/// After the low offset bits are shifted up from byte 2, the bits that
/// belong to the offset.
pub const OFFSET_LOW_FROM_BYTE2_MASK: u8 = 0b1110_0000;

/// Byte 2 of the serialized header: the high five offset bits in bits 7..3
/// and offset bits 7..5 in bits 2..0.
pub open spec fn spec_encode_byte2(fragment_offset: u16) -> u8 {
    ((((fragment_offset >> 8) as u8) << 3) & BYTE2_OFFSET_HIGH_MASK) | (((
    fragment_offset as u8) >> 5) & BYTE2_OFFSET_LOW_MASK)
}

/// Byte 3 of the serialized header: the low five offset bits, and the
/// more-fragments flag in the top bit.
pub open spec fn spec_encode_byte3(fragment_offset: u16, more_fragments: bool) -> u8 {
    ((fragment_offset as u8) & BYTE3_OFFSET_MASK) | (if more_fragments {
        BYTE3_MORE_FRAGMENTS_FLAG
    } else {
        0u8
    })
}

/// The fragment offset read back from bytes 2 and 3 of the serialized
/// header.
pub open spec fn spec_decode_offset(byte2: u8, byte3: u8) -> u16 {
    ((((byte2 >> 3) & OFFSET_HIGH_FROM_BYTE2_MASK) as u16) << 8) | ((((byte2 << 5)
        & OFFSET_LOW_FROM_BYTE2_MASK) | (byte3 & BYTE3_OFFSET_MASK)) as u16)
}

/// The more-fragments flag read back from byte 3 of the serialized header.
pub open spec fn spec_decode_more_fragments(byte3: u8) -> bool {
    (byte3 & BYTE3_MORE_FRAGMENTS_FLAG) != 0
}

/// A 32-bit integer assembled from four bytes in big-endian order.
pub open spec fn spec_u32_from_be_bytes(b0: u8, b1: u8, b2: u8, b3: u8) -> u32 {
    ((b0 as u32) << 24) | ((b1 as u32) << 16) | ((b2 as u32) << 8) | (b3 as u32)
}

/// IPv6 fragment header.
#[derive(Clone, Copy, Debug, PartialEq, Eq, Hash, Structural)]
pub struct Ipv6FragmentHeader {
    /// IP protocol number of the header or transport-layer payload that
    /// follows.
    pub next_header: u8,
    /// Offset of this fragment's payload within the original packet
    /// payload, in units of 8 octets.
    pub fragment_offset: IpFragOffset,
    /// True if more fragment packets will follow; false if this is the
    /// last packet.
    pub more_fragments: bool,
    /// Identification value generated by the source.
    pub identification: u32,
}

/// The 8 serialized bytes of a fragment header.
pub open spec fn spec_encode(h: Ipv6FragmentHeader) -> Seq<u8> {
    seq![
        h.next_header,
        0u8,
        spec_encode_byte2(h.fragment_offset@),
        spec_encode_byte3(h.fragment_offset@, h.more_fragments),
        (h.identification >> 24) as u8,
        (h.identification >> 16) as u8,
        (h.identification >> 8) as u8,
        h.identification as u8,
    ]
}

/// The fragment header decoded from the first 8 of the given bytes.
pub open spec fn spec_decode(bytes: Seq<u8>) -> Ipv6FragmentHeader
    recommends
        bytes.len() >= 8,
{
    Ipv6FragmentHeader {
        next_header: bytes[0],
        fragment_offset: IpFragOffset::spec_new(spec_decode_offset(bytes[2], bytes[3])),
        more_fragments: spec_decode_more_fragments(bytes[3]),
        identification: spec_u32_from_be_bytes(bytes[4], bytes[5], bytes[6], bytes[7]),
    }
}

/// The truncation error reported when fewer than 8 bytes are available at
/// the start of a fragment header.
pub open spec fn spec_truncation(actual_len: nat) -> HeaderSliceError {
    HeaderSliceError::Truncation(
        TruncationError {
            required_len: IPV6_FRAGMENT_HEADER_LEN,
            actual_len: actual_len as usize,
            layer: Layer::Ipv6FragHeader,
            layer_start_offset: 0,
        },
    )
}

impl Ipv6FragmentHeader {
    /// Create a new fragment header with the given field values.
    ///
    /// The offset parameter is already a bounded field, so no input can be
    /// rejected.
    pub fn new(
        next_header: u8,
        fragment_offset: IpFragOffset,
        more_fragments: bool,
        identification: u32,
    ) -> (r: Ipv6FragmentHeader)
        ensures
            r == (Ipv6FragmentHeader { next_header, fragment_offset, more_fragments, identification }),
    {
        Ipv6FragmentHeader { next_header, fragment_offset, more_fragments, identification }
    }

    /// Decode a fragment header from exactly 8 bytes.
    ///
    /// Total: the bit masking structurally guarantees that the extracted
    /// offset fits into 13 bits, and the reserved bits are ignored.
    pub fn decode_from_bytes(bytes: [u8; 8]) -> (r: Ipv6FragmentHeader)
        ensures
            r == spec_decode(bytes@),
    {
        let b2 = bytes[2];
        let b3 = bytes[3];
        let off_hi: u8 = (b2 >> 3) & OFFSET_HIGH_FROM_BYTE2_MASK;
        let off_lo: u8 = ((b2 << 5) & OFFSET_LOW_FROM_BYTE2_MASK) | (b3 & BYTE3_OFFSET_MASK);
        let off: u16 = ((off_hi as u16) << 8) | (off_lo as u16);
        proof {
            assert((((((b2 >> 3) & OFFSET_HIGH_FROM_BYTE2_MASK) as u16) << 8) | ((((b2 << 5)
                & OFFSET_LOW_FROM_BYTE2_MASK) | (b3 & BYTE3_OFFSET_MASK)) as u16))
                <= FRAG_OFFSET_MAX) by (bit_vector);
        }
        Ipv6FragmentHeader {
            next_header: bytes[0],
            fragment_offset: IpFragOffset::new(off),
            more_fragments: (b3 & BYTE3_MORE_FRAGMENTS_FLAG) != 0,
            identification: ((bytes[4] as u32) << 24) | ((bytes[5] as u32) << 16) | ((
            bytes[6] as u32) << 8) | (bytes[7] as u32),
        }
    }

    /// Encode the header as its 8 serialized bytes.
    ///
    /// Total: the offset is a bounded field, so no input can be rejected.
    /// The reserved bits are written as zero.
    pub fn to_bytes(&self) -> (r: [u8; 8])
        ensures
            r@ == spec_encode(*self),
    {
        let fo: u16 = self.fragment_offset.value();
        proof {
            assert(fo >> 8 < 256) by (bit_vector);
        }
        let fo_hi: u8 = (fo >> 8) as u8;
        let fo_lo: u8 = #[verifier::truncate] (fo as u8);
        let id: u32 = self.identification;
        proof {
            assert(id >> 24 < 256) by (bit_vector);
        }
        let r: [u8; 8] = [
            self.next_header,
            0u8,
            ((fo_hi << 3) & BYTE2_OFFSET_HIGH_MASK) | ((fo_lo >> 5) & BYTE2_OFFSET_LOW_MASK),
            (fo_lo & BYTE3_OFFSET_MASK) | (if self.more_fragments {
                BYTE3_MORE_FRAGMENTS_FLAG
            } else {
                0u8
            }),
            (id >> 24) as u8,
            #[verifier::truncate] ((id >> 16) as u8),
            #[verifier::truncate] ((id >> 8) as u8),
            #[verifier::truncate] (id as u8),
        ];
        proof {
            assert(r@ =~= spec_encode(*self));
        }
        r
    }

    /// Decode a fragment header from the start of a slice and return it
    /// together with the unused remainder of the slice.
    ///
    /// Succeeds exactly when the slice holds at least 8 bytes; a shorter
    /// slice is reported as a truncation error carrying both lengths and
    /// the layer.
    pub fn from_slice<'a>(slice: &'a [u8]) -> (r: Result<
        (Ipv6FragmentHeader, &'a [u8]),
        HeaderSliceError,
    >)
        ensures
            slice@.len() >= 8 ==> (r matches Ok(p) && p.0 == spec_decode(slice@) && p.1@
                == slice@.skip(8)),
            slice@.len() < 8 ==> r == Err::<(Ipv6FragmentHeader, &'a [u8]), HeaderSliceError>(
                spec_truncation(slice@.len()),
            ),
    {
        match Ipv6FragmentHeaderSlice::from_slice(slice) {
            Ok(view) => {
                let header = view.to_header();
                let rest = slice_subrange(slice, 8, slice.len());
                proof {
                    assert(header == spec_decode(slice@));
                    assert(rest@ =~= slice@.skip(8));
                }
                Ok((header, rest))
            },
            Err(e) => Err(e),
        }
    }

    /// Decode a fragment header from the start of a slice and return it
    /// together with the unused remainder of the slice.
    ///
    /// Equivalent to [`Ipv6FragmentHeader::from_slice`].
    pub fn read_from_slice<'a>(slice: &'a [u8]) -> (r: Result<
        (Ipv6FragmentHeader, &'a [u8]),
        HeaderSliceError,
    >)
        ensures
            slice@.len() >= 8 ==> (r matches Ok(p) && p.0 == spec_decode(slice@) && p.1@
                == slice@.skip(8)),
            slice@.len() < 8 ==> r == Err::<(Ipv6FragmentHeader, &'a [u8]), HeaderSliceError>(
                spec_truncation(slice@.len()),
            ),
    {
        Ipv6FragmentHeader::from_slice(slice)
    }

    /// Length of the serialized header in bytes.
    pub fn header_len(&self) -> (r: usize)
        ensures
            r == IPV6_FRAGMENT_HEADER_LEN,
    {
        IPV6_FRAGMENT_HEADER_LEN
    }

    /// Whether the fragment header actually fragments the packet payload.
    ///
    /// False exactly when the fragment offset is 0 and the more-fragments
    /// flag is clear: such a header denotes a whole, unfragmented datagram
    /// and must be treated as non-fragmenting even though it is physically
    /// present.
    pub fn is_fragmenting_payload(&self) -> (r: bool)
        ensures
            r == (self.more_fragments || self.fragment_offset@ != 0),
    {
        self.more_fragments || self.fragment_offset.value() != 0
    }
}

/// Borrowed view over the 8 bytes of an IPv6 fragment header.
///
/// The length is validated once, at construction; every accessor then
/// computes its field directly from the borrowed bytes, so fields that are
/// never inspected cost nothing.
#[derive(Clone, Copy, Debug, PartialEq, Eq)]
pub struct Ipv6FragmentHeaderSlice<'a> {
    slice: &'a [u8],
}

impl<'a> View for Ipv6FragmentHeaderSlice<'a> {
    type V = Seq<u8>;

    closed spec fn view(&self) -> Seq<u8> {
        self.slice@
    }
}

impl<'a> Ipv6FragmentHeaderSlice<'a> {
    #[verifier::type_invariant]
    spec fn len_is_fixed(self) -> bool {
        self.slice@.len() == 8
    }

    /// Create a fragment header view borrowing the first 8 bytes of the
    /// given slice.
    ///
    /// Succeeds exactly when the slice holds at least 8 bytes; a shorter
    /// slice is reported as a truncation error carrying both lengths and
    /// the layer.
    pub fn from_slice(slice: &'a [u8]) -> (r: Result<Ipv6FragmentHeaderSlice<'a>, HeaderSliceError>)
        ensures
            slice@.len() >= 8 ==> (r matches Ok(v) && v@ == slice@.subrange(0, 8)),
            slice@.len() < 8 ==> r == Err::<Ipv6FragmentHeaderSlice<'a>, HeaderSliceError>(
                spec_truncation(slice@.len()),
            ),
    {
        if slice.len() < 8 {
            Err(
                HeaderSliceError::Truncation(
                    TruncationError {
                        required_len: IPV6_FRAGMENT_HEADER_LEN,
                        actual_len: slice.len(),
                        layer: Layer::Ipv6FragHeader,
                        layer_start_offset: 0,
                    },
                ),
            )
        } else {
            Ok(Ipv6FragmentHeaderSlice { slice: slice_subrange(slice, 0, 8) })
        }
    }

    /// The borrowed slice holding the serialized fragment header.
    pub fn slice(&self) -> (r: &'a [u8])
        ensures
            r@ == self@,
            r@.len() == 8,
    {
        proof {
            use_type_invariant(self);
        }
        self.slice
    }

    /// IP protocol number of the header or transport-layer payload that
    /// follows.
    pub fn next_header(&self) -> (r: u8)
        ensures
            r == self@[0],
    {
        proof {
            use_type_invariant(self);
        }
        self.slice[0]
    }

    /// Offset of this fragment's payload within the original packet
    /// payload, in units of 8 octets.
    pub fn fragment_offset(&self) -> (r: IpFragOffset)
        ensures
            r == IpFragOffset::spec_new(spec_decode_offset(self@[2], self@[3])),
            r@ == spec_decode_offset(self@[2], self@[3]),
    {
        proof {
            use_type_invariant(self);
        }
        let b2 = self.slice[2];
        let b3 = self.slice[3];
        let off_hi: u8 = (b2 >> 3) & OFFSET_HIGH_FROM_BYTE2_MASK;
        let off_lo: u8 = ((b2 << 5) & OFFSET_LOW_FROM_BYTE2_MASK) | (b3 & BYTE3_OFFSET_MASK);
        let off: u16 = ((off_hi as u16) << 8) | (off_lo as u16);
        proof {
            assert((((((b2 >> 3) & OFFSET_HIGH_FROM_BYTE2_MASK) as u16) << 8) | ((((b2 << 5)
                & OFFSET_LOW_FROM_BYTE2_MASK) | (b3 & BYTE3_OFFSET_MASK)) as u16))
                <= FRAG_OFFSET_MAX) by (bit_vector);
        }
        IpFragOffset::new(off)
    }

    /// True if more fragment packets will follow; false if this is the
    /// last packet.
    pub fn more_fragments(&self) -> (r: bool)
        ensures
            r == spec_decode_more_fragments(self@[3]),
    {
        proof {
            use_type_invariant(self);
        }
        (self.slice[3] & BYTE3_MORE_FRAGMENTS_FLAG) != 0
    }

    /// Identification value generated by the source.
    pub fn identification(&self) -> (r: u32)
        ensures
            r == spec_u32_from_be_bytes(self@[4], self@[5], self@[6], self@[7]),
    {
        proof {
            use_type_invariant(self);
        }
        ((self.slice[4] as u32) << 24) | ((self.slice[5] as u32) << 16) | ((
        self.slice[6] as u32) << 8) | (self.slice[7] as u32)
    }

    /// Whether the fragment header actually fragments the packet payload.
    ///
    /// False exactly when the decoded fragment offset is 0 and the
    /// more-fragments flag is clear.
    pub fn is_fragmenting_payload(&self) -> (r: bool)
        ensures
            r == (spec_decode_more_fragments(self@[3]) || spec_decode_offset(self@[2], self@[3])
                != 0),
    {
        proof {
            use_type_invariant(self);
        }
        let b2 = self.slice[2];
        let b3 = self.slice[3];
        proof {
            assert((b2 != 0 || (b3 & BYTE3_USED_MASK) != 0) == (spec_decode_more_fragments(b3)
                || spec_decode_offset(b2, b3) != 0)) by (bit_vector);
        }
        b2 != 0 || (b3 & BYTE3_USED_MASK) != 0
    }

    /// Decode every field once and copy the results into an owned
    /// [`Ipv6FragmentHeader`].
    pub fn to_header(&self) -> (r: Ipv6FragmentHeader)
        ensures
            r == spec_decode(self@),
    {
        Ipv6FragmentHeader {
            next_header: self.next_header(),
            fragment_offset: self.fragment_offset(),
            more_fragments: self.more_fragments(),
            identification: self.identification(),
        }
    }
}

/// Round trip: decoding the encoding of a valid header gives the header
/// back.  Valid means that the fragment offset fits into its 13 bits,
/// which holds of every offset the bounded field can carry.
pub proof fn lemma_encode_then_decode(h: Ipv6FragmentHeader)
    requires
        h.fragment_offset@ <= FRAG_OFFSET_MAX,
    ensures
        spec_decode(spec_encode(h)) == h,
{
    let fo = h.fragment_offset@;
    let more = h.more_fragments;
    let id = h.identification;
    assert(spec_decode_offset(spec_encode_byte2(fo), spec_encode_byte3(fo, more)) == fo)
        by (bit_vector)
        requires
            fo <= 0x1FFF,
    ;
    assert(spec_decode_more_fragments(spec_encode_byte3(fo, more)) == more) by (bit_vector);
    assert(spec_u32_from_be_bytes(
        (id >> 24) as u8,
        (id >> 16) as u8,
        (id >> 8) as u8,
        id as u8,
    ) == id) by (bit_vector);
    IpFragOffset::lemma_spec_new_of_view(h.fragment_offset);
}

/// Reserved-bit tolerance: two byte sequences that agree on every bit the
/// decoder reads (everything but byte 1 and bits 6..5 of byte 3) decode to
/// identical field values.
pub proof fn lemma_reserved_bits_ignored(a: Seq<u8>, b: Seq<u8>)
    requires
        a.len() >= 8,
        b.len() >= 8,
        a[0] == b[0],
        a[2] == b[2],
        a[3] & BYTE3_USED_MASK == b[3] & BYTE3_USED_MASK,
        a[4] == b[4],
        a[5] == b[5],
        a[6] == b[6],
        a[7] == b[7],
    ensures
        spec_decode(a) == spec_decode(b),
{
    let c = a[2];
    let x = a[3];
    let y = b[3];
    assert(spec_decode_offset(c, x) == spec_decode_offset(c, y) && spec_decode_more_fragments(x)
        == spec_decode_more_fragments(y)) by (bit_vector)
        requires
            x & BYTE3_USED_MASK == y & BYTE3_USED_MASK,
    ;
}

} // verus!
