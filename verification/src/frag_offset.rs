//! Bounded numeric field for the 13-bit fragment offset.

use vstd::prelude::*;

use crate::err::ValueTooBigError;

verus! {

/// Largest value the 13-bit fragment offset field can carry.
pub const FRAG_OFFSET_MAX: u16 = 0x1FFF;

/// Offset of a fragment's payload relative to the start of the original,
/// unfragmented packet payload, in units of 8 octets.
///
/// Only 13 bits are available in the serialized header, so a value of this
/// type never exceeds [`FRAG_OFFSET_MAX`].  The bound is an invariant of
/// the type: the checked constructor [`IpFragOffset::try_new`] rejects
/// larger values, and [`IpFragOffset::new`] demands a proof that its
/// argument is in range.
#[derive(Clone, Copy, Debug, PartialEq, Eq, PartialOrd, Ord, Hash, Structural)]
pub struct IpFragOffset {
    value: u16,
}

impl View for IpFragOffset {
    type V = u16;

    closed spec fn view(&self) -> u16 {
        self.value
    }
}

impl IpFragOffset {
    #[verifier::type_invariant]
    spec fn bounded(self) -> bool {
        self.value <= FRAG_OFFSET_MAX
    }

    /// The offset holding `value`, in spec form.
    pub closed spec fn spec_new(value: u16) -> IpFragOffset {
        IpFragOffset { value }
    }

    /// Create an offset from a value that is proven to be in range.
    pub fn new(value: u16) -> (r: IpFragOffset)
        requires
            value <= FRAG_OFFSET_MAX,
        ensures
            r == IpFragOffset::spec_new(value),
            r@ == value,
    {
        IpFragOffset { value }
    }

    /// Create an offset from an arbitrary value, rejecting values that do
    /// not fit into 13 bits.
    pub fn try_new(value: u16) -> (r: Result<IpFragOffset, ValueTooBigError>)
        ensures
            value <= FRAG_OFFSET_MAX ==> r == Ok::<IpFragOffset, ValueTooBigError>(
                IpFragOffset::spec_new(value),
            ),
            value > FRAG_OFFSET_MAX ==> r == Err::<IpFragOffset, ValueTooBigError>(
                (ValueTooBigError { actual: value, max_allowed: FRAG_OFFSET_MAX }),
            ),
    {
        if value <= FRAG_OFFSET_MAX {
            Ok(IpFragOffset { value })
        } else {
            Err(ValueTooBigError { actual: value, max_allowed: FRAG_OFFSET_MAX })
        }
    }

    /// The underlying integer value.
    pub fn value(&self) -> (r: u16)
        ensures
            r == self@,
            r <= FRAG_OFFSET_MAX,
    {
        proof {
            use_type_invariant(self);
        }
        self.value
    }

    /// [`IpFragOffset::spec_new`] holds exactly the value it was given.
    pub proof fn lemma_spec_new_view(value: u16)
        ensures
            IpFragOffset::spec_new(value)@ == value,
    {
    }

    /// Rebuilding an offset from its own value gives the offset back.
    pub proof fn lemma_spec_new_of_view(a: IpFragOffset)
        ensures
            IpFragOffset::spec_new(a@) == a,
    {
    }
}

} // verus!
