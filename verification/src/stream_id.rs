//! Identifiers of the transport's streams.

use vstd::prelude::*;

verus! {

/// The largest legal stream identifier: 2^62 - 1.
pub const MAX_STREAM_ID: u64 = 0x3fff_ffff_ffff_ffff;

/// The identifier of one stream: a number of at most `MAX_STREAM_ID`.
#[derive(Clone, Copy, Debug, PartialEq, Eq)]
pub struct StreamId {
    value: u64,
}

impl View for StreamId {
    type V = nat;

    closed spec fn view(&self) -> nat {
        self.value as nat
    }
}

impl StreamId {
    #[verifier::type_invariant]
    spec fn in_range(self) -> bool {
        self.value <= MAX_STREAM_ID
    }

    /// The stream identifier `value`, or `None` where `value` is out of
    /// range.
    pub fn from_u64(value: u64) -> (r: Option<StreamId>)
        ensures
            value <= MAX_STREAM_ID ==> r.is_some() && r.unwrap()@ == value,
            value > MAX_STREAM_ID ==> r.is_none(),
    {
        if value <= MAX_STREAM_ID {
            Some(StreamId { value })
        } else {
            None
        }
    }

    /// The identifier as a number.
    pub fn into_inner(self) -> (r: u64)
        ensures
            r == self@,
            r <= MAX_STREAM_ID,
    {
        proof {
            use_type_invariant(&self);
        }
        self.value
    }
}

} // verus!
