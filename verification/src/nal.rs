//! Encoded-output containers: an owned, stable copy of the transient unit
//! batch an encoder hands back.
//!
//! An encoder's output buffers live only until its next call; a `NalData`
//! therefore copies every payload byte into storage of its own, in batch
//! order, and never keeps a reference into the producer's memory. Two
//! containers never share backing storage: each owns its bytes outright.

use vstd::prelude::*;

verus! {

/// The concatenation of a batch of unit payloads, in batch order.
pub open spec fn spec_concat_units(units: Seq<Seq<u8>>) -> Seq<u8>
    decreases units.len(),
{
    if units.len() == 0 {
        Seq::empty()
    } else {
        spec_concat_units(units.drop_last()) + units.last()
    }
}

/// The payload sequences of a batch of owned units.
pub open spec fn spec_unit_views(units: Seq<Vec<u8>>) -> Seq<Seq<u8>> {
    Seq::new(units.len(), |i: int| units[i]@)
}

/// One encoded-data container: an owned byte sequence copied out of a
/// transient unit batch.
pub struct NalData {
    vec: Vec<u8>,
}

impl View for NalData {
    type V = Seq<u8>;

    closed spec fn view(&self) -> Seq<u8> {
        self.vec@
    }
}

impl NalData {
    /// Deep-copies a batch of unit payloads into one owned container,
    /// concatenating them in the order given. The batch is only read; no
    /// reference into it is retained.
    pub fn from_nals(units: &Vec<Vec<u8>>) -> (r: NalData)
        ensures
            r@ == spec_concat_units(spec_unit_views(units@)),
    {
        let ghost vs = spec_unit_views(units@);
        let mut vec: Vec<u8> = Vec::new();
        let mut i: usize = 0;
        while i < units.len()
            invariant
                i <= units@.len(),
                vs == spec_unit_views(units@),
                vs.len() == units@.len(),
                vec@ == spec_concat_units(vs.take(i as int)),
            decreases units@.len() - i,
        {
            vec.extend_from_slice(units[i].as_slice());
            proof {
                assert(vs.take(i + 1).drop_last() =~= vs.take(i as int));
                assert(vs.take(i + 1).last() == units@[i as int]@);
            }
            i += 1;
        }
        proof {
            assert(vs.take(units@.len() as int) =~= vs);
        }
        NalData { vec }
    }

    /// Wraps an already-owned byte sequence.
    pub(crate) fn from_vec(vec: Vec<u8>) -> (r: NalData)
        ensures
            r@ == vec@,
    {
        NalData { vec }
    }

    /// A zero-copy read of the owned bytes.
    pub fn as_bytes(&self) -> (r: &[u8])
        ensures
            r@ == self@,
    {
        self.vec.as_slice()
    }
}

} // verus!
