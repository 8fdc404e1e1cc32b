//! Batches: the encoded units that travel together in one bulk request.

use vstd::prelude::*;

verus! {

/// The bytes of each unit of `units`, in the same order.
pub open spec fn unit_bytes(units: Seq<Vec<u8>>) -> Seq<Seq<u8>> {
    units.map_values(|unit: Vec<u8>| unit@)
}

/// The body of a bulk request for `units`: every unit followed by one line
/// feed, in order.
pub open spec fn join_lines(units: Seq<Seq<u8>>) -> Seq<u8>
    decreases units.len(),
{
    if units.len() == 0 {
        Seq::empty()
    } else {
        join_lines(units.drop_last()) + units.last().push(LINE_FEED)
    }
}

/// The delimiter that ends every unit of a payload.
pub const LINE_FEED: u8 = 10;

/// An ordered group of encoded units that is shipped in a single request.
#[derive(Debug, PartialEq, Eq)]
pub struct Batch {
    pub units: Vec<Vec<u8>>,
}

impl View for Batch {
    type V = Seq<Seq<u8>>;

    open spec fn view(&self) -> Seq<Seq<u8>> {
        unit_bytes(self.units@)
    }
}

/// What a step hands to the transport: the units of the batch it cut, or
/// `None` where it cut none.
pub open spec fn cut(batch: Option<Batch>) -> Option<Seq<Seq<u8>>> {
    match batch {
        Some(batch) => Some(batch@),
        None => None,
    }
}

impl Batch {
    /// How many units the batch holds.
    pub fn len(&self) -> (len: usize)
        ensures
            len == self@.len(),
    {
        self.units.len()
    }

    /// The request body for this batch: its units joined by line feeds, with
    /// one trailing line feed.
    pub fn payload(&self) -> (payload: Vec<u8>)
        ensures
            payload@ == join_lines(self@),
    {
        let mut payload: Vec<u8> = Vec::new();
        let mut i: usize = 0;
        while i < self.units.len()
            invariant
                i <= self.units.len(),
                payload@ == join_lines(self@.take(i as int)),
            decreases self.units.len() - i,
        {
            payload.extend_from_slice(self.units[i].as_slice());
            payload.push(LINE_FEED);
            assert(self@.take(i + 1).drop_last() =~= self@.take(i as int));
            i = i + 1;
        }
        assert(self@.take(self@.len() as int) =~= self@);
        payload
    }
}

} // verus!
