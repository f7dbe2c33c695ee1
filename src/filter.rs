//! Acceptance filters, and the choice of how to admit a set of identifiers
//! within what a transport's hardware filters can express.

use vstd::prelude::*;

use crate::error::Error;
use crate::frame::{Id, MAX_EXTENDED_ID, MAX_STANDARD_ID};

verus! {

/// What a filter says: accept everything, or frames of one identifier
/// format whose identifier agrees with `id` on the bits of `mask`.
pub ghost struct FilterView {
    pub accept_all: bool,
    pub extended: bool,
    pub id: u32,
    pub mask: u32,
}

/// An acceptance filter for one channel.
#[derive(Clone, Copy, Debug)]
pub struct Filter {
    accept_all: bool,
    is_extended: bool,
    id: u32,
    mask: u32,
}

/// The exact-match filter for the standard identifier `id`.
pub open spec fn standard_filter(id: u32) -> FilterView {
    FilterView { accept_all: false, extended: false, id, mask: MAX_STANDARD_ID }
}

/// The exact-match filter for the extended identifier `id`.
pub open spec fn extended_filter(id: u32) -> FilterView {
    FilterView { accept_all: false, extended: true, id, mask: MAX_EXTENDED_ID }
}

impl View for Filter {
    type V = FilterView;

    closed spec fn view(&self) -> FilterView {
        FilterView {
            accept_all: self.accept_all,
            extended: self.is_extended,
            id: self.id,
            mask: self.mask,
        }
    }
}

impl Filter {
    /// The wildcard: every frame passes, whatever its identifier.
    pub fn accept_all() -> (r: Filter)
        ensures
            r@ == (FilterView { accept_all: true, extended: true, id: 0, mask: 0 }),
    {
        Filter { accept_all: true, is_extended: true, id: 0, mask: 0 }
    }

    /// The exact-match filter for `id`, in the format of its tag.
    pub fn new(id: Id) -> (r: Filter)
        ensures
            r@ == (match id {
                Id::Standard(raw) => standard_filter(raw),
                Id::Extended(raw) => extended_filter(raw),
            }),
    {
        match id {
            Id::Standard(raw) => Filter::new_standard(raw),
            Id::Extended(raw) => Filter::new_extended(raw),
        }
    }

    /// The exact-match filter for the standard identifier `id`.
    pub fn new_standard(id: u32) -> (r: Filter)
        ensures
            r@ == standard_filter(id),
    {
        Filter { accept_all: false, is_extended: false, id, mask: MAX_STANDARD_ID }
    }

    /// The exact-match filter for the extended identifier `id`.
    pub fn new_extended(id: u32) -> (r: Filter)
        ensures
            r@ == extended_filter(id),
    {
        Filter { accept_all: false, is_extended: true, id, mask: MAX_EXTENDED_ID }
    }

    /// Replaces the mask and keeps the rest.
    pub fn with_mask(&mut self, mask: u32) -> (r: &mut Self)
        ensures
            r@ == (FilterView { mask, ..old(self)@ }),
            final(self)@ == final(r)@,
    {
        self.mask = mask;
        self
    }

    pub fn is_accept_all(&self) -> (r: bool)
        ensures
            r == self@.accept_all,
    {
        self.accept_all
    }

    pub fn is_extended(&self) -> (r: bool)
        ensures
            r == self@.extended,
    {
        self.is_extended
    }

    pub fn id(&self) -> (r: u32)
        ensures
            r == self@.id,
    {
        self.id
    }

    pub fn mask(&self) -> (r: u32)
        ensures
            r == self@.mask,
    {
        self.mask
    }
}

/// Bitwise AND of all values; all ones for none.
pub open spec fn and_all(ids: Seq<u32>) -> u32
    decreases ids.len(),
{
    if ids.len() == 0 {
        0xFFFF_FFFFu32
    } else {
        and_all(ids.drop_last()) & ids.last()
    }
}

/// Bitwise OR of all values; zero for none.
pub open spec fn or_all(ids: Seq<u32>) -> u32
    decreases ids.len(),
{
    if ids.len() == 0 {
        0u32
    } else {
        or_all(ids.drop_last()) | ids.last()
    }
}

/// How a set of identifiers is admitted.
#[derive(Clone, Debug)]
pub enum FilterPlan {
    /// One exact-match filter per identifier, in the order given.
    List(Vec<Filter>),
    /// One combined filter that admits a superset of the identifiers: the
    /// receiver must still check each identifier it gets.
    Masked(Filter),
}

/// The combined filter for `ids`: the AND of the identifiers as base, their
/// OR as mask.
pub open spec fn combined_filter(ids: Seq<u32>) -> FilterView {
    FilterView { accept_all: false, extended: false, id: and_all(ids), mask: or_all(ids) }
}

/// Chooses how to admit the standard identifiers `ids` on a transport with
/// `slots` discrete filters and, if `mask_supported`, one masked filter: a
/// list when the slots suffice, else the combined filter, else
/// `InsufficientFilterCapacity`.
pub fn negotiate(ids: &[u32], slots: usize, mask_supported: bool) -> (r: Result<
    FilterPlan,
    Error,
>)
    ensures
        slots >= ids@.len() ==> (r matches Ok(FilterPlan::List(v)) && v@.len() == ids@.len() && (
        forall|i: int| 0 <= i < ids@.len() ==> #[trigger] v@[i]@ == standard_filter(ids@[i]))),
        slots < ids@.len() && mask_supported ==> (r matches Ok(FilterPlan::Masked(f)) && f@
            == combined_filter(ids@)),
        slots < ids@.len() && !mask_supported ==> (r matches Err(e)
            && e is InsufficientFilterCapacity),
{
    if slots >= ids.len() {
        let mut v: Vec<Filter> = Vec::new();
        let mut i: usize = 0;
        while i < ids.len()
            invariant
                i <= ids@.len(),
                v@.len() == i,
                forall|j: int| 0 <= j < i ==> #[trigger] v@[j]@ == standard_filter(ids@[j]),
            decreases ids@.len() - i,
        {
            v.push(Filter::new_standard(ids[i]));
            i += 1;
        }
        Ok(FilterPlan::List(v))
    } else if mask_supported {
        let mut base: u32 = 0xFFFF_FFFF;
        let mut mask: u32 = 0;
        let mut i: usize = 0;
        while i < ids.len()
            invariant
                i <= ids@.len(),
                base == and_all(ids@.subrange(0, i as int)),
                mask == or_all(ids@.subrange(0, i as int)),
            decreases ids@.len() - i,
        {
            assert(ids@.subrange(0, i + 1).drop_last() =~= ids@.subrange(0, i as int));
            base = base & ids[i];
            mask = mask | ids[i];
            i += 1;
        }
        assert(ids@.subrange(0, ids@.len() as int) =~= ids@);
        let mut f = Filter::new_standard(base);
        f.with_mask(mask);
        Ok(FilterPlan::Masked(f))
    } else {
        Err(Error::InsufficientFilterCapacity)
    }
}

} // verus!
