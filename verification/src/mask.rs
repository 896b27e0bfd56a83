//! Masks over the rows of a column.
use vstd::prelude::*;

verus! {

/// Which rows of a column are included.
#[derive(Debug, PartialEq, Eq)]
pub enum Mask {
    /// Every one of this many rows.
    AllTrue(usize),
    /// None of this many rows.
    AllFalse(usize),
    /// The rows whose bit is set.
    Values(Vec<bool>),
}

/// The mathematical value of a [`Mask`].
#[verifier::ext_equal]
pub enum MaskView {
    AllTrue(nat),
    AllFalse(nat),
    Values(Seq<bool>),
}

/// Every bit is set.
pub open spec fn all_set(bits: Seq<bool>) -> bool {
    forall|i: int| 0 <= i < bits.len() ==> bits[i]
}

/// No bit is set.
pub open spec fn none_set(bits: Seq<bool>) -> bool {
    forall|i: int| 0 <= i < bits.len() ==> !bits[i]
}

/// The mask that tells which rows of an array are valid, given one bit for each row. An array
/// without rows counts as valid throughout.
pub open spec fn validity_mask(bits: Seq<bool>) -> MaskView {
    if all_set(bits) {
        MaskView::AllTrue(bits.len())
    } else if none_set(bits) {
        MaskView::AllFalse(bits.len())
    } else {
        MaskView::Values(bits)
    }
}

/// The mask that holds the result of a boolean computation. Without rows nothing is included.
pub open spec fn computed_mask(bits: Seq<bool>) -> MaskView {
    if none_set(bits) {
        MaskView::AllFalse(bits.len())
    } else if all_set(bits) {
        MaskView::AllTrue(bits.len())
    } else {
        MaskView::Values(bits)
    }
}

impl MaskView {
    /// The number of rows.
    pub open spec fn len(self) -> nat {
        match self {
            MaskView::AllTrue(len) => len,
            MaskView::AllFalse(len) => len,
            MaskView::Values(bits) => bits.len(),
        }
    }

    /// One bit for each row.
    pub open spec fn bits(self) -> Seq<bool> {
        match self {
            MaskView::AllTrue(len) => Seq::new(len, |i: int| true),
            MaskView::AllFalse(len) => Seq::new(len, |i: int| false),
            MaskView::Values(bits) => bits,
        }
    }
}

impl View for Mask {
    type V = MaskView;

    open spec fn view(&self) -> MaskView {
        match *self {
            Mask::AllTrue(len) => MaskView::AllTrue(len as nat),
            Mask::AllFalse(len) => MaskView::AllFalse(len as nat),
            Mask::Values(bits) => MaskView::Values(bits@),
        }
    }
}

impl Mask {
    /// Whether the row at `index` is included.
    pub fn value(&self, index: usize) -> (set: bool)
        requires
            index < self@.len(),
        ensures
            set == self@.bits()[index as int],
    {
        match self {
            Mask::AllTrue(_) => true,
            Mask::AllFalse(_) => false,
            Mask::Values(bits) => bits[index],
        }
    }
}

impl Clone for Mask {
    fn clone(&self) -> (copy: Self)
        ensures
            copy@ == self@,
    {
        match self {
            Mask::AllTrue(len) => Mask::AllTrue(*len),
            Mask::AllFalse(len) => Mask::AllFalse(*len),
            Mask::Values(bits) => {
                let copy = bits.clone();
                assert(copy@ =~= bits@);
                Mask::Values(copy)
            },
        }
    }
}

/// The mask of a boolean computation has the bits that were computed.
pub broadcast proof fn lemma_computed_mask_bits(bits: Seq<bool>)
    ensures
        #[trigger] computed_mask(bits).bits() == bits,
        computed_mask(bits).len() == bits.len(),
{
    assert(computed_mask(bits).bits() =~= bits);
}

/// The validity mask of an array has the bits of its rows.
pub broadcast proof fn lemma_validity_mask_bits(bits: Seq<bool>)
    ensures
        #[trigger] validity_mask(bits).bits() == bits,
        validity_mask(bits).len() == bits.len(),
{
    assert(validity_mask(bits).bits() =~= bits);
}

} // verus!
