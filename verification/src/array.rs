//! Arrays and dictionary-encoded arrays, as the rows that they hold.
use crate::compute::share;
use crate::mask::Mask;
use crate::mask::MaskView;
use std::sync::Arc;
use vortex_error::VortexError;
use vstd::prelude::*;

verus! {

/// The width of the unsigned integers that hold the codes of a dictionary.
#[derive(Debug, Clone, Copy, PartialEq, Eq, Structural)]
pub enum PType {
    U8,
    U16,
    U32,
    U64,
}

impl PType {
    /// The largest code of this width.
    pub open spec fn max_code(self) -> u64 {
        match self {
            PType::U8 => 0xff,
            PType::U16 => 0xffff,
            PType::U32 => 0xffff_ffff,
            PType::U64 => 0xffff_ffff_ffff_ffff,
        }
    }
}

/// A column type of the database, by its number.
#[derive(Debug, Clone, Copy, PartialEq, Eq, Structural)]
pub struct LogicalType {
    pub id: u32,
}

/// How an array holds its rows.
#[derive(Debug)]
pub enum Encoding {
    /// The same scalar in each of `len` rows.
    Constant { scalar: Option<u64>, len: usize },
    /// One entry for each row.
    Rows(Vec<Option<u64>>),
    /// Rows that cannot be computed: whoever tries is told this error.
    Failed(Arc<VortexError>),
}

/// The mathematical value of an [`Encoding`].
#[verifier::ext_equal]
pub enum EncodingView {
    Constant { scalar: Option<u64>, len: nat },
    Rows(Seq<Option<u64>>),
    Failed(Arc<VortexError>),
}

impl EncodingView {
    /// The rows that the array holds. An array that failed holds none.
    pub open spec fn rows(self) -> Seq<Option<u64>> {
        match self {
            EncodingView::Constant { scalar, len } => Seq::new(len, |i: int| scalar),
            EncodingView::Rows(rows) => rows,
            EncodingView::Failed(_) => Seq::empty(),
        }
    }
}

impl View for Encoding {
    type V = EncodingView;

    open spec fn view(&self) -> EncodingView {
        match *self {
            Encoding::Constant { scalar, len } => EncodingView::Constant { scalar, len: len as nat },
            Encoding::Rows(rows) => EncodingView::Rows(rows@),
            Encoding::Failed(error) => EncodingView::Failed(error),
        }
    }
}

/// An array that several columns may share.
///
/// `key` tells two arrays that are alive at the same time apart: it is the address that the array
/// is shared by. `logical_type` is the database's type for the array's scalars, or the error that
/// tells why the database has none. `fill_error` is the error with which the database refuses to
/// fill a dictionary with the array's rows, or `None` where it takes them.
#[derive(Debug)]
pub struct ArrayRef {
    pub key: usize,
    pub logical_type: Result<LogicalType, Arc<VortexError>>,
    pub encoding: Encoding,
    pub fill_error: Option<Arc<VortexError>>,
}

/// The mathematical value of an [`ArrayRef`].
#[verifier::ext_equal]
pub struct ArrayView {
    pub key: usize,
    pub logical_type: Result<LogicalType, Arc<VortexError>>,
    pub encoding: EncodingView,
    pub fill_error: Option<Arc<VortexError>>,
}

impl ArrayView {
    /// The rows that the array holds.
    pub open spec fn rows(self) -> Seq<Option<u64>> {
        self.encoding.rows()
    }
}

impl View for ArrayRef {
    type V = ArrayView;

    open spec fn view(&self) -> ArrayView {
        ArrayView {
            key: self.key,
            logical_type: self.logical_type,
            encoding: self.encoding@,
            fill_error: self.fill_error,
        }
    }
}

impl Clone for ArrayRef {
    fn clone(&self) -> (copy: Self)
        ensures
            copy@ == self@,
    {
        let encoding = match &self.encoding {
            Encoding::Constant { scalar, len } => Encoding::Constant { scalar: *scalar, len: *len },
            Encoding::Rows(rows) => Encoding::Rows(clone_rows(rows)),
            Encoding::Failed(error) => Encoding::Failed(share(error)),
        };
        let logical_type = match &self.logical_type {
            Ok(logical_type) => Ok(*logical_type),
            Err(error) => Err(share(error)),
        };
        let fill_error = match &self.fill_error {
            Some(error) => Some(share(error)),
            None => None,
        };
        ArrayRef { key: self.key, logical_type, encoding, fill_error }
    }
}

/// An array in canonical form.
#[derive(Debug)]
pub struct Canonical {
    pub logical_type: LogicalType,
    pub rows: Vec<Option<u64>>,
}

/// The mathematical value of a [`Canonical`].
#[verifier::ext_equal]
pub struct CanonicalView {
    pub logical_type: LogicalType,
    pub rows: Seq<Option<u64>>,
}

impl View for Canonical {
    type V = CanonicalView;

    open spec fn view(&self) -> CanonicalView {
        CanonicalView { logical_type: self.logical_type, rows: self.rows@ }
    }
}

impl Clone for Canonical {
    fn clone(&self) -> (copy: Self)
        ensures
            copy@ == self@,
    {
        Canonical { logical_type: self.logical_type, rows: clone_rows(&self.rows) }
    }
}

/// A copy of `rows`.
pub(crate) fn clone_rows(rows: &Vec<Option<u64>>) -> (copy: Vec<Option<u64>>)
    ensures
        copy@ == rows@,
{
    let copy = rows.clone();
    assert(copy@ =~= rows@);
    copy
}

/// For each row, whether it is not null.
pub open spec fn validity(rows: Seq<Option<u64>>) -> Seq<bool> {
    Seq::new(rows.len(), |i: int| rows[i] is Some)
}

/// Every code that is not null is the position of one of `len` values.
pub open spec fn in_range(codes: Seq<Option<u64>>, len: nat) -> bool {
    forall|i: int|
        #![trigger codes[i]]
        0 <= i < codes.len() ==> (codes[i] matches Some(code) ==> code < len)
}

/// The value at each code, and null where the code is null.
pub open spec fn taken(values: Seq<Option<u64>>, codes: Seq<Option<u64>>) -> Seq<Option<u64>> {
    Seq::new(
        codes.len(),
        |i: int|
            match codes[i] {
                Some(code) => values[code as int],
                None => None,
            },
    )
}

/// Each element where its bit is set, and null where it is not.
pub open spec fn masked(elements: Seq<u64>, bits: Seq<bool>) -> Seq<Option<u64>> {
    Seq::new(
        elements.len(),
        |i: int|
            if bits[i] {
                Some(elements[i])
            } else {
                None
            },
    )
}

/// Puts the elements and their validity together.
pub fn to_rows(elements: &Vec<u64>, valid: &Vec<bool>) -> (rows: Vec<Option<u64>>)
    requires
        elements@.len() == valid@.len(),
    ensures
        rows@ == masked(elements@, valid@),
{
    let mut rows: Vec<Option<u64>> = Vec::new();
    let len: usize = elements.len();
    for i in 0..len
        invariant
            len == elements@.len(),
            elements@.len() == valid@.len(),
            rows@ == masked(elements@, valid@).take(i as int),
    {
        if valid[i] {
            rows.push(Some(elements[i]));
        } else {
            rows.push(None);
        }
        assert(masked(elements@, valid@).take(i + 1) =~= masked(elements@, valid@).take(
            i as int,
        ).push(masked(elements@, valid@)[i as int]));
    }
    assert(masked(elements@, valid@).take(len as int) =~= masked(elements@, valid@));
    rows
}

/// A vector of integers with a mask that tells which of them are valid.
#[derive(Debug, PartialEq, Eq)]
pub struct PVector {
    pub elements: Vec<u64>,
    pub validity: Mask,
}

/// The mathematical value of a [`PVector`].
#[verifier::ext_equal]
pub struct PVectorView {
    pub elements: Seq<u64>,
    pub validity: MaskView,
}

impl PVectorView {
    /// The mask covers the elements.
    pub open spec fn wf(self) -> bool {
        self.elements.len() == self.validity.len()
    }

    /// The rows that the vector holds.
    pub open spec fn rows(self) -> Seq<Option<u64>> {
        masked(self.elements, self.validity.bits())
    }
}

impl View for PVector {
    type V = PVectorView;

    open spec fn view(&self) -> PVectorView {
        PVectorView { elements: self.elements@, validity: self.validity@ }
    }
}

/// The vector that holds `rows`, with a zero in the place of each null.
pub open spec fn executed(rows: Seq<Option<u64>>) -> PVectorView {
    PVectorView {
        elements: Seq::new(
            rows.len(),
            |i: int|
                match rows[i] {
                    Some(element) => element,
                    None => 0,
                },
        ),
        validity: crate::mask::validity_mask(validity(rows)),
    }
}

impl PVector {
    /// The rows that the vector holds.
    pub fn to_rows(&self) -> (rows: Vec<Option<u64>>)
        requires
            self@.wf(),
        ensures
            rows@ == self@.rows(),
    {
        let mut valid: Vec<bool> = Vec::new();
        let len: usize = self.elements.len();
        for i in 0..len
            invariant
                len == self.elements@.len(),
                self@.wf(),
                valid@.len() == i,
                forall|k: int| 0 <= k < i ==> valid@[k] == self@.validity.bits()[k],
        {
            valid.push(self.validity.value(i));
        }
        let rows = to_rows(&self.elements, &valid);
        assert(rows@ =~= self@.rows());
        rows
    }
}

impl Clone for PVector {
    fn clone(&self) -> (copy: Self)
        ensures
            copy@ == self@,
    {
        let elements = self.elements.clone();
        assert(elements@ =~= self.elements@);
        PVector { elements, validity: self.validity.clone() }
    }
}

/// A dictionary-encoded array: a code for each row, and the array of values that the codes are
/// positions in. A null code is a null row. `codes_error` is the error that executing the codes
/// reports, or `None` where they can be executed.
#[derive(Debug)]
pub struct DictArray {
    pub codes: Vec<Option<u64>>,
    pub codes_error: Option<Arc<VortexError>>,
    pub ptype: PType,
    pub values: ArrayRef,
}

/// The mathematical value of a [`DictArray`].
#[verifier::ext_equal]
pub struct DictView {
    pub codes: Seq<Option<u64>>,
    pub codes_error: Option<Arc<VortexError>>,
    pub ptype: PType,
    pub values: ArrayView,
}

impl DictView {
    /// The codes are of the width that the array names, and are positions of its values.
    pub open spec fn wf(self) -> bool {
        &&& in_range(self.codes, self.values.rows().len())
        &&& forall|i: int|
            #![trigger self.codes[i]]
            0 <= i < self.codes.len() ==> (self.codes[i] matches Some(code) ==> code
                <= self.ptype.max_code())
    }

    /// The rows that the array holds.
    pub open spec fn rows(self) -> Seq<Option<u64>> {
        taken(self.values.rows(), self.codes)
    }
}

impl View for DictArray {
    type V = DictView;

    open spec fn view(&self) -> DictView {
        DictView {
            codes: self.codes@,
            codes_error: self.codes_error,
            ptype: self.ptype,
            values: self.values@,
        }
    }
}

impl DictArray {
    /// Whether every code that is not null is the position of a value.
    pub fn codes_in_range(&self) -> (within: bool)
        ensures
            within == in_range(self@.codes, self@.values.rows().len()),
    {
        let total: usize = match &self.values.encoding {
            Encoding::Constant { len, .. } => *len,
            Encoding::Rows(values) => values.len(),
            Encoding::Failed(_) => 0,
        };
        let len: usize = self.codes.len();
        for i in 0..len
            invariant
                len == self.codes@.len(),
                total == self@.values.rows().len(),
                forall|k: int|
                    #![trigger self@.codes[k]]
                    0 <= k < i ==> (self@.codes[k] matches Some(code) ==> code < total),
        {
            if let Some(code) = self.codes[i] {
                if code >= total as u64 {
                    assert(self@.codes[i as int] == Some(code));
                    return false;
                }
            }
        }
        true
    }

    /// The rows that the array holds.
    pub fn to_canonical(&self) -> (rows: Vec<Option<u64>>)
        requires
            in_range(self@.codes, self@.values.rows().len()),
        ensures
            rows@ == self@.rows(),
    {
        let mut rows: Vec<Option<u64>> = Vec::new();
        let len: usize = self.codes.len();
        for i in 0..len
            invariant
                len == self.codes@.len(),
                in_range(self@.codes, self@.values.rows().len()),
                rows@ =~= self@.rows().take(i as int),
        {
            match self.codes[i] {
                Some(code) => match &self.values.encoding {
                    Encoding::Constant { scalar, .. } => rows.push(*scalar),
                    Encoding::Rows(values) => {
                        let total: usize = values.len();
                        assert(code < total);
                        rows.push(values[code as usize]);
                    },
                    // No code is in range.
                    Encoding::Failed(_) => rows.push(None),
                },
                None => rows.push(None),
            }
        }
        rows
    }
}

/// Executing an array keeps its rows.
pub broadcast proof fn lemma_executed_rows(rows: Seq<Option<u64>>)
    ensures
        #[trigger] executed(rows).rows() == rows,
        executed(rows).wf(),
{
    broadcast use crate::mask::lemma_validity_mask_bits;

    assert(executed(rows).rows() =~= rows);
}

} // verus!
