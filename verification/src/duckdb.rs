//! The database's side of an export: the vectors that receive exported rows.
use crate::array::LogicalType;
use crate::array::clone_rows;
use crate::compute::share;
use crate::exporter::ExportError;
use crate::exporter::new_array_exporter;
use std::sync::Arc;
use vortex_error::VortexError;
use vstd::prelude::*;

verus! {

/// A dictionary that is filled once and then used by any number of vectors, which share its rows.
#[derive(Debug, PartialEq, Eq)]
pub struct ReusableDict {
    pub logical_type: LogicalType,
    pub rows: Arc<Vec<Option<u64>>>,
}

/// The mathematical value of a [`ReusableDict`].
#[verifier::ext_equal]
pub struct ReusableDictView {
    pub logical_type: LogicalType,
    pub rows: Seq<Option<u64>>,
}

impl View for ReusableDict {
    type V = ReusableDictView;

    open spec fn view(&self) -> ReusableDictView {
        ReusableDictView { logical_type: self.logical_type, rows: self.rows@ }
    }
}

impl ReusableDict {
    /// An empty dictionary.
    pub fn new(logical_type: LogicalType) -> (dict: Self)
        ensures
            dict@ == (ReusableDictView { logical_type, rows: Seq::empty() }),
    {
        ReusableDict { logical_type, rows: Arc::new(Vec::new()) }
    }

    /// Fills the dictionary with `rows`, which are exported into it. Where the database refuses
    /// them, the error is its own and the dictionary stays as it was.
    pub fn fill(&mut self, rows: &Vec<Option<u64>>, refusal: &Option<Arc<VortexError>>) -> (result:
        Result<(), ExportError>)
        ensures
            match *refusal {
                Some(error) => result == Err::<(), ExportError>(ExportError::Fill(error))
                    && final(self)@ == old(self)@,
                None => result is Ok && final(self)@ == (ReusableDictView {
                    logical_type: old(self)@.logical_type,
                    rows: rows@,
                }),
            },
    {
        if let Some(error) = refusal {
            return Err(ExportError::Fill(share(error)));
        }
        let mut vector = Vector::default();
        let exporter = new_array_exporter(clone_rows(rows), self.logical_type);
        let exported = exporter.export(0, rows.len(), &mut vector);
        if let Err(error) = exported {
            return Err(error);
        }
        assert(rows@.subrange(0, rows@.len() as int) =~= rows@);
        if let Vector::Flat(filled) = vector {
            self.rows = Arc::new(filled);
        }
        Ok(())
    }
}

impl Clone for ReusableDict {
    /// The same dictionary: its rows are not copied.
    fn clone(&self) -> (copy: Self)
        ensures
            copy@ == self@,
    {
        ReusableDict { logical_type: self.logical_type, rows: share(&self.rows) }
    }
}

/// A vector of the database, which holds the rows of one column of a chunk.
#[derive(Debug, PartialEq, Eq)]
pub enum Vector {
    /// One entry for each row.
    Flat(Vec<Option<u64>>),
    /// The same scalar in every row, however many rows the chunk has.
    Constant(Option<u64>),
    /// For each row a position in a dictionary.
    Dictionary { values: ReusableDict, selection: Vec<u32> },
}

/// The mathematical value of a [`Vector`].
#[verifier::ext_equal]
pub enum VectorView {
    Flat(Seq<Option<u64>>),
    Constant(Option<u64>),
    Dictionary { values: ReusableDictView, selection: Seq<u32> },
}

impl VectorView {
    /// The row at position `i`.
    pub open spec fn row(self, i: int) -> Option<u64> {
        match self {
            VectorView::Flat(rows) => rows[i],
            VectorView::Constant(scalar) => scalar,
            VectorView::Dictionary { values, selection } => values.rows[selection[i] as int],
        }
    }

    /// What a chunk of `len` rows holds in this vector.
    pub open spec fn rows(self, len: nat) -> Seq<Option<u64>> {
        Seq::new(len, |i: int| self.row(i))
    }
}

impl View for Vector {
    type V = VectorView;

    open spec fn view(&self) -> VectorView {
        match *self {
            Vector::Flat(rows) => VectorView::Flat(rows@),
            Vector::Constant(scalar) => VectorView::Constant(scalar),
            Vector::Dictionary { values, selection } => VectorView::Dictionary {
                values: values@,
                selection: selection@,
            },
        }
    }
}

impl Default for Vector {
    /// A flat vector without rows.
    fn default() -> (vector: Self)
        ensures
            vector@ == VectorView::Flat(Seq::empty()),
    {
        Vector::Flat(Vec::new())
    }
}

impl Vector {
    /// Makes this a vector of positions in `values`.
    pub fn reuse_dictionary(&mut self, values: &ReusableDict, selection: Vec<u32>)
        ensures
            final(self)@ == (VectorView::Dictionary { values: values@, selection: selection@ }),
    {
        *self = Vector::Dictionary { values: values.clone(), selection };
    }
}

} // verus!
