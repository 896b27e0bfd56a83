//! Exporters, which write windows of a column into vectors.
use crate::array::LogicalType;
use crate::array::PType;
use crate::array::PVectorView;
use crate::array::to_rows;
use crate::dict::DictExporter;
use crate::dict::DictVectorExporter;
use crate::duckdb::ReusableDictView;
use crate::duckdb::Vector;
use crate::duckdb::VectorView;
use crate::mask::Mask;
use crate::mask::MaskView;
use std::sync::Arc;
use vortex_error::VortexError;
use vstd::prelude::*;

verus! {

/// Why a column cannot be exported.
#[derive(Debug)]
pub enum ExportError {
    /// The database has no type for the column's scalars, as this error tells.
    UnsupportedType(Arc<VortexError>),
    /// An array computation reported this error.
    Compute(Arc<VortexError>),
    /// The database refused to fill a dictionary, with this error.
    Fill(Arc<VortexError>),
}

impl ExportError {
    /// The export error for an error of an array computation, which it keeps.
    pub fn from_compute(error: VortexError) -> (mapped: ExportError)
        ensures
            mapped matches ExportError::Compute(kept) && *kept == error,
    {
        ExportError::Compute(Arc::new(error))
    }
}

/// Exports one scalar in each row that the mask includes, and null in the others.
#[derive(Debug, PartialEq, Eq)]
pub struct ConstantExporter {
    pub scalar: Option<u64>,
    pub logical_type: LogicalType,
    pub len: usize,
    pub mask: Mask,
}

/// Exports `len` nulls of a type.
#[derive(Debug, PartialEq, Eq)]
pub struct AllInvalidExporter {
    pub len: usize,
    pub logical_type: LogicalType,
}

/// Exports the rows of an array as they are.
#[derive(Debug, PartialEq, Eq)]
pub struct ArrayExporter {
    pub logical_type: LogicalType,
    pub rows: Vec<Option<u64>>,
}

/// Exports windows of one column.
#[derive(Debug, PartialEq, Eq)]
pub enum ColumnExporter {
    Constant(ConstantExporter),
    AllInvalid(AllInvalidExporter),
    Array(ArrayExporter),
    Dict(DictExporter),
    DictVector(DictVectorExporter),
}

/// The mathematical value of a [`ColumnExporter`].
#[verifier::ext_equal]
pub enum ExporterView {
    Constant { scalar: Option<u64>, logical_type: LogicalType, len: nat, mask: MaskView },
    AllInvalid { len: nat, logical_type: LogicalType },
    Array { logical_type: LogicalType, rows: Seq<Option<u64>> },
    Dict {
        values: ReusableDictView,
        codes: Seq<u64>,
        codes_type: PType,
        cache_id: u64,
        value_id: usize,
    },
    DictVector {
        values: ReusableDictView,
        vector: PVectorView,
        codes_type: PType,
        cache_id: u64,
        value_id: usize,
    },
}

/// The low 32 bits of each code of a window.
pub open spec fn selected(codes: Seq<u64>, offset: int, len: nat) -> Seq<u32> {
    Seq::new(len, |i: int| (codes[offset + i] % 0x1_0000_0000) as u32)
}

/// The rows that stand for one scalar under a window of mask bits.
pub open spec fn masked_scalar(
    scalar: Option<u64>,
    bits: Seq<bool>,
    offset: int,
    len: nat,
) -> Seq<Option<u64>> {
    Seq::new(
        len,
        |i: int|
            if bits[offset + i] {
                scalar
            } else {
                None
            },
    )
}

impl ExporterView {
    /// The number of rows of the column.
    pub open spec fn len(self) -> nat {
        match self {
            ExporterView::Constant { len, .. } => len,
            ExporterView::AllInvalid { len, .. } => len,
            ExporterView::Array { rows, .. } => rows.len(),
            ExporterView::Dict { codes, .. } => codes.len(),
            ExporterView::DictVector { vector, .. } => vector.elements.len(),
        }
    }

    /// The database's type for the scalars of the column.
    pub open spec fn logical_type(self) -> LogicalType {
        match self {
            ExporterView::Constant { logical_type, .. } => logical_type,
            ExporterView::AllInvalid { logical_type, .. } => logical_type,
            ExporterView::Array { logical_type, .. } => logical_type,
            ExporterView::Dict { values, .. } => values.logical_type,
            ExporterView::DictVector { values, .. } => values.logical_type,
        }
    }

    /// A constant's mask covers its rows.
    pub open spec fn wf(self) -> bool {
        self matches ExporterView::Constant { len, mask, .. } ==> mask.len() == len
    }

    /// The vector that the rows from `offset` on, `len` in number, are exported as.
    pub open spec fn exported(self, offset: int, len: nat) -> VectorView {
        match self {
            ExporterView::Constant { scalar, mask, .. } => match mask {
                MaskView::AllTrue(_) => VectorView::Constant(scalar),
                MaskView::AllFalse(_) => VectorView::Constant(None),
                MaskView::Values(bits) => VectorView::Flat(
                    masked_scalar(scalar, bits, offset, len),
                ),
            },
            ExporterView::AllInvalid { .. } => VectorView::Constant(None),
            ExporterView::Array { rows, .. } => VectorView::Flat(
                rows.subrange(offset, offset + len),
            ),
            ExporterView::Dict { values, codes, .. } => VectorView::Dictionary {
                values,
                selection: selected(codes, offset, len),
            },
            ExporterView::DictVector { values, vector, .. } => VectorView::Dictionary {
                values,
                selection: selected(vector.elements, offset, len),
            },
        }
    }
}

impl View for ConstantExporter {
    type V = ExporterView;

    open spec fn view(&self) -> ExporterView {
        ExporterView::Constant {
            scalar: self.scalar,
            logical_type: self.logical_type,
            len: self.len as nat,
            mask: self.mask@,
        }
    }
}

impl View for AllInvalidExporter {
    type V = ExporterView;

    open spec fn view(&self) -> ExporterView {
        ExporterView::AllInvalid { len: self.len as nat, logical_type: self.logical_type }
    }
}

impl View for ArrayExporter {
    type V = ExporterView;

    open spec fn view(&self) -> ExporterView {
        ExporterView::Array { logical_type: self.logical_type, rows: self.rows@ }
    }
}

impl View for ColumnExporter {
    type V = ExporterView;

    open spec fn view(&self) -> ExporterView {
        match *self {
            ColumnExporter::Constant(exporter) => exporter@,
            ColumnExporter::AllInvalid(exporter) => exporter@,
            ColumnExporter::Array(exporter) => exporter@,
            ColumnExporter::Dict(exporter) => exporter@,
            ColumnExporter::DictVector(exporter) => exporter@,
        }
    }
}

/// An exporter of `len` rows that hold `scalar` where `mask` includes them, and null elsewhere.
pub fn new_constant_exporter_with_mask(
    scalar: Option<u64>,
    logical_type: LogicalType,
    len: usize,
    mask: Mask,
) -> (exporter: ColumnExporter)
    requires
        mask@.len() == len,
    ensures
        exporter@ == (ExporterView::Constant { scalar, logical_type, len: len as nat, mask: mask@ }),
        exporter@.wf(),
{
    ColumnExporter::Constant(ConstantExporter { scalar, logical_type, len, mask })
}

/// An exporter of a constant under a mask that was computed. Where computing it failed, so does
/// the export.
pub fn new_constant_exporter_from_mask(
    scalar: Option<u64>,
    logical_type: LogicalType,
    len: usize,
    mask: Result<Mask, VortexError>,
) -> (result: Result<ColumnExporter, ExportError>)
    requires
        mask matches Ok(mask) ==> mask@.len() == len,
    ensures
        match mask {
            Ok(mask) => result matches Ok(exporter) && exporter@ == (ExporterView::Constant {
                scalar,
                logical_type,
                len: len as nat,
                mask: mask@,
            }),
            Err(error) => result matches Err(ExportError::Compute(kept)) && *kept == error,
        },
{
    match mask {
        Ok(mask) => Ok(new_constant_exporter_with_mask(scalar, logical_type, len, mask)),
        Err(error) => Err(ExportError::from_compute(error)),
    }
}

/// An exporter of `len` nulls.
pub fn new_all_invalid_exporter(len: usize, logical_type: LogicalType) -> (exporter: ColumnExporter)
    ensures
        exporter@ == (ExporterView::AllInvalid { len: len as nat, logical_type }),
{
    ColumnExporter::AllInvalid(AllInvalidExporter { len, logical_type })
}

/// An exporter of the rows of an array.
pub fn new_array_exporter(rows: Vec<Option<u64>>, logical_type: LogicalType) -> (exporter:
    ColumnExporter)
    ensures
        exporter@ == (ExporterView::Array { logical_type, rows: rows@ }),
{
    ColumnExporter::Array(ArrayExporter { logical_type, rows })
}

/// An exporter of rows that were taken, as elements and their validity. Where taking them failed,
/// so does the export.
pub fn new_array_exporter_from_taken(
    taken: Result<(Vec<u64>, Vec<bool>), VortexError>,
    logical_type: LogicalType,
) -> (result: Result<ColumnExporter, ExportError>)
    requires
        taken matches Ok(rows) ==> rows.0@.len() == rows.1@.len(),
    ensures
        match taken {
            Ok(rows) => result matches Ok(exporter) && exporter@ == (ExporterView::Array {
                logical_type,
                rows: crate::array::masked(rows.0@, rows.1@),
            }),
            Err(error) => result matches Err(ExportError::Compute(kept)) && *kept == error,
        },
{
    match taken {
        Ok((elements, valid)) => Ok(new_array_exporter(to_rows(&elements, &valid), logical_type)),
        Err(error) => Err(ExportError::from_compute(error)),
    }
}

impl ConstantExporter {
    /// Writes the rows from `offset` on, `len` in number, into `vector`.
    pub fn export(&self, offset: usize, len: usize, vector: &mut Vector) -> (result: Result<
        (),
        ExportError,
    >)
        requires
            self@.wf(),
            offset + len <= self@.len(),
        ensures
            result is Ok,
            final(vector)@ == self@.exported(offset as int, len as nat),
    {
        match &self.mask {
            Mask::AllTrue(_) => {
                *vector = Vector::Constant(self.scalar);
            },
            Mask::AllFalse(_) => {
                *vector = Vector::Constant(None);
            },
            Mask::Values(bits) => {
                let mut rows: Vec<Option<u64>> = Vec::new();
                let total: usize = bits.len();
                for i in 0..len
                    invariant
                        total == bits@.len(),
                        offset + len <= total,
                        rows@ =~= masked_scalar(self.scalar, bits@, offset as int, i as nat),
                {
                    if bits[offset + i] {
                        rows.push(self.scalar);
                    } else {
                        rows.push(None);
                    }
                }
                *vector = Vector::Flat(rows);
            },
        }
        Ok(())
    }
}

impl AllInvalidExporter {
    /// Makes `vector` one of `len` nulls.
    pub fn export(&self, offset: usize, len: usize, vector: &mut Vector) -> (result: Result<
        (),
        ExportError,
    >)
        requires
            offset + len <= self@.len(),
        ensures
            result is Ok,
            final(vector)@ == self@.exported(offset as int, len as nat),
    {
        *vector = Vector::Constant(None);
        Ok(())
    }
}

impl ArrayExporter {
    /// Writes the rows from `offset` on, `len` in number, into `vector`.
    pub fn export(&self, offset: usize, len: usize, vector: &mut Vector) -> (result: Result<
        (),
        ExportError,
    >)
        requires
            offset + len <= self@.len(),
        ensures
            result is Ok,
            final(vector)@ == self@.exported(offset as int, len as nat),
    {
        let mut rows: Vec<Option<u64>> = Vec::new();
        let total: usize = self.rows.len();
        for i in 0..len
            invariant
                total == self.rows@.len(),
                offset + len <= total,
                rows@ =~= self.rows@.subrange(offset as int, offset + i),
        {
            rows.push(self.rows[offset + i]);
        }
        *vector = Vector::Flat(rows);
        Ok(())
    }
}

impl ColumnExporter {
    /// The number of rows of the column.
    pub fn len(&self) -> (len: usize)
        ensures
            len == self@.len(),
    {
        match self {
            ColumnExporter::Constant(exporter) => exporter.len,
            ColumnExporter::AllInvalid(exporter) => exporter.len,
            ColumnExporter::Array(exporter) => exporter.rows.len(),
            ColumnExporter::Dict(exporter) => exporter.codes.len(),
            ColumnExporter::DictVector(exporter) => exporter.codes.elements.len(),
        }
    }

    /// Writes the rows from `offset` on, `len` in number, into `vector`.
    pub fn export(&self, offset: usize, len: usize, vector: &mut Vector) -> (result: Result<
        (),
        ExportError,
    >)
        requires
            self@.wf(),
            offset + len <= self@.len(),
        ensures
            result is Ok,
            final(vector)@ == self@.exported(offset as int, len as nat),
    {
        match self {
            ColumnExporter::Constant(exporter) => exporter.export(offset, len, vector),
            ColumnExporter::AllInvalid(exporter) => exporter.export(offset, len, vector),
            ColumnExporter::Array(exporter) => exporter.export(offset, len, vector),
            ColumnExporter::Dict(exporter) => exporter.export(offset, len, vector),
            ColumnExporter::DictVector(exporter) => exporter.export(offset, len, vector),
        }
    }
}

} // verus!
