//! What the words that contracts are written in mean, in terms of fields and positions alone.
use crate::array::ArrayRef;
use crate::array::ArrayView;
use crate::array::Canonical;
use crate::array::CanonicalView;
use crate::array::DictArray;
use crate::array::DictView;
use crate::array::Encoding;
use crate::array::EncodingView;
use crate::array::PType;
use crate::array::PVector;
use crate::array::PVectorView;
use crate::cache::CacheView;
use crate::cache::CanonicalEntry;
use crate::cache::DictEntry;
use crate::cache::VectorEntry;
use crate::dict::DictExporter;
use crate::dict::DictVectorExporter;
use crate::duckdb::ReusableDict;
use crate::duckdb::ReusableDictView;
use crate::duckdb::Vector;
use crate::duckdb::VectorView;
use crate::exporter::AllInvalidExporter;
use crate::exporter::ArrayExporter;
use crate::exporter::ColumnExporter;
use crate::exporter::ConstantExporter;
use crate::exporter::ExportError;
use crate::exporter::ExporterView;
use crate::mask::Mask;
use crate::mask::MaskView;
use vstd::prelude::*;

verus! {

/// The value of a mask has its variant and its bits.
pub proof fn law_mask_value(mask: Mask)
    ensures
        match mask {
            Mask::AllTrue(len) => mask@ == MaskView::AllTrue(len as nat),
            Mask::AllFalse(len) => mask@ == MaskView::AllFalse(len as nat),
            Mask::Values(bits) => mask@ == MaskView::Values(bits@),
        },
{
}

/// The value of an array has its key, its type, its rows and its errors.
pub proof fn law_array_value(array: ArrayRef)
    ensures
        array@.key == array.key,
        array@.logical_type == array.logical_type,
        array@.fill_error == array.fill_error,
        array@.encoding == array.encoding@,
        match array.encoding {
            Encoding::Constant { scalar, len } => array@.encoding == (EncodingView::Constant {
                scalar,
                len: len as nat,
            }),
            Encoding::Rows(rows) => array@.encoding == EncodingView::Rows(rows@),
            Encoding::Failed(error) => array@.encoding == EncodingView::Failed(error),
        },
{
}

/// The value of a dictionary array has its codes, their error and width, and its values.
pub proof fn law_dict_array_value(array: DictArray)
    ensures
        array@.codes == array.codes@,
        array@.codes_error == array.codes_error,
        array@.ptype == array.ptype,
        array@.values == array.values@,
{
}

/// The values of conversions have their fields.
pub proof fn law_conversion_values(canonical: Canonical, vector: PVector, dict: ReusableDict)
    ensures
        canonical@ == (CanonicalView {
            logical_type: canonical.logical_type,
            rows: canonical.rows@,
        }),
        vector@ == (PVectorView { elements: vector.elements@, validity: vector.validity@ }),
        dict@ == (ReusableDictView { logical_type: dict.logical_type, rows: (*dict.rows)@ }),
{
}

/// The values of cache entries have their fields.
pub proof fn law_entry_values(canonical: CanonicalEntry, vector: VectorEntry, dict: DictEntry)
    ensures
        canonical@ == (canonical.array@, canonical.canonical@),
        vector@ == (vector.array@, vector.vector@),
        dict@ == (dict.array@, dict.dict@),
{
}

/// The value of a vector has its variant and its contents.
pub proof fn law_vector_value(vector: Vector)
    ensures
        match vector {
            Vector::Flat(rows) => vector@ == VectorView::Flat(rows@),
            Vector::Constant(scalar) => vector@ == VectorView::Constant(scalar),
            Vector::Dictionary { values, selection } => vector@ == (VectorView::Dictionary {
                values: values@,
                selection: selection@,
            }),
        },
{
}

/// The values of exporters have their fields.
pub proof fn law_exporter_values(
    constant: ConstantExporter,
    all_invalid: AllInvalidExporter,
    array: ArrayExporter,
    dict: DictExporter,
    dict_vector: DictVectorExporter,
)
    ensures
        constant@ == (ExporterView::Constant {
            scalar: constant.scalar,
            logical_type: constant.logical_type,
            len: constant.len as nat,
            mask: constant.mask@,
        }),
        all_invalid@ == (ExporterView::AllInvalid {
            len: all_invalid.len as nat,
            logical_type: all_invalid.logical_type,
        }),
        array@ == (ExporterView::Array { logical_type: array.logical_type, rows: array.rows@ }),
        dict@ == (ExporterView::Dict {
            values: dict.values@,
            codes: dict.codes@,
            codes_type: dict.codes_type,
            cache_id: dict.cache_id,
            value_id: dict.value_id,
        }),
        dict_vector@ == (ExporterView::DictVector {
            values: dict_vector.values@,
            vector: dict_vector.codes@,
            codes_type: dict_vector.codes_type,
            cache_id: dict_vector.cache_id,
            value_id: dict_vector.value_id,
        }),
{
}

/// The value of a column's exporter is that of the exporter it holds.
pub proof fn law_column_value(exporter: ColumnExporter)
    ensures
        match exporter {
            ColumnExporter::Constant(inner) => exporter@ == inner@,
            ColumnExporter::AllInvalid(inner) => exporter@ == inner@,
            ColumnExporter::Array(inner) => exporter@ == inner@,
            ColumnExporter::Dict(inner) => exporter@ == inner@,
            ColumnExporter::DictVector(inner) => exporter@ == inner@,
        },
{
}

/// An outcome is the exporter that was built, or the error as it is.
pub proof fn law_outcome(result: Result<ColumnExporter, ExportError>)
    ensures
        match result {
            Ok(exporter) => crate::dict::outcome(result) == Ok::<ExporterView, ExportError>(
                exporter@,
            ),
            Err(error) => crate::dict::outcome(result) == Err::<ExporterView, ExportError>(error),
        },
{
}

/// A mask has a bit for each row: set throughout, nowhere, or as its own bits say.
pub proof fn law_mask_bits(mask: MaskView)
    ensures
        mask.bits().len() == mask.len(),
        match mask {
            MaskView::AllTrue(len) => mask.len() == len && forall|i: int|
                0 <= i < len ==> #[trigger] mask.bits()[i],
            MaskView::AllFalse(len) => mask.len() == len && forall|i: int|
                0 <= i < len ==> !(#[trigger] mask.bits()[i]),
            MaskView::Values(bits) => mask.len() == bits.len() && mask.bits() == bits,
        },
{
}

/// A validity mask is all-true exactly where no row is null, all-false exactly where there are rows
/// and all are null, and has the rows' own bits elsewhere. A computed mask is all-false rather than
/// all-true where there is no row.
pub proof fn law_masks_of_rows(rows: Seq<Option<u64>>)
    ensures
        ({
            let mask = crate::mask::validity_mask(crate::array::validity(rows));
            let all = forall|i: int| 0 <= i < rows.len() ==> (#[trigger] rows[i]) is Some;
            let none = forall|i: int| 0 <= i < rows.len() ==> (#[trigger] rows[i]) is None;
            match mask {
                MaskView::AllTrue(len) => all && len == rows.len(),
                MaskView::AllFalse(len) => none && rows.len() > 0 && len == rows.len(),
                MaskView::Values(bits) => !all && !none && bits.len() == rows.len() && forall|i: int|
                    0 <= i < rows.len() ==> bits[i] == ((#[trigger] rows[i]) is Some),
            }
        }),
        ({
            let mask = crate::mask::computed_mask(crate::array::validity(rows));
            let all = forall|i: int| 0 <= i < rows.len() ==> (#[trigger] rows[i]) is Some;
            let none = forall|i: int| 0 <= i < rows.len() ==> (#[trigger] rows[i]) is None;
            match mask {
                MaskView::AllTrue(len) => all && rows.len() > 0 && len == rows.len(),
                MaskView::AllFalse(len) => none && len == rows.len(),
                MaskView::Values(bits) => !all && !none && bits.len() == rows.len() && forall|i: int|
                    0 <= i < rows.len() ==> bits[i] == ((#[trigger] rows[i]) is Some),
            }
        }),
{
    law_sets_of_bits(rows);
    if rows.len() > 0 {
        assert(rows[0] is Some || rows[0] is None);
    }
}

/// A row's bit tells whether it is not null. Every bit is set exactly where no row is null, and none
/// exactly where all are.
pub proof fn law_sets_of_bits(rows: Seq<Option<u64>>)
    ensures
        crate::array::validity(rows).len() == rows.len(),
        forall|i: int|
            0 <= i < rows.len() ==> crate::array::validity(rows)[i] == ((#[trigger] rows[i])
                is Some),
        crate::mask::all_set(crate::array::validity(rows)) <==> forall|i: int|
            0 <= i < rows.len() ==> (#[trigger] rows[i]) is Some,
        crate::mask::none_set(crate::array::validity(rows)) <==> forall|i: int|
            0 <= i < rows.len() ==> (#[trigger] rows[i]) is None,
{
    let bits = crate::array::validity(rows);
    assert forall|i: int| 0 <= i < rows.len() implies bits[i] == ((#[trigger] rows[i]) is Some) by {}
    if crate::mask::all_set(bits) {
        assert forall|i: int| 0 <= i < rows.len() implies (#[trigger] rows[i]) is Some by {
            assert(bits[i]);
        }
    }
    if crate::mask::none_set(bits) {
        assert forall|i: int| 0 <= i < rows.len() implies (#[trigger] rows[i]) is None by {
            assert(!bits[i]);
        }
    }
}

/// Taking has a row for each code: the value at the code, and null where the code is null.
pub proof fn law_taken(values: Seq<Option<u64>>, codes: Seq<Option<u64>>, i: int)
    ensures
        crate::array::taken(values, codes).len() == codes.len(),
        0 <= i < codes.len() ==> match codes[i] {
            Some(code) => crate::array::taken(values, codes)[i] == values[code as int],
            None => crate::array::taken(values, codes)[i] is None,
        },
{
}

/// Codes are in range exactly where each that is not null is below the number of values.
pub proof fn law_in_range(codes: Seq<Option<u64>>, len: nat)
    ensures
        crate::array::in_range(codes, len) <==> forall|i: int|
            0 <= i < codes.len() ==> ((#[trigger] codes[i]) matches Some(code) ==> code < len),
{
}

/// The rows of an array are its scalar in every row, its own rows, or none where it failed.
pub proof fn law_array_rows(array: ArrayView, i: int)
    ensures
        array.rows() == array.encoding.rows(),
        match array.encoding {
            EncodingView::Constant { scalar, len } => array.rows().len() == len && (0 <= i < len
                ==> array.rows()[i] == scalar),
            EncodingView::Rows(rows) => array.rows() == rows,
            EncodingView::Failed(_) => array.rows().len() == 0,
        },
{
}

/// A dictionary array has a row for each code: null where the code is null, and else the value at
/// the code.
pub proof fn law_dict_array_rows(array: DictView, i: int)
    ensures
        array.rows().len() == array.codes.len(),
        0 <= i < array.codes.len() ==> match (array.codes[i], array.values.encoding) {
            (None, _) => array.rows()[i] is None,
            (Some(code), EncodingView::Constant { scalar, len }) => code < len ==> array.rows()[i]
                == scalar,
            (Some(code), EncodingView::Rows(rows)) => code < rows.len() ==> array.rows()[i]
                == rows[code as int],
            (Some(_), EncodingView::Failed(_)) => true,
        },
{
}

/// A dictionary array is well-formed exactly where each code that is not null fits the width of the
/// codes and is the position of a value.
pub proof fn law_dict_array_wf(array: DictView)
    ensures
        array.wf() <==> forall|i: int|
            0 <= i < array.codes.len() ==> ((#[trigger] array.codes[i]) matches Some(code) ==> {
                &&& match array.ptype {
                    PType::U8 => code < 0x100,
                    PType::U16 => code < 0x1_0000,
                    PType::U32 => code < 0x1_0000_0000,
                    PType::U64 => true,
                }
                &&& match array.values.encoding {
                    EncodingView::Constant { len, .. } => code < len,
                    EncodingView::Rows(rows) => code < rows.len(),
                    EncodingView::Failed(_) => false,
                }
            }),
{
    if array.wf() {
        assert forall|i: int| 0 <= i < array.codes.len() implies (
        (#[trigger] array.codes[i]) matches Some(code) ==> {
            &&& code <= array.ptype.max_code()
            &&& code < array.values.rows().len()
        }) by {}
    }
}

/// A vector has a row for each element: null where its mask says so, whatever the element, and else
/// the element.
pub proof fn law_vector_rows(vector: PVectorView, i: int)
    ensures
        vector.rows().len() == vector.elements.len(),
        vector.wf() && 0 <= i < vector.elements.len() ==> vector.rows()[i] == match vector.validity {
            MaskView::AllTrue(_) => Some(vector.elements[i]),
            MaskView::AllFalse(_) => None,
            MaskView::Values(bits) => if bits[i] {
                Some(vector.elements[i])
            } else {
                None
            },
        },
{
}

/// A vector is whole exactly where its mask has a bit for each element.
pub proof fn law_vector_wf(vector: PVectorView)
    ensures
        vector.wf() <==> vector.elements.len() == match vector.validity {
            MaskView::AllTrue(len) => len,
            MaskView::AllFalse(len) => len,
            MaskView::Values(bits) => bits.len(),
        },
{
}

/// Rows execute to their elements, with a zero under each null, and to their validity mask.
pub proof fn law_executed(rows: Seq<Option<u64>>, i: int)
    ensures
        crate::array::executed(rows).elements.len() == rows.len(),
        0 <= i < rows.len() ==> match rows[i] {
            Some(element) => crate::array::executed(rows).elements[i] == element,
            None => crate::array::executed(rows).elements[i] == 0,
        },
        crate::array::executed(rows).validity == crate::mask::validity_mask(
            crate::array::validity(rows),
        ),
        crate::array::executed(rows).rows() == rows,
{
    crate::array::lemma_executed_rows(rows);
}

/// Elements and bits make a row each: the element where the bit is set, and null elsewhere.
pub proof fn law_masked(elements: Seq<u64>, bits: Seq<bool>, i: int)
    ensures
        crate::array::masked(elements, bits).len() == elements.len(),
        0 <= i < elements.len() ==> crate::array::masked(elements, bits)[i] == (if bits[i] {
            Some(elements[i])
        } else {
            None
        }),
{
}

/// A chunk of `len` rows shows a flat vector's entries, a constant's scalar, or the values at a
/// selection.
pub proof fn law_shown_rows(vector: VectorView, len: nat, i: int)
    ensures
        vector.rows(len).len() == len,
        vector.row(i) == match vector {
            VectorView::Flat(rows) => rows[i],
            VectorView::Constant(scalar) => scalar,
            VectorView::Dictionary { values, selection } => values.rows[selection[i] as int],
        },
        0 <= i < len ==> vector.rows(len)[i] == vector.row(i),
{
}

/// A window of a column, whatever exports it, is the rows from its offset on: each entry comes from
/// the position that is the offset further on.
pub proof fn law_exported_windows(exporter: ExporterView, offset: int, len: nat, i: int)
    requires
        0 <= offset,
        offset + len <= exporter.len(),
    ensures
        match (exporter, exporter.exported(offset, len)) {
            (ExporterView::Constant { scalar, mask, .. }, VectorView::Constant(shown)) => match mask {
                MaskView::AllTrue(_) => shown == scalar,
                MaskView::AllFalse(_) => shown is None,
                MaskView::Values(_) => false,
            },
            (ExporterView::Constant { scalar, mask, .. }, VectorView::Flat(rows)) => {
                &&& rows.len() == len
                &&& mask matches MaskView::Values(bits) && (0 <= i < len ==> rows[i] == (
                if bits[offset + i] {
                    scalar
                } else {
                    None
                }))
            },
            (ExporterView::AllInvalid { .. }, VectorView::Constant(shown)) => shown is None,
            (ExporterView::Array { rows, .. }, VectorView::Flat(shown)) => shown.len() == len
                && (0 <= i < len ==> shown[i] == rows[offset + i]),
            (
                ExporterView::Dict { values, codes, .. },
                VectorView::Dictionary { values: shown, selection },
            ) => shown == values && selection.len() == len && (0 <= i < len ==> selection[i] as int
                == codes[offset + i] as int % 0x1_0000_0000),
            (
                ExporterView::DictVector { values, vector, .. },
                VectorView::Dictionary { values: shown, selection },
            ) => shown == values && selection.len() == len && (0 <= i < len ==> selection[i] as int
                == vector.elements[offset + i] as int % 0x1_0000_0000),
            _ => false,
        },
{
}

/// A column has as many rows as its exporter was given, and the type that it was given.
pub proof fn law_exporter_shape(exporter: ExporterView)
    ensures
        match exporter {
            ExporterView::Constant { len, logical_type, mask, .. } => {
                &&& exporter.len() == len
                &&& exporter.logical_type() == logical_type
                &&& exporter.wf() <==> len == match mask {
                    MaskView::AllTrue(len) => len,
                    MaskView::AllFalse(len) => len,
                    MaskView::Values(bits) => bits.len(),
                }
            },
            ExporterView::AllInvalid { len, logical_type } => exporter.len() == len
                && exporter.logical_type() == logical_type && exporter.wf(),
            ExporterView::Array { rows, logical_type } => exporter.len() == rows.len()
                && exporter.logical_type() == logical_type && exporter.wf(),
            ExporterView::Dict { codes, values, .. } => exporter.len() == codes.len()
                && exporter.logical_type() == values.logical_type && exporter.wf(),
            ExporterView::DictVector { vector, values, .. } => exporter.len()
                == vector.elements.len() && exporter.logical_type() == values.logical_type
                && exporter.wf(),
        },
{
}

/// The values of a column are used exactly where the database has a type for them, they are not one
/// constant, and the codes are not all null. They are taken, and not selected from, exactly where
/// flattening is asked for, some code is null, or there is no code.
pub proof fn law_use_of_values(array: DictView, flatten: bool)
    ensures
        crate::dict::all_null(array) <==> array.codes.len() > 0 && forall|i: int|
            0 <= i < array.codes.len() ==> (#[trigger] array.codes[i]) is None,
        crate::dict::uses_values(array) <==> array.values.logical_type is Ok && !(
        array.values.encoding is Constant) && !(array.codes.len() > 0 && forall|i: int|
            0 <= i < array.codes.len() ==> (#[trigger] array.codes[i]) is None),
        crate::dict::flattened(array, flatten) <==> flatten || array.codes.len() == 0 || exists|
            i: int,
        |
            0 <= i < array.codes.len() && (#[trigger] array.codes[i]) is None,
{
    law_sets_of_bits(array.codes);
    assert(crate::mask::all_set(crate::array::validity(array.codes)) <==> !exists|i: int|
        0 <= i < array.codes.len() && (#[trigger] array.codes[i]) is None);
}

/// A new cache holds nothing.
pub proof fn law_new_cache_is_empty(instance_id: u64, key: usize)
    ensures
        !CacheView::empty(instance_id).canonical.contains_key(key),
        !CacheView::empty(instance_id).vectors.contains_key(key),
        !CacheView::empty(instance_id).values.contains_key(key),
        CacheView::empty(instance_id).instance_id == instance_id,
{
}

/// A cache is well-formed exactly where the mask of each vector that it holds covers its elements.
pub proof fn law_cache_wf(cache: CacheView)
    ensures
        cache.wf() <==> forall|key: usize| #[trigger]
            cache.vectors.contains_key(key) ==> cache.vectors[key].1.elements.len() == match cache.vectors[key].1.validity {
                MaskView::AllTrue(len) => len,
                MaskView::AllFalse(len) => len,
                MaskView::Values(bits) => bits.len(),
            },
{
    if cache.wf() {
        assert forall|key: usize| #[trigger] cache.vectors.contains_key(key) implies
            cache.vectors[key].1.elements.len() == match cache.vectors[key].1.validity {
            MaskView::AllTrue(len) => len,
            MaskView::AllFalse(len) => len,
            MaskView::Values(bits) => bits.len(),
        } by {
            law_vector_wf(cache.vectors[key].1);
        }
    }
}

/// A cache agrees with an array exactly where what it holds under the array's key was made from that
/// array: the array's rows in canonical form, executed, and as a dictionary.
pub proof fn law_cache_agrees(cache: CacheView, array: ArrayView)
    ensures
        cache.agrees(array) <==> {
            &&& cache.canonical.contains_key(array.key) ==> {
                let held = cache.canonical[array.key];
                held.0 == array && held.1.rows == array.rows() && held.1.logical_type
                    == array.logical_type->Ok_0
            }
            &&& cache.vectors.contains_key(array.key) ==> {
                let held = cache.vectors[array.key];
                held.0 == array && held.1 == crate::array::executed(array.rows())
            }
            &&& cache.values.contains_key(array.key) ==> {
                let held = cache.values[array.key];
                held.0 == array && held.1.rows == array.rows() && held.1.logical_type
                    == array.logical_type->Ok_0
            }
        },
{
}

/// What is held under the key of an array is used; only where nothing is held is it made from the
/// array, and only then can that fail.
pub proof fn law_held_conversions(cache: CacheView, array: ArrayView)
    ensures
        cache.canonical.contains_key(array.key) ==> cache.canonical_form(array)
            == cache.canonical[array.key].1 && cache.has_canonical_form(array),
        cache.vectors.contains_key(array.key) ==> cache.vector(array)
            == cache.vectors[array.key].1 && cache.vector_failure(array) is None,
        cache.values.contains_key(array.key) ==> cache.dict(array) == cache.values[array.key].1
            && cache.dict_failure(array) is None,
        !cache.canonical.contains_key(array.key) ==> {
            &&& cache.canonical_form(array).rows == array.rows()
            &&& array.logical_type matches Ok(logical_type) ==> cache.canonical_form(
                array,
            ).logical_type == logical_type
            &&& cache.has_canonical_form(array) <==> !(array.encoding is Failed)
        },
        !cache.vectors.contains_key(array.key) ==> {
            &&& cache.vector(array) == crate::array::executed(array.rows())
            &&& cache.vector_failure(array) == match array.encoding {
                EncodingView::Failed(error) => Some(ExportError::Compute(error)),
                _ => None,
            }
        },
        !cache.values.contains_key(array.key) ==> {
            &&& cache.dict(array).rows == array.rows()
            &&& array.logical_type matches Ok(logical_type) ==> cache.dict(array).logical_type
                == logical_type
            &&& cache.dict_failure(array) == match (array.encoding, array.fill_error) {
                (EncodingView::Failed(error), _) => Some(ExportError::Compute(error)),
                (_, Some(error)) => Some(ExportError::Fill(error)),
                (_, None) => None,
            }
        },
{
}

/// Executed codes are exported flat exactly where flattening is asked for, their mask has bits of
/// its own, or there is no code. The values at them are taken exactly where they are exported flat,
/// have a type, and are not all null by their mask.
pub proof fn law_use_at_codes(array: DictView, codes: PVectorView, flatten: bool)
    ensures
        crate::dict::flattened_codes(codes, flatten) <==> {
            ||| flatten
            ||| codes.validity is Values
            ||| codes.validity == MaskView::AllTrue(0)
            ||| codes.validity == MaskView::AllFalse(0)
        },
        crate::dict::takes_at_codes(array, codes, flatten) <==> {
            &&& array.values.logical_type is Ok
            &&& !(codes.validity is AllFalse)
            &&& flatten || codes.validity is Values || codes.validity == MaskView::AllTrue(0)
        },
{
}

} // verus!
