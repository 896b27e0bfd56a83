//! What building an exporter comes to, told by the codes and the values alone.
use crate::array::DictView;
use crate::array::EncodingView;
use crate::array::PVectorView;
use crate::cache::CacheView;
use crate::duckdb::VectorView;
use crate::exporter::ExportError;
use crate::exporter::ExporterView;
use crate::mask::MaskView;
use vstd::prelude::*;

verus! {

/// Every row of every window is what its own code says: null under a null code, the scalar where the
/// values are one constant, and else the value at the code. A dictionary is all of the values, and
/// its selection has the low 32 bits of the codes.
pub proof fn law_rows_follow_the_codes(
    array: DictView,
    cache: CacheView,
    flatten: bool,
    offset: int,
    len: nat,
    i: int,
)
    requires
        cache.agrees(array.values),
        forall|k: int|
            0 <= k < array.codes.len() ==> ((#[trigger] array.codes[k]) matches Some(code)
                ==> match array.values.encoding {
                EncodingView::Constant { .. } => true,
                EncodingView::Rows(rows) => code < rows.len(),
                EncodingView::Failed(_) => false,
            }),
        0 <= offset,
        offset + len <= array.codes.len(),
        0 <= i < len,
    ensures
        crate::dict::built(array, cache, flatten) matches Ok(exporter) ==> {
            let row = match (array.codes[offset + i], array.values.encoding) {
                (Some(_), EncodingView::Constant { scalar, .. }) => scalar,
                (Some(code), EncodingView::Rows(rows)) => rows[code as int],
                _ => None,
            };
            &&& exporter.len() == array.codes.len()
            &&& match exporter.exported(offset, len) {
                VectorView::Flat(rows) => rows.len() == len && rows[i] == row,
                VectorView::Constant(scalar) => scalar == row,
                VectorView::Dictionary { values, selection } => {
                    &&& array.values.encoding == EncodingView::Rows(values.rows)
                    &&& array.values.logical_type matches Ok(logical_type) && logical_type
                        == values.logical_type
                    &&& selection.len() == len
                    &&& array.codes[offset + i] matches Some(code) && selection[i] as int
                        == code as int % 0x1_0000_0000
                },
            }
        },
{
    crate::meaning::law_sets_of_bits(array.codes);
    crate::meaning::law_masks_of_rows(array.codes);
    crate::array::lemma_executed_rows(array.values.rows());
    if array.values.encoding is Failed && !crate::dict::all_null(array) {
        assert(array.codes[offset + i] is None);
    }
}

/// From executed vectors too, every row of every window is what its own code says: null under a null
/// code, the scalar where the values are one constant, and else the value at the code.
pub proof fn law_vector_rows_follow_the_codes(
    array: DictView,
    cache: CacheView,
    flatten: bool,
    offset: int,
    len: nat,
    i: int,
)
    requires
        cache.agrees(array.values),
        forall|k: int|
            0 <= k < array.codes.len() ==> ((#[trigger] array.codes[k]) matches Some(code)
                ==> match array.values.encoding {
                EncodingView::Constant { .. } => true,
                EncodingView::Rows(rows) => code < rows.len(),
                EncodingView::Failed(_) => false,
            }),
        0 <= offset,
        offset + len <= array.codes.len(),
        0 <= i < len,
    ensures
        crate::dict::built_vector(array, cache, flatten) matches Ok(exporter) ==> {
            let row = match (array.codes[offset + i], array.values.encoding) {
                (Some(_), EncodingView::Constant { scalar, .. }) => scalar,
                (Some(code), EncodingView::Rows(rows)) => rows[code as int],
                _ => None,
            };
            &&& exporter.len() == array.codes.len()
            &&& match exporter.exported(offset, len) {
                VectorView::Flat(rows) => rows.len() == len && rows[i] == row,
                VectorView::Constant(scalar) => scalar == row,
                VectorView::Dictionary { values, selection } => {
                    &&& array.values.encoding == EncodingView::Rows(values.rows)
                    &&& array.values.logical_type matches Ok(logical_type) && logical_type
                        == values.logical_type
                    &&& selection.len() == len
                    &&& array.codes[offset + i] matches Some(code) && selection[i] as int
                        == code as int % 0x1_0000_0000
                },
            }
        },
{
    crate::meaning::law_sets_of_bits(array.codes);
    crate::meaning::law_masks_of_rows(array.codes);
    crate::array::lemma_executed_rows(array.values.rows());
    if array.values.encoding is Failed && !crate::dict::all_null(array) {
        assert(array.codes[offset + i] is None);
    }
}

/// The codes and `flatten` alone tell how a column is exported. Values that are not one constant are
/// a dictionary where flattening is not asked for and there are codes, none of them null; one null
/// where there are codes, all of them null; and flat elsewhere. A constant is flat only where some
/// codes are null and some are not.
pub proof fn law_form_follows_the_codes(
    array: DictView,
    cache: CacheView,
    flatten: bool,
    offset: int,
    len: nat,
)
    ensures
        crate::dict::built(array, cache, flatten) matches Ok(exporter) ==> {
            let no_null = forall|k: int|
                0 <= k < array.codes.len() ==> (#[trigger] array.codes[k]) is Some;
            let only_nulls = forall|k: int|
                0 <= k < array.codes.len() ==> (#[trigger] array.codes[k]) is None;
            let constant = array.values.encoding is Constant;
            let empty = array.codes.len() == 0;
            match exporter.exported(offset, len) {
                VectorView::Dictionary { .. } => !constant && !flatten && no_null && !empty,
                VectorView::Constant(_) => if constant {
                    no_null || only_nulls
                } else {
                    only_nulls && !empty
                },
                VectorView::Flat(_) => if constant {
                    !no_null && !only_nulls
                } else {
                    (flatten || !no_null || empty) && (!only_nulls || empty)
                },
            }
        },
{
    crate::meaning::law_sets_of_bits(array.codes);
    crate::meaning::law_masks_of_rows(array.codes);
    if array.codes.len() > 0 {
        assert(array.codes[0] is Some || array.codes[0] is None);
    }
}

/// From executed vectors too, the codes and `flatten` alone tell how a column is exported.
pub proof fn law_vector_form_follows_the_codes(
    array: DictView,
    cache: CacheView,
    flatten: bool,
    offset: int,
    len: nat,
)
    ensures
        crate::dict::built_vector(array, cache, flatten) matches Ok(exporter) ==> {
            let no_null = forall|k: int|
                0 <= k < array.codes.len() ==> (#[trigger] array.codes[k]) is Some;
            let only_nulls = forall|k: int|
                0 <= k < array.codes.len() ==> (#[trigger] array.codes[k]) is None;
            let constant = array.values.encoding is Constant;
            let empty = array.codes.len() == 0;
            match exporter.exported(offset, len) {
                VectorView::Dictionary { .. } => !constant && !flatten && no_null && !empty,
                VectorView::Constant(_) => if constant {
                    no_null || only_nulls
                } else {
                    only_nulls && !empty
                },
                VectorView::Flat(_) => if constant {
                    !no_null && !only_nulls
                } else {
                    (flatten || !no_null || empty) && (!only_nulls || empty)
                },
            }
        },
{
    crate::meaning::law_sets_of_bits(array.codes);
    crate::meaning::law_masks_of_rows(array.codes);
    if array.codes.len() > 0 {
        assert(array.codes[0] is Some || array.codes[0] is None);
    }
}

/// Where flattening is not asked for and there are codes, none of them null, values that have a type,
/// are not one constant, and are held or can be filled in are exported as a dictionary, however many
/// codes there are.
pub proof fn law_valid_codes_make_a_dictionary(
    array: DictView,
    cache: CacheView,
    offset: int,
    len: nat,
)
    requires
        array.codes.len() > 0,
        forall|k: int| 0 <= k < array.codes.len() ==> (#[trigger] array.codes[k]) is Some,
        array.values.logical_type is Ok,
        !(array.values.encoding is Constant),
        cache.values.contains_key(array.values.key) || (array.values.encoding is Rows
            && array.values.fill_error is None),
    ensures
        crate::dict::built(array, cache, false) matches Ok(exporter) && exporter.exported(
            offset,
            len,
        ) is Dictionary,
        array.codes_error is None ==> (crate::dict::built_vector(array, cache, false) matches Ok(
            exporter,
        ) && exporter.exported(offset, len) is Dictionary),
        crate::dict::cache_after(array, cache, false).values.contains_key(array.values.key),
        array.codes_error is None ==> crate::dict::cache_after_vector(
            array,
            cache,
            false,
        ).values.contains_key(array.values.key),
{
    crate::meaning::law_sets_of_bits(array.codes);
    assert(array.codes[0] is Some);
}

/// An exporter of an array can be built unless the database has no type for the values, or a new
/// dictionary is needed and cannot be filled. The error is the one that was reported.
pub proof fn law_what_stops_an_export(array: DictView, cache: CacheView, flatten: bool)
    ensures
        ({
            let no_null = forall|k: int|
                0 <= k < array.codes.len() ==> (#[trigger] array.codes[k]) is Some;
            let fills = !(array.values.encoding is Constant) && !flatten && array.codes.len() > 0
                && no_null && !cache.values.contains_key(array.values.key);
            match (
                array.values.logical_type,
                array.values.encoding,
                array.values.fill_error,
                crate::dict::built(array, cache, flatten),
            ) {
                (Err(error), _, _, built) => built == Err::<ExporterView, ExportError>(
                    ExportError::UnsupportedType(error),
                ),
                (Ok(_), EncodingView::Failed(error), _, built) => if fills {
                    built == Err::<ExporterView, ExportError>(ExportError::Compute(error))
                } else {
                    built is Ok
                },
                (Ok(_), _, Some(error), built) => if fills {
                    built == Err::<ExporterView, ExportError>(ExportError::Fill(error))
                } else {
                    built is Ok
                },
                (Ok(_), _, None, built) => built is Ok,
            }
        }),
{
    crate::meaning::law_sets_of_bits(array.codes);
    if array.codes.len() > 0 {
        assert(array.codes[0] is Some || array.codes[0] is None);
    }
}

/// From executed vectors an exporter can be built unless the database has no type for the values,
/// the codes cannot be executed, values that are taken and not held cannot be executed, or a new
/// dictionary is needed and cannot be filled. The error is the one that was reported.
pub proof fn law_what_stops_a_vector_export(array: DictView, cache: CacheView, flatten: bool)
    ensures
        ({
            let no_null = forall|k: int|
                0 <= k < array.codes.len() ==> (#[trigger] array.codes[k]) is Some;
            let only_nulls = forall|k: int|
                0 <= k < array.codes.len() ==> (#[trigger] array.codes[k]) is None;
            let empty = array.codes.len() == 0;
            let fills = !flatten && !empty && no_null && !cache.values.contains_key(
                array.values.key,
            );
            let executes = (flatten || empty || !no_null) && (empty || !only_nulls)
                && !cache.vectors.contains_key(array.values.key);
            let built = crate::dict::built_vector(array, cache, flatten);
            match (array.values.logical_type, array.codes_error, array.values.encoding) {
                (Err(error), _, _) => built == Err::<ExporterView, ExportError>(
                    ExportError::UnsupportedType(error),
                ),
                (Ok(_), Some(error), _) => built == Err::<ExporterView, ExportError>(
                    ExportError::Compute(error),
                ),
                (Ok(_), None, EncodingView::Constant { .. }) => built is Ok,
                (Ok(_), None, EncodingView::Failed(error)) => if fills || executes {
                    built == Err::<ExporterView, ExportError>(ExportError::Compute(error))
                } else {
                    built is Ok
                },
                (Ok(_), None, EncodingView::Rows(_)) => match array.values.fill_error {
                    Some(error) => if fills {
                        built == Err::<ExporterView, ExportError>(ExportError::Fill(error))
                    } else {
                        built is Ok
                    },
                    None => built is Ok,
                },
            }
        }),
{
    crate::meaning::law_sets_of_bits(array.codes);
    if array.codes.len() > 0 {
        assert(array.codes[0] is Some || array.codes[0] is None);
    }
}

/// Whatever array a cache entry was made from, what is held under the key of the values is what a
/// column is exported from: a flat column has the row of the held form at each code, null under a
/// null code, and a dictionary is the held one.
pub proof fn law_columns_come_from_what_is_held(
    array: DictView,
    codes: PVectorView,
    cache: CacheView,
    flatten: bool,
    i: int,
)
    ensures
        match crate::dict::built(array, cache, flatten) {
            Ok(ExporterView::Array { rows, logical_type }) => {
                &&& rows.len() == array.codes.len()
                &&& logical_type == cache.canonical_form(array.values).logical_type
                &&& 0 <= i < rows.len() ==> rows[i] == match array.codes[i] {
                    Some(code) => cache.canonical_form(array.values).rows[code as int],
                    None => None,
                }
            },
            Ok(ExporterView::Dict { values, .. }) => values == cache.dict(array.values),
            _ => true,
        },
        match crate::dict::built_vector(array, cache, flatten) {
            Ok(ExporterView::Array { rows, logical_type }) => {
                &&& rows.len() == array.codes.len()
                &&& array.values.logical_type matches Ok(own) && own == logical_type
                &&& 0 <= i < rows.len() ==> rows[i] == match array.codes[i] {
                    Some(code) => cache.vector(array.values).rows()[code as int],
                    None => None,
                }
            },
            Ok(ExporterView::DictVector { values, .. }) => values == cache.dict(array.values),
            _ => true,
        },
        codes.wf() ==> match crate::dict::built_from_codes(array, codes, cache, flatten) {
            Ok(ExporterView::Array { rows, logical_type }) => {
                &&& rows.len() == codes.elements.len()
                &&& array.values.logical_type matches Ok(own) && own == logical_type
                &&& 0 <= i < rows.len() ==> rows[i] == (if match codes.validity {
                    MaskView::AllTrue(_) => true,
                    MaskView::AllFalse(_) => false,
                    MaskView::Values(bits) => bits[i],
                } {
                    cache.vector(array.values).rows()[codes.elements[i] as int]
                } else {
                    None
                })
            },
            Ok(ExporterView::DictVector { values, .. }) => values == cache.dict(array.values),
            _ => true,
        },
{
    if codes.wf() && 0 <= i < codes.elements.len() {
        crate::meaning::law_vector_rows(codes, i);
        assert(codes.rows()[i] is Some ==> codes.rows()[i] == Some(codes.elements[i]));
    }
}

/// The exporter of a dictionary is told by the number of the cache and the key of the values, and
/// keeps the codes as they are, with their width.
pub proof fn law_dictionary_exporters_are_marked(array: DictView, cache: CacheView, flatten: bool)
    ensures
        crate::dict::built(array, cache, flatten) matches Ok(exporter) ==> match exporter {
            ExporterView::Dict { codes, codes_type, cache_id, value_id, .. } => {
                &&& codes.len() == array.codes.len()
                &&& forall|k: int|
                    0 <= k < array.codes.len() ==> (#[trigger] array.codes[k]) == Some(codes[k])
                &&& codes_type == array.ptype
                &&& cache_id == cache.instance_id
                &&& value_id == array.values.key
            },
            ExporterView::DictVector { .. } => false,
            _ => true,
        },
        crate::dict::built_vector(array, cache, flatten) matches Ok(exporter) ==> match exporter {
            ExporterView::DictVector { vector, codes_type, cache_id, value_id, .. } => {
                &&& vector.elements.len() == array.codes.len()
                &&& vector.validity == MaskView::AllTrue(array.codes.len())
                &&& forall|k: int|
                    0 <= k < array.codes.len() ==> (#[trigger] array.codes[k]) == Some(
                        vector.elements[k],
                    )
                &&& codes_type == array.ptype
                &&& cache_id == cache.instance_id
                &&& value_id == array.values.key
            },
            ExporterView::Dict { .. } => false,
            _ => true,
        },
{
    crate::meaning::law_sets_of_bits(array.codes);
}

/// Building an exporter changes a cache under the key of the values alone, adds to it only what the
/// column needs, and adds that as it was made from the values: a flat column adds their canonical
/// form, and a dictionary adds itself.
pub proof fn law_what_a_cache_gains(array: DictView, cache: CacheView, flatten: bool)
    requires
        array.values.logical_type is Ok,
        !(array.values.encoding is Constant),
    ensures
        ({
            let after = crate::dict::cache_after(array, cache, flatten);
            let key = array.values.key;
            let logical_type = array.values.logical_type->Ok_0;
            let no_null = forall|k: int|
                0 <= k < array.codes.len() ==> (#[trigger] array.codes[k]) is Some;
            let only_nulls = forall|k: int|
                0 <= k < array.codes.len() ==> (#[trigger] array.codes[k]) is None;
            let empty = array.codes.len() == 0;
            let flat = (flatten || empty || !no_null) && (empty || !only_nulls);
            let selected = !flatten && !empty && no_null;
            let fillable = array.values.encoding is Rows && array.values.fill_error is None;
            &&& after.instance_id == cache.instance_id
            &&& after.vectors == cache.vectors
            &&& after.canonical.remove(key) == cache.canonical.remove(key)
            &&& after.values.remove(key) == cache.values.remove(key)
            &&& after.canonical.contains_key(key) <==> cache.canonical.contains_key(key) || flat
            &&& after.values.contains_key(key) <==> cache.values.contains_key(key) || (selected
                && fillable)
            &&& cache.canonical.contains_key(key) ==> after.canonical[key] == cache.canonical[key]
            &&& cache.values.contains_key(key) ==> after.values[key] == cache.values[key]
            &&& array.values.encoding matches EncodingView::Rows(rows) ==> {
                &&& !cache.canonical.contains_key(key) && flat ==> after.canonical[key].0
                    == array.values && after.canonical[key].1.rows == rows
                    && after.canonical[key].1.logical_type == logical_type
                &&& !cache.values.contains_key(key) && selected && fillable
                    ==> after.values[key].0 == array.values && after.values[key].1.rows == rows
                    && after.values[key].1.logical_type == logical_type
            }
        }),
{
    crate::meaning::law_sets_of_bits(array.codes);
    if array.codes.len() > 0 {
        assert(array.codes[0] is Some || array.codes[0] is None);
    }
    let after = crate::dict::cache_after(array, cache, flatten);
    let key = array.values.key;
    assert(after.canonical.remove(key) =~= cache.canonical.remove(key));
    assert(after.values.remove(key) =~= cache.values.remove(key));
}

/// Building an exporter from executed vectors changes a cache under the key of the values alone: a
/// flat column adds the vector that the values execute to, and a dictionary adds itself. Codes that
/// cannot be executed add nothing.
pub proof fn law_what_a_cache_gains_from_vectors(array: DictView, cache: CacheView, flatten: bool)
    requires
        array.values.logical_type is Ok,
        !(array.values.encoding is Constant),
    ensures
        ({
            let after = crate::dict::cache_after_vector(array, cache, flatten);
            let key = array.values.key;
            let logical_type = array.values.logical_type->Ok_0;
            let no_null = forall|k: int|
                0 <= k < array.codes.len() ==> (#[trigger] array.codes[k]) is Some;
            let only_nulls = forall|k: int|
                0 <= k < array.codes.len() ==> (#[trigger] array.codes[k]) is None;
            let empty = array.codes.len() == 0;
            let whole = array.codes_error is None;
            let flat = whole && (flatten || empty || !no_null) && (empty || !only_nulls);
            let selected = whole && !flatten && !empty && no_null;
            let executable = array.values.encoding is Rows;
            let fillable = array.values.encoding is Rows && array.values.fill_error is None;
            &&& after.instance_id == cache.instance_id
            &&& after.canonical == cache.canonical
            &&& after.vectors.remove(key) == cache.vectors.remove(key)
            &&& after.values.remove(key) == cache.values.remove(key)
            &&& after.vectors.contains_key(key) <==> cache.vectors.contains_key(key) || (flat
                && executable)
            &&& after.values.contains_key(key) <==> cache.values.contains_key(key) || (selected
                && fillable)
            &&& cache.vectors.contains_key(key) ==> after.vectors[key] == cache.vectors[key]
            &&& cache.values.contains_key(key) ==> after.values[key] == cache.values[key]
            &&& array.values.encoding matches EncodingView::Rows(rows) ==> {
                &&& !cache.vectors.contains_key(key) && flat ==> {
                    let held = after.vectors[key].1;
                    &&& after.vectors[key].0 == array.values
                    &&& held.elements.len() == rows.len()
                    &&& forall|k: int|
                        0 <= k < rows.len() ==> match held.validity {
                            MaskView::AllTrue(_) => (#[trigger] rows[k]) == Some(held.elements[k]),
                            MaskView::AllFalse(_) => rows[k] is None,
                            MaskView::Values(bits) => rows[k] == (if bits[k] {
                                Some(held.elements[k])
                            } else {
                                None
                            }),
                        }
                }
                &&& !cache.values.contains_key(key) && selected && fillable
                    ==> after.values[key].0 == array.values && after.values[key].1.rows == rows
                    && after.values[key].1.logical_type == logical_type
            }
        }),
{
    crate::meaning::law_sets_of_bits(array.codes);
    crate::meaning::law_masks_of_rows(array.values.rows());
    if array.codes.len() > 0 {
        assert(array.codes[0] is Some || array.codes[0] is None);
    }
    let after = crate::dict::cache_after_vector(array, cache, flatten);
    let key = array.values.key;
    assert(after.vectors.remove(key) =~= cache.vectors.remove(key));
    assert(after.values.remove(key) =~= cache.values.remove(key));
}

/// A column that has no type or one constant for its values leaves a cache as it was.
pub proof fn law_a_cache_gains_nothing(array: DictView, cache: CacheView, flatten: bool)
    requires
        array.values.logical_type is Err || array.values.encoding is Constant,
    ensures
        crate::dict::cache_after(array, cache, flatten) == cache,
        crate::dict::cache_after_vector(array, cache, flatten) == cache,
{
}

/// Codes that were executed are read under their mask: every row of every window is null where the
/// mask says so, whatever element stands there, and else the value at the element. A dictionary is
/// all of the values, and its selection has the low 32 bits of the elements.
pub proof fn law_executed_codes_are_read_under_their_mask(
    array: DictView,
    codes: PVectorView,
    cache: CacheView,
    flatten: bool,
    values: Seq<Option<u64>>,
    offset: int,
    len: nat,
    i: int,
)
    requires
        array.values.encoding == EncodingView::Rows(values),
        cache.agrees(array.values),
        codes.elements.len() == match codes.validity {
            MaskView::AllTrue(total) => total,
            MaskView::AllFalse(total) => total,
            MaskView::Values(bits) => bits.len(),
        },
        forall|k: int|
            0 <= k < codes.elements.len() ==> match codes.validity {
                MaskView::AllTrue(_) => (#[trigger] codes.elements[k]) < values.len(),
                MaskView::AllFalse(_) => true,
                MaskView::Values(bits) => bits[k] ==> codes.elements[k] < values.len(),
            },
        0 <= offset,
        offset + len <= codes.elements.len(),
        0 <= i < len,
    ensures
        crate::dict::built_from_codes(array, codes, cache, flatten) matches Ok(exporter) ==> {
            let valid = match codes.validity {
                MaskView::AllTrue(_) => true,
                MaskView::AllFalse(_) => false,
                MaskView::Values(bits) => bits[offset + i],
            };
            let element = codes.elements[offset + i];
            let row = if valid {
                values[element as int]
            } else {
                None
            };
            &&& exporter.len() == codes.elements.len()
            &&& match exporter.exported(offset, len) {
                VectorView::Flat(rows) => rows.len() == len && rows[i] == row,
                VectorView::Constant(scalar) => scalar == row,
                VectorView::Dictionary { values: dictionary, selection } => {
                    &&& valid
                    &&& dictionary.rows == values
                    &&& selection.len() == len
                    &&& selection[i] as int == element as int % 0x1_0000_0000
                },
            }
        },
{
    crate::array::lemma_executed_rows(values);
    assert(codes.rows()[offset + i] == match codes.validity {
        MaskView::AllTrue(_) => Some(codes.elements[offset + i]),
        MaskView::AllFalse(_) => None,
        MaskView::Values(bits) => if bits[offset + i] {
            Some(codes.elements[offset + i])
        } else {
            None
        },
    });
}

/// The mask of executed codes and `flatten` alone tell how they are exported: one null under an
/// all-false mask, a dictionary under an all-true mask of some codes where flattening is not asked
/// for, and flat elsewhere. It can only fail for want of a type, of the values or of a dictionary
/// that are not held.
pub proof fn law_form_of_executed_codes(
    array: DictView,
    codes: PVectorView,
    cache: CacheView,
    flatten: bool,
    offset: int,
    len: nat,
)
    ensures
        ({
            let key = array.values.key;
            let built = crate::dict::built_from_codes(array, codes, cache, flatten);
            match (array.values.logical_type, codes.validity) {
                (Err(error), _) => built == Err::<ExporterView, ExportError>(
                    ExportError::UnsupportedType(error),
                ),
                (Ok(logical_type), MaskView::AllFalse(_)) => built matches Ok(exporter)
                    && exporter.exported(offset, len) == VectorView::Constant(None)
                    && exporter.logical_type() == logical_type,
                (Ok(logical_type), validity) => if !flatten && (validity matches MaskView::AllTrue(
                    total,
                ) && total > 0) {
                    match (array.values.encoding, array.values.fill_error) {
                        (EncodingView::Failed(error), _) if !cache.values.contains_key(key) => built
                            == Err::<ExporterView, ExportError>(ExportError::Compute(error)),
                        (_, Some(error)) if !cache.values.contains_key(key) => built == Err::<
                            ExporterView,
                            ExportError,
                        >(ExportError::Fill(error)),
                        _ => match built {
                            Ok(ExporterView::DictVector {
                                vector,
                                codes_type,
                                cache_id,
                                value_id,
                                ..
                            }) => {
                                &&& built->Ok_0.exported(offset, len) is Dictionary
                                &&& vector == codes
                                &&& codes_type == array.ptype
                                &&& cache_id == cache.instance_id
                                &&& value_id == key
                            },
                            _ => false,
                        },
                    }
                } else {
                    match array.values.encoding {
                        EncodingView::Failed(error) if !cache.vectors.contains_key(key) => built
                            == Err::<ExporterView, ExportError>(ExportError::Compute(error)),
                        _ => built matches Ok(exporter) && exporter.exported(offset, len) is Flat
                            && exporter.logical_type() == logical_type,
                    }
                },
            }
        }),
{
}

/// Executed codes change a cache under the key of the values alone: codes that are exported flat add
/// the vector that the values execute to, and codes that select add the dictionary.
pub proof fn law_what_a_cache_gains_from_codes(
    array: DictView,
    codes: PVectorView,
    cache: CacheView,
    flatten: bool,
    values: Seq<Option<u64>>,
)
    requires
        array.values.encoding == EncodingView::Rows(values),
        array.values.logical_type is Ok,
    ensures
        ({
            let after = crate::dict::cache_after_codes(array, codes, cache, flatten);
            let key = array.values.key;
            let selected = !flatten && (codes.validity matches MaskView::AllTrue(total) && total
                > 0);
            let flat = !selected && !(codes.validity is AllFalse);
            let fillable = array.values.fill_error is None;
            &&& after.instance_id == cache.instance_id
            &&& after.canonical == cache.canonical
            &&& after.vectors.remove(key) == cache.vectors.remove(key)
            &&& after.values.remove(key) == cache.values.remove(key)
            &&& after.vectors.contains_key(key) <==> cache.vectors.contains_key(key) || flat
            &&& after.values.contains_key(key) <==> cache.values.contains_key(key) || (selected
                && fillable)
            &&& cache.vectors.contains_key(key) ==> after.vectors[key] == cache.vectors[key]
            &&& cache.values.contains_key(key) ==> after.values[key] == cache.values[key]
            &&& !cache.vectors.contains_key(key) && flat ==> after.vectors[key] == (
                array.values,
                crate::array::executed(values),
            )
            &&& !cache.values.contains_key(key) && selected && fillable ==> after.values[key].0
                == array.values && after.values[key].1.rows == values
                && after.values[key].1.logical_type == array.values.logical_type->Ok_0
        }),
{
    let after = crate::dict::cache_after_codes(array, codes, cache, flatten);
    let key = array.values.key;
    assert(after.vectors.remove(key) =~= cache.vectors.remove(key));
    assert(after.values.remove(key) =~= cache.values.remove(key));
}

/// Executed codes leave a cache as it was where the values have no type, where the codes are all
/// null by their mask, and where no exporter can be built of them.
pub proof fn law_executed_codes_that_add_nothing(
    array: DictView,
    codes: PVectorView,
    cache: CacheView,
    flatten: bool,
)
    requires
        array.values.logical_type is Err || codes.validity is AllFalse
            || crate::dict::built_from_codes(array, codes, cache, flatten) is Err,
    ensures
        crate::dict::cache_after_codes(array, codes, cache, flatten) == cache,
{
}

} // verus!
