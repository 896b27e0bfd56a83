//! Exporters of dictionary-encoded arrays.
use crate::array::ArrayRef;
use crate::array::Canonical;
use crate::array::DictArray;
use crate::array::DictView;
use crate::array::Encoding;
use crate::array::EncodingView;
use crate::array::LogicalType;
use crate::array::PType;
use crate::array::PVector;
use crate::array::PVectorView;
use crate::array::to_rows;
use crate::cache::CacheView;
use crate::cache::ConversionCache;
use crate::compute;
use crate::compute::share;
use crate::duckdb::ReusableDict;
use crate::duckdb::Vector;
use crate::exporter::ColumnExporter;
use crate::exporter::ExportError;
use crate::exporter::ExporterView;
use crate::exporter::new_all_invalid_exporter;
use crate::exporter::new_array_exporter;
use crate::exporter::new_array_exporter_from_taken;
use crate::exporter::new_constant_exporter_from_mask;
use crate::exporter::new_constant_exporter_with_mask;
use crate::mask::Mask;
use crate::mask::MaskView;
use std::sync::Arc;
use vortex::session::VortexSession;
use vortex_error::VortexError;
use vstd::pervasive::unreached;
use vstd::prelude::*;

verus! {

/// Exports codes as selections of one dictionary.
#[derive(Debug, PartialEq, Eq)]
pub struct DictExporter {
    // The dictionary is stored once and exported with each chunk of codes.
    pub values: ReusableDict,
    pub codes: Vec<u64>,
    pub codes_type: PType,
    pub cache_id: u64,
    pub value_id: usize,
}

/// Exports the codes of an executed vector as selections of one dictionary.
#[derive(Debug, PartialEq, Eq)]
pub struct DictVectorExporter {
    // The dictionary is stored once and exported with each chunk of codes.
    pub values: ReusableDict,
    pub codes: PVector,
    pub codes_type: PType,
    pub cache_id: u64,
    pub value_id: usize,
}

impl View for DictExporter {
    type V = ExporterView;

    open spec fn view(&self) -> ExporterView {
        ExporterView::Dict {
            values: self.values@,
            codes: self.codes@,
            codes_type: self.codes_type,
            cache_id: self.cache_id,
            value_id: self.value_id,
        }
    }
}

impl View for DictVectorExporter {
    type V = ExporterView;

    open spec fn view(&self) -> ExporterView {
        ExporterView::DictVector {
            values: self.values@,
            vector: self.codes@,
            codes_type: self.codes_type,
            cache_id: self.cache_id,
            value_id: self.value_id,
        }
    }
}

/// The selection of the codes from `offset` on, `len` in number.
fn select(codes: &Vec<u64>, offset: usize, len: usize) -> (selection: Vec<u32>)
    requires
        offset + len <= codes@.len(),
    ensures
        selection@ == crate::exporter::selected(codes@, offset as int, len as nat),
{
    let mut selection: Vec<u32> = Vec::new();
    let total: usize = codes.len();
    for i in 0..len
        invariant
            total == codes@.len(),
            offset + len <= total,
            selection@ =~= crate::exporter::selected(codes@, offset as int, i as nat),
    {
        selection.push(compute::as_u32(codes[offset + i]));
    }
    selection
}

impl DictExporter {
    /// Makes `vector` one of positions in the dictionary: the codes from `offset` on, `len` in
    /// number.
    pub fn export(&self, offset: usize, len: usize, vector: &mut Vector) -> (result: Result<
        (),
        ExportError,
    >)
        requires
            offset + len <= self@.len(),
        ensures
            result is Ok,
            final(vector)@ == self@.exported(offset as int, len as nat),
    {
        let selection = select(&self.codes, offset, len);
        vector.reuse_dictionary(&self.values, selection);
        Ok(())
    }
}

impl DictVectorExporter {
    /// Makes `vector` one of positions in the dictionary: the codes from `offset` on, `len` in
    /// number.
    pub fn export(&self, offset: usize, len: usize, vector: &mut Vector) -> (result: Result<
        (),
        ExportError,
    >)
        requires
            offset + len <= self@.len(),
        ensures
            result is Ok,
            final(vector)@ == self@.exported(offset as int, len as nat),
    {
        let selection = select(&self.codes.elements, offset, len);
        vector.reuse_dictionary(&self.values, selection);
        Ok(())
    }
}

/// There are codes, and each of them is null.
pub open spec fn all_null(array: DictView) -> bool {
    array.codes.len() > 0 && crate::mask::none_set(crate::array::validity(array.codes))
}

/// The column is exported from the rows of its values: the database has a type for them, they are
/// not one constant, and there is something else than nulls to export.
pub open spec fn uses_values(array: DictView) -> bool {
    &&& array.values.logical_type is Ok
    &&& !(array.values.encoding is Constant)
    &&& !all_null(array)
}

/// The column is exported flat where `flatten` asks for it, and also where some code is null, since
/// the database has no dictionary with nulls among its positions, or where there is no code.
pub open spec fn flattened(array: DictView, flatten: bool) -> bool {
    flatten || array.codes.len() == 0 || !crate::mask::all_set(crate::array::validity(array.codes))
}

/// What [`new_exporter_with_flatten`] returns.
pub open spec fn built(array: DictView, cache: CacheView, flatten: bool) -> Result<
    ExporterView,
    ExportError,
> {
    match (array.values.logical_type, array.values.encoding) {
        (Err(error), _) => Err(ExportError::UnsupportedType(error)),
        (Ok(logical_type), EncodingView::Constant { scalar, .. }) => Ok(
            ExporterView::Constant {
                scalar,
                logical_type,
                len: array.codes.len(),
                mask: crate::mask::validity_mask(crate::array::validity(array.codes)),
            },
        ),
        (Ok(logical_type), _) => if all_null(array) {
            Ok(ExporterView::AllInvalid { len: array.codes.len(), logical_type })
        } else if flattened(array, flatten) {
            let canonical = cache.canonical_form(array.values);
            Ok(
                ExporterView::Array {
                    logical_type: canonical.logical_type,
                    rows: crate::array::taken(canonical.rows, array.codes),
                },
            )
        } else {
            match cache.dict_failure(array.values) {
                Some(error) => Err(error),
                None => Ok(
                    ExporterView::Dict {
                        values: cache.dict(array.values),
                        codes: crate::array::executed(array.codes).elements,
                        codes_type: array.ptype,
                        cache_id: cache.instance_id,
                        value_id: array.values.key,
                    },
                ),
            }
        },
    }
}

/// What [`new_exporter_with_flatten`] leaves in the cache.
pub open spec fn cache_after(array: DictView, cache: CacheView, flatten: bool) -> CacheView {
    if !uses_values(array) {
        cache
    } else if flattened(array, flatten) {
        cache.with_canonical(array.values)
    } else {
        cache.with_dict(array.values)
    }
}

/// What [`new_vector_exporter_with_flatten`] returns.
pub open spec fn built_vector(array: DictView, cache: CacheView, flatten: bool) -> Result<
    ExporterView,
    ExportError,
> {
    match (array.values.logical_type, array.codes_error, array.values.encoding) {
        (Err(error), _, _) => Err(ExportError::UnsupportedType(error)),
        (Ok(_), Some(error), _) => Err(ExportError::Compute(error)),
        (Ok(logical_type), None, EncodingView::Constant { scalar, .. }) => Ok(
            ExporterView::Constant {
                scalar,
                logical_type,
                len: array.codes.len(),
                mask: crate::mask::computed_mask(crate::array::validity(array.codes)),
            },
        ),
        (Ok(logical_type), None, _) => if all_null(array) {
            Ok(ExporterView::AllInvalid { len: array.codes.len(), logical_type })
        } else if flattened(array, flatten) {
            match cache.vector_failure(array.values) {
                Some(error) => Err(error),
                None => Ok(
                    ExporterView::Array {
                        logical_type,
                        rows: crate::array::taken(cache.vector(array.values).rows(), array.codes),
                    },
                ),
            }
        } else {
            match cache.dict_failure(array.values) {
                Some(error) => Err(error),
                None => Ok(
                    ExporterView::DictVector {
                        values: cache.dict(array.values),
                        vector: crate::array::executed(array.codes),
                        codes_type: array.ptype,
                        cache_id: cache.instance_id,
                        value_id: array.values.key,
                    },
                ),
            }
        },
    }
}

/// What [`new_vector_exporter_with_flatten`] leaves in the cache.
pub open spec fn cache_after_vector(array: DictView, cache: CacheView, flatten: bool) -> CacheView {
    if !uses_values(array) || array.codes_error is Some {
        cache
    } else if flattened(array, flatten) {
        cache.with_vector(array.values)
    } else {
        cache.with_dict(array.values)
    }
}

/// Codes that were executed are exported flat where `flatten` asks for it, and also where their mask
/// has bits of its own or there is no code.
pub open spec fn flattened_codes(codes: PVectorView, flatten: bool) -> bool {
    flatten || codes.validity is Values || codes.validity.len() == 0
}

/// The values at codes that were executed are taken.
pub open spec fn takes_at_codes(array: DictView, codes: PVectorView, flatten: bool) -> bool {
    &&& array.values.logical_type is Ok
    &&& !(codes.validity is AllFalse)
    &&& flattened_codes(codes, flatten)
}

/// What [`new_vector_exporter_from_codes`] returns for the codes of an array.
pub open spec fn built_from_codes(
    array: DictView,
    codes: PVectorView,
    cache: CacheView,
    flatten: bool,
) -> Result<ExporterView, ExportError> {
    match (array.values.logical_type, codes.validity) {
        (Err(error), _) => Err(ExportError::UnsupportedType(error)),
        (Ok(logical_type), MaskView::AllFalse(len)) => Ok(
            ExporterView::AllInvalid { len, logical_type },
        ),
        (Ok(logical_type), _) => if flattened_codes(codes, flatten) {
            match cache.vector_failure(array.values) {
                Some(error) => Err(error),
                None => Ok(
                    ExporterView::Array {
                        logical_type,
                        rows: crate::array::taken(cache.vector(array.values).rows(), codes.rows()),
                    },
                ),
            }
        } else {
            match cache.dict_failure(array.values) {
                Some(error) => Err(error),
                None => Ok(
                    ExporterView::DictVector {
                        values: cache.dict(array.values),
                        vector: codes,
                        codes_type: array.ptype,
                        cache_id: cache.instance_id,
                        value_id: array.values.key,
                    },
                ),
            }
        },
    }
}

/// What [`new_vector_exporter_from_codes`] leaves in the cache for the codes of an array.
pub open spec fn cache_after_codes(
    array: DictView,
    codes: PVectorView,
    cache: CacheView,
    flatten: bool,
) -> CacheView {
    if array.values.logical_type is Err || codes.validity is AllFalse {
        cache
    } else if flattened_codes(codes, flatten) {
        cache.with_vector(array.values)
    } else {
        cache.with_dict(array.values)
    }
}

/// An exporter or an error, as a mathematical value.
pub open spec fn outcome(result: Result<ColumnExporter, ExportError>) -> Result<
    ExporterView,
    ExportError,
> {
    match result {
        Ok(exporter) => Ok(exporter@),
        Err(error) => Err(error),
    }
}

/// Where some code is not null and the codes are in range, there is a value.
proof fn lemma_some_value(array: DictView, len: nat)
    requires
        crate::array::in_range(array.codes, len),
        array.codes.len() > 0,
        !all_null(array),
    ensures
        len > 0,
{
    let i = choose|i: int|
        0 <= i < array.codes.len() && crate::array::validity(array.codes)[i];
    assert(array.codes[i] is Some);
}

/// Codes that are all valid are not all null.
proof fn lemma_valid_codes(array: DictView)
    ensures
        crate::mask::all_set(crate::array::validity(array.codes)) ==> !all_null(array),
{
    let bits = crate::array::validity(array.codes);
    if array.codes.len() > 0 && crate::mask::all_set(bits) {
        assert(bits[0]);
    }
}

/// The dictionary of `array`: the one that the cache holds, or else one that is filled with the
/// array's rows and held from then on. One that cannot be filled is not held.
fn reusable_dict(array: &ArrayRef, logical_type: LogicalType, cache: &mut ConversionCache) -> (result:
    Result<ReusableDict, ExportError>)
    requires
        !(array@.encoding is Constant),
        array@.logical_type == Ok::<LogicalType, Arc<VortexError>>(logical_type),
    ensures
        match old(cache)@.dict_failure(array@) {
            Some(error) => result == Err::<ReusableDict, ExportError>(error),
            None => result matches Ok(dict) && dict@ == old(cache)@.dict(array@),
        },
        final(cache)@ == old(cache)@.with_dict(array@),
{
    if let Some(dict) = cache.get_dict(array.key) {
        return Ok(dict);
    }
    match &array.encoding {
        Encoding::Rows(rows) => {
            let mut dict = ReusableDict::new(logical_type);
            let filled = dict.fill(rows, &array.fill_error);
            if let Err(error) = filled {
                return Err(error);
            }
            cache.insert_dict(array.clone(), dict.clone());
            Ok(dict)
        },
        Encoding::Failed(error) => Err(ExportError::Compute(share(error))),
        Encoding::Constant { .. } => unreached(),
    }
}

/// The canonical form of `array`: the one that the cache holds, or else its own, which is computed
/// and held from then on.
fn canonical_form(array: &ArrayRef, logical_type: LogicalType, cache: &mut ConversionCache) -> (
    canonical: Canonical)
    requires
        !(array@.encoding is Constant),
        array@.logical_type == Ok::<LogicalType, Arc<VortexError>>(logical_type),
        old(cache)@.has_canonical_form(array@),
    ensures
        canonical@ == old(cache)@.canonical_form(array@),
        final(cache)@ == old(cache)@.with_canonical(array@),
{
    if let Some(canonical) = cache.get_canonical(array.key) {
        return canonical;
    }
    match &array.encoding {
        Encoding::Rows(rows) => {
            let (elements, valid) = compute::to_canonical(rows);
            let canonical = Canonical { logical_type, rows: to_rows(&elements, &valid) };
            cache.insert_canonical(array.clone(), canonical.clone());
            canonical
        },
        Encoding::Failed(_) => unreached(),
        Encoding::Constant { .. } => unreached(),
    }
}

/// The vector of `array`: the one that the cache holds, or else what the array executes to, which
/// is held from then on. Where the array cannot be executed, nothing is held.
fn executed_values(
    array: &ArrayRef,
    cache: &mut ConversionCache,
    session: &VortexSession,
) -> (result: Result<PVector, ExportError>)
    requires
        !(array@.encoding is Constant),
    ensures
        match old(cache)@.vector_failure(array@) {
            Some(error) => result == Err::<PVector, ExportError>(error),
            None => result matches Ok(vector) && vector@ == old(cache)@.vector(array@),
        },
        final(cache)@ == old(cache)@.with_vector(array@),
{
    if let Some(vector) = cache.get_vector(array.key) {
        return Ok(vector);
    }
    match &array.encoding {
        Encoding::Rows(rows) => cache.hold_executed(array, compute::execute_vector(rows, session)),
        Encoding::Failed(error) => Err(ExportError::Compute(share(error))),
        Encoding::Constant { .. } => unreached(),
    }
}

/// How the values of a column are used.
enum Use {
    /// Not at all.
    Nothing,
    /// The values at the codes are taken, for a flat column.
    Taken,
    /// The codes select from a dictionary of the values.
    Selected,
}

/// How the values of `array` are used.
fn values_use(array: &DictArray, flatten: bool) -> (used: Use)
    ensures
        used is Nothing <==> !uses_values(array@),
        used is Taken <==> uses_values(array@) && flattened(array@, flatten),
{
    proof {
        lemma_valid_codes(array@);
    }
    if array.values.logical_type.is_err() {
        return Use::Nothing;
    }
    if let Encoding::Constant { .. } = &array.values.encoding {
        return Use::Nothing;
    }
    match compute::array_validity_mask(&array.codes) {
        Mask::AllTrue(len) => if flatten || len == 0 {
            Use::Taken
        } else {
            Use::Selected
        },
        Mask::AllFalse(_) => Use::Nothing,
        Mask::Values(_) => Use::Taken,
    }
}

/// Whether an exporter of `array` takes the values at its codes, so that the codes must be in range.
pub fn takes_values(array: &DictArray, flatten: bool) -> (takes: bool)
    ensures
        takes == (uses_values(array@) && flattened(array@, flatten)),
{
    matches!(values_use(array, flatten), Use::Taken)
}

/// Whether [`new_vector_exporter_with_flatten`] executes the values of `array`: the codes could be
/// executed, the values at them are taken, and the cache holds no vector of the values.
pub fn executes_values(array: &DictArray, cache: &ConversionCache, flatten: bool) -> (executes: bool)
    ensures
        executes == (array@.codes_error is None && uses_values(array@) && flattened(
            array@,
            flatten,
        ) && !cache@.vectors.contains_key(array@.values.key)),
{
    array.codes_error.is_none() && takes_values(array, flatten) && !cache.holds_vector(
        array.values.key,
    )
}

/// Whether an exporter of `array` has a dictionary filled with its values: the codes could be
/// executed, they select from a dictionary, and the cache holds none.
pub fn fills_dictionary(array: &DictArray, cache: &ConversionCache, flatten: bool) -> (fills: bool)
    ensures
        fills == (array@.codes_error is None && uses_values(array@) && !flattened(array@, flatten)
            && !cache@.values.contains_key(array@.values.key)),
{
    array.codes_error.is_none() && matches!(values_use(array, flatten), Use::Selected)
        && !cache.holds_dict(array.values.key)
}

/// An exporter of a dictionary-encoded array. `flatten` tells whether to export flat vectors even
/// where the array could be exported as a dictionary.
pub fn new_exporter_with_flatten(
    array: &DictArray,
    cache: &mut ConversionCache,
    flatten: bool,
) -> (result: Result<ColumnExporter, ExportError>)
    requires
        uses_values(array@) ==> array@.codes_error is None,
        uses_values(array@) && flattened(array@, flatten) ==> {
            &&& old(cache)@.has_canonical_form(array@.values)
            &&& crate::array::in_range(
                array@.codes,
                old(cache)@.canonical_form(array@.values).rows.len(),
            )
        },
    ensures
        outcome(result) == built(array@, old(cache)@, flatten),
        result matches Ok(exporter) ==> exporter@.wf() && exporter@.len() == array@.codes.len(),
        final(cache)@ == cache_after(array@, old(cache)@, flatten),
        old(cache)@.wf() ==> final(cache)@.wf(),
{
    broadcast use crate::mask::lemma_validity_mask_bits;

    let values = &array.values;
    let logical_type = match &values.logical_type {
        Ok(logical_type) => *logical_type,
        Err(error) => return Err(ExportError::UnsupportedType(share(error))),
    };
    let codes_mask = compute::array_validity_mask(&array.codes);
    if let Encoding::Constant { scalar, .. } = &values.encoding {
        return Ok(
            new_constant_exporter_with_mask(*scalar, logical_type, array.codes.len(), codes_mask),
        );
    }

    let mut flat = flatten;
    match codes_mask {
        Mask::AllTrue(len) => {
            // A dictionary vector has at least one position.
            if len == 0 {
                flat = true;
            }
        },
        Mask::AllFalse(len) => {
            return Ok(new_all_invalid_exporter(len, logical_type));
        },
        Mask::Values(_) => {
            // The database cannot have a dictionary with nulls in the codes, so the array is
            // flattened and the nulls are exported there.
            flat = true;
        },
    }
    assert(flat == flattened(array@, flatten) && !all_null(array@)) by {
        lemma_valid_codes(array@);
    }

    if flat {
        let canonical = canonical_form(values, logical_type, cache);
        proof {
            if array@.codes.len() > 0 {
                lemma_some_value(array@, canonical@.rows.len());
            }
        }
        let taken = compute::take(&canonical.rows, &array.codes);
        new_array_exporter_from_taken(taken, canonical.logical_type)
    } else {
        let dict = match reusable_dict(values, logical_type, cache) {
            Ok(dict) => dict,
            Err(error) => return Err(error),
        };
        let (codes, valid) = compute::to_canonical(&array.codes);
        assert(codes@ =~= crate::array::executed(array@.codes).elements) by {
            let rows = crate::array::masked(codes@, valid@);
            assert forall|i: int| 0 <= i < codes@.len() implies rows[i] == Some(codes@[i]) by {
                assert(crate::array::validity(array@.codes)[i]);
            }
        }
        Ok(
            ColumnExporter::Dict(
                DictExporter {
                    values: dict,
                    codes,
                    codes_type: array.ptype,
                    cache_id: cache.instance_id(),
                    value_id: values.key,
                },
            ),
        )
    }
}

/// For the codes that an array executes to, [`new_vector_exporter_from_codes`] does what
/// [`new_vector_exporter_with_flatten`] does for the array.
proof fn lemma_built_from_codes(array: DictView, cache: CacheView, flatten: bool)
    requires
        !(array.values.encoding is Constant),
        array.codes_error is None,
    ensures
        ({
            let codes = crate::array::executed(array.codes);
            &&& built_from_codes(array, codes, cache, flatten) == built_vector(array, cache, flatten)
            &&& cache_after_codes(array, codes, cache, flatten) == cache_after_vector(
                array,
                cache,
                flatten,
            )
            &&& takes_at_codes(array, codes, flatten) == (uses_values(array) && flattened(
                array,
                flatten,
            ))
        }),
{
    broadcast use crate::array::lemma_executed_rows;

    lemma_valid_codes(array);
}

/// An exporter of the array whose codes executed to `codes`. Where executing them failed, so does
/// the export, and the cache stays as it was.
pub fn new_vector_exporter_from_codes(
    array: &DictArray,
    codes: Result<PVector, VortexError>,
    cache: &mut ConversionCache,
    session: &VortexSession,
    flatten: bool,
) -> (result: Result<ColumnExporter, ExportError>)
    requires
        old(cache)@.wf(),
        !(array@.values.encoding is Constant),
        codes matches Ok(codes) ==> codes@.wf(),
        codes matches Ok(codes) ==> takes_at_codes(array@, codes@, flatten)
            && old(cache)@.vector_failure(array@.values) is None ==> {
            let total = old(cache)@.vector(array@.values).rows().len();
            &&& crate::array::in_range(codes@.rows(), total)
            &&& codes@.rows().len() > 0 ==> total > 0
        },
    ensures
        match codes {
            Ok(codes) => {
                &&& outcome(result) == built_from_codes(array@, codes@, old(cache)@, flatten)
                &&& result matches Ok(exporter) ==> exporter@.wf() && exporter@.len()
                    == codes@.elements.len()
                &&& final(cache)@ == cache_after_codes(array@, codes@, old(cache)@, flatten)
            },
            Err(error) => {
                &&& match array@.values.logical_type {
                    Ok(_) => result matches Err(ExportError::Compute(kept)) && *kept == error,
                    Err(refusal) => result == Err::<ColumnExporter, ExportError>(
                        ExportError::UnsupportedType(refusal),
                    ),
                }
                &&& final(cache)@ == old(cache)@
            },
        },
        final(cache)@.wf(),
{
    broadcast use crate::array::lemma_executed_rows;

    let values = &array.values;
    let logical_type = match &values.logical_type {
        Ok(logical_type) => *logical_type,
        Err(error) => return Err(ExportError::UnsupportedType(share(error))),
    };
    let codes = match codes {
        Ok(codes) => codes,
        Err(error) => return Err(ExportError::from_compute(error)),
    };
    let mut flat = flatten;
    match &codes.validity {
        Mask::AllTrue(len) => {
            // A dictionary vector has at least one position.
            if *len == 0 {
                flat = true;
            }
        },
        Mask::AllFalse(len) => {
            return Ok(new_all_invalid_exporter(*len, logical_type));
        },
        Mask::Values(_) => {
            // The database cannot have a dictionary with nulls in the codes, so the array is
            // flattened and the nulls are exported there.
            flat = true;
        },
    }

    if flat {
        let vector = match executed_values(values, cache, session) {
            Ok(vector) => vector,
            Err(error) => return Err(error),
        };
        let (elements, valid) = compute::take_vector(&vector.to_rows(), &codes.to_rows());
        Ok(new_array_exporter(to_rows(&elements, &valid), logical_type))
    } else {
        let dict = match reusable_dict(values, logical_type, cache) {
            Ok(dict) => dict,
            Err(error) => return Err(error),
        };
        Ok(
            ColumnExporter::DictVector(
                DictVectorExporter {
                    values: dict,
                    codes,
                    codes_type: array.ptype,
                    cache_id: cache.instance_id(),
                    value_id: values.key,
                },
            ),
        )
    }
}

/// An exporter of a dictionary-encoded array, like [`new_exporter_with_flatten`], that has arrays
/// executed in `session`. Codes that cannot be executed leave the cache as it was.
pub fn new_vector_exporter_with_flatten(
    array: &DictArray,
    cache: &mut ConversionCache,
    session: &VortexSession,
    flatten: bool,
) -> (result: Result<ColumnExporter, ExportError>)
    requires
        old(cache)@.wf(),
        array@.codes_error is None && uses_values(array@) && flattened(array@, flatten)
            && old(cache)@.vector_failure(array@.values) is None ==> crate::array::in_range(
            array@.codes,
            old(cache)@.vector(array@.values).rows().len(),
        ),
    ensures
        outcome(result) == built_vector(array@, old(cache)@, flatten),
        result matches Ok(exporter) ==> exporter@.wf() && exporter@.len() == array@.codes.len(),
        final(cache)@ == cache_after_vector(array@, old(cache)@, flatten),
        final(cache)@.wf(),
{
    broadcast use crate::mask::lemma_computed_mask_bits;
    broadcast use crate::array::lemma_executed_rows;

    let logical_type = match &array.values.logical_type {
        Ok(logical_type) => *logical_type,
        Err(error) => return Err(ExportError::UnsupportedType(share(error))),
    };
    if let Some(error) = &array.codes_error {
        return Err(ExportError::Compute(share(error)));
    }
    if let Encoding::Constant { scalar, .. } = &array.values.encoding {
        let mask = compute::not_null_mask(&array.codes, session);
        return new_constant_exporter_from_mask(*scalar, logical_type, array.codes.len(), mask);
    }
    proof {
        lemma_built_from_codes(array@, cache@, flatten);
        if uses_values(array@) && flattened(array@, flatten) && cache@.vector_failure(array@.values)
            is None && array@.codes.len() > 0 {
            lemma_some_value(array@, cache@.vector(array@.values).rows().len());
        }
    }
    let codes = compute::execute_vector(&array.codes, session);
    new_vector_exporter_from_codes(array, codes, cache, session, flatten)
}

} // verus!
