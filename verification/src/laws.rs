//! What holds of exports as a whole, whichever way a column is exported.
use crate::array::ArrayView;
use crate::array::DictView;
use crate::array::PType;
use crate::cache::CacheView;
use crate::duckdb::VectorView;
use crate::exporter::ExporterView;
use vstd::prelude::*;

verus! {

/// Where the array is exported as a dictionary, every code is one of the positions that a selection
/// can hold.
pub open spec fn selectable(array: DictView, flatten: bool) -> bool {
    crate::dict::uses_values(array) && !crate::dict::flattened(array, flatten)
        ==> crate::array::in_range(array.codes, 0x1_0000_0000)
}

/// An exporter that was built for an array exports the array's rows: every window of the column
/// holds the values at its codes, and null where a code is null. This is so with and without
/// flattening, and whatever the cache holds of other arrays.
pub proof fn law_export_holds_the_rows(
    array: DictView,
    cache: CacheView,
    flatten: bool,
    offset: int,
    len: nat,
)
    requires
        array.wf(),
        selectable(array, flatten),
        cache.agrees(array.values),
        crate::dict::built(array, cache, flatten) is Ok,
        0 <= offset,
        offset + len <= array.codes.len(),
    ensures
        crate::dict::built(array, cache, flatten)->Ok_0.exported(offset, len).rows(len)
            == array.rows().subrange(offset, offset + len),
{
    broadcast use crate::mask::lemma_validity_mask_bits;

    let exporter = crate::dict::built(array, cache, flatten)->Ok_0;
    let bits = crate::array::validity(array.codes);
    assert forall|i: int| 0 <= i < len implies exporter.exported(offset, len).row(i)
        == array.rows()[offset + i] by {
        let code = array.codes[offset + i];
        assert(bits[offset + i] == (code is Some));
        assert(crate::mask::validity_mask(bits).bits()[offset + i] == (code is Some));
    }
    assert(exporter.exported(offset, len).rows(len) =~= array.rows().subrange(
        offset,
        offset + len,
    ));
}

/// An exporter that was built from executed vectors exports the array's rows too.
pub proof fn law_vector_export_holds_the_rows(
    array: DictView,
    cache: CacheView,
    flatten: bool,
    offset: int,
    len: nat,
)
    requires
        array.wf(),
        selectable(array, flatten),
        cache.agrees(array.values),
        crate::dict::built_vector(array, cache, flatten) is Ok,
        0 <= offset,
        offset + len <= array.codes.len(),
    ensures
        crate::dict::built_vector(array, cache, flatten)->Ok_0.exported(offset, len).rows(len)
            == array.rows().subrange(offset, offset + len),
{
    broadcast use crate::mask::lemma_computed_mask_bits;
    broadcast use crate::array::lemma_executed_rows;

    let exporter = crate::dict::built_vector(array, cache, flatten)->Ok_0;
    let bits = crate::array::validity(array.codes);
    assert forall|i: int| 0 <= i < len implies exporter.exported(offset, len).row(i)
        == array.rows()[offset + i] by {
        let code = array.codes[offset + i];
        assert(bits[offset + i] == (code is Some));
        assert(crate::mask::computed_mask(bits).bits()[offset + i] == (code is Some));
    }
    assert(exporter.exported(offset, len).rows(len) =~= array.rows().subrange(
        offset,
        offset + len,
    ));
}

/// Flattening changes how a column is exported, not what: wherever both can be built, the windows of
/// an array are the same rows whether it is flattened or not, and whichever caches are used.
pub proof fn law_flattening_keeps_the_rows(
    array: DictView,
    cache: CacheView,
    other_cache: CacheView,
    offset: int,
    len: nat,
)
    requires
        array.wf(),
        selectable(array, false),
        cache.agrees(array.values),
        other_cache.agrees(array.values),
        0 <= offset,
        offset + len <= array.codes.len(),
    ensures
        crate::dict::built(array, cache, true) matches Ok(flat) ==> crate::dict::built(
            array,
            other_cache,
            false,
        ) matches Ok(exporter) ==> flat.exported(offset, len).rows(len) == exporter.exported(
            offset,
            len,
        ).rows(len),
        crate::dict::built_vector(array, cache, true) matches Ok(flat)
            ==> crate::dict::built_vector(array, other_cache, false) matches Ok(exporter)
            ==> flat.exported(offset, len).rows(len) == exporter.exported(offset, len).rows(len),
{
    if crate::dict::built(array, cache, true) is Ok && crate::dict::built(array, other_cache, false)
        is Ok {
        law_export_holds_the_rows(array, cache, true, offset, len);
        law_export_holds_the_rows(array, other_cache, false, offset, len);
    }
    if crate::dict::built_vector(array, cache, true) is Ok && crate::dict::built_vector(
        array,
        other_cache,
        false,
    ) is Ok {
        law_vector_export_holds_the_rows(array, cache, true, offset, len);
        law_vector_export_holds_the_rows(array, other_cache, false, offset, len);
    }
}

/// Arrays and executed vectors are exported alike: both ways of building an exporter succeed on the
/// same arrays, given that codes and values that must be executed can be, and their windows hold the
/// same rows.
pub proof fn law_vectors_export_like_arrays(
    array: DictView,
    cache: CacheView,
    flatten: bool,
    offset: int,
    len: nat,
)
    requires
        array.wf(),
        selectable(array, flatten),
        cache.agrees(array.values),
        array.codes_error is None,
        crate::dict::uses_values(array) && crate::dict::flattened(array, flatten)
            ==> cache.vector_failure(array.values) is None,
        0 <= offset,
        offset + len <= array.codes.len(),
    ensures
        crate::dict::built(array, cache, flatten) is Ok <==> crate::dict::built_vector(
            array,
            cache,
            flatten,
        ) is Ok,
        crate::dict::built(array, cache, flatten) is Err ==> crate::dict::built(
            array,
            cache,
            flatten,
        ) == crate::dict::built_vector(array, cache, flatten),
        crate::dict::built(array, cache, flatten) is Ok ==> crate::dict::built(
            array,
            cache,
            flatten,
        )->Ok_0.exported(offset, len).rows(len) == crate::dict::built_vector(
            array,
            cache,
            flatten,
        )->Ok_0.exported(offset, len).rows(len),
{
    if crate::dict::built(array, cache, flatten) is Ok {
        law_export_holds_the_rows(array, cache, flatten, offset, len);
        law_vector_export_holds_the_rows(array, cache, flatten, offset, len);
    }
}

/// A window is exported as a dictionary only where no code of the array is null and flattening was
/// not asked for.
pub proof fn law_no_dictionary_has_null_codes(
    array: DictView,
    cache: CacheView,
    flatten: bool,
    offset: int,
    len: nat,
)
    ensures
        crate::dict::built(array, cache, flatten) matches Ok(exporter) ==> exporter.exported(
            offset,
            len,
        ) is Dictionary ==> !flatten && forall|i: int|
            0 <= i < array.codes.len() ==> (#[trigger] array.codes[i]) is Some,
        crate::dict::built_vector(array, cache, flatten) matches Ok(exporter) ==> exporter.exported(
            offset,
            len,
        ) is Dictionary ==> !flatten && forall|i: int|
            0 <= i < array.codes.len() ==> (#[trigger] array.codes[i]) is Some,
{
    let bits = crate::array::validity(array.codes);
    assert forall|i: int| 0 <= i < array.codes.len() implies bits[i] == (
    #[trigger] array.codes[i]) is Some by {}
}

/// The windows of a column join up: exporting a window in two parts gives the rows of the whole.
pub proof fn law_windows_join(exporter: ExporterView, offset: int, first: nat, second: nat)
    requires
        0 <= offset,
        offset + first + second <= exporter.len(),
    ensures
        exporter.exported(offset, first).rows(first) + exporter.exported(
            offset + first,
            second,
        ).rows(second) == exporter.exported(offset, first + second).rows(first + second),
{
    assert(exporter.exported(offset, first).rows(first) + exporter.exported(
        offset + first,
        second,
    ).rows(second) =~= exporter.exported(offset, first + second).rows(first + second));
}

/// Codes of at most 32 bits are positions that a selection can hold.
pub proof fn law_narrow_types_are_selectable(array: DictView, flatten: bool)
    requires
        array.wf(),
        array.ptype != PType::U64,
    ensures
        selectable(array, flatten),
{
}

/// Codes that a selection can hold are exported as they are.
pub proof fn law_narrow_codes_are_kept(
    array: DictView,
    cache: CacheView,
    flatten: bool,
    offset: int,
    len: nat,
    i: int,
)
    requires
        selectable(array, flatten),
        0 <= offset,
        offset + len <= array.codes.len(),
        0 <= i < len,
    ensures
        crate::dict::built(array, cache, flatten) matches Ok(exporter) ==> exporter.exported(
            offset,
            len,
        ) matches VectorView::Dictionary { selection, .. } ==> array.codes[offset + i] == Some(
            selection[i] as u64,
        ),
        crate::dict::built_vector(array, cache, flatten) matches Ok(exporter) ==> exporter.exported(
            offset,
            len,
        ) matches VectorView::Dictionary { selection, .. } ==> array.codes[offset + i] == Some(
            selection[i] as u64,
        ),
{
    law_no_dictionary_has_null_codes(array, cache, flatten, offset, len);
    let code = array.codes[offset + i];
    assert(code matches Some(code) ==> code % 0x1_0000_0000 <= code);
}

/// A selection stays within its dictionary: every position that is exported has a value.
pub proof fn law_selection_is_in_the_dictionary(
    array: DictView,
    cache: CacheView,
    flatten: bool,
    offset: int,
    len: nat,
    i: int,
)
    requires
        array.wf(),
        cache.agrees(array.values),
        0 <= offset,
        offset + len <= array.codes.len(),
        0 <= i < len,
    ensures
        crate::dict::built(array, cache, flatten) matches Ok(exporter) ==> exporter.exported(
            offset,
            len,
        ) matches VectorView::Dictionary { values, selection } ==> selection[i]
            < values.rows.len(),
        crate::dict::built_vector(array, cache, flatten) matches Ok(exporter) ==> exporter.exported(
            offset,
            len,
        ) matches VectorView::Dictionary { values, selection } ==> selection[i]
            < values.rows.len(),
{
    law_no_dictionary_has_null_codes(array, cache, flatten, offset, len);
    let code = array.codes[offset + i];
    assert(code matches Some(code) ==> code % 0x1_0000_0000 <= code);
}

/// A column keeps the type of its values, however it is exported.
pub proof fn law_columns_keep_their_type(array: DictView, cache: CacheView, flatten: bool)
    requires
        cache.agrees(array.values),
    ensures
        crate::dict::built(array, cache, flatten) matches Ok(exporter) ==> array.values.logical_type
            matches Ok(logical_type) && exporter.logical_type() == logical_type,
        crate::dict::built_vector(array, cache, flatten) matches Ok(exporter)
            ==> array.values.logical_type matches Ok(logical_type) && exporter.logical_type()
            == logical_type,
{
}

/// What fails is not held: where no exporter can be built, the cache stays as it was.
pub proof fn law_failures_leave_the_cache(array: DictView, cache: CacheView, flatten: bool)
    ensures
        crate::dict::built(array, cache, flatten) is Err ==> crate::dict::cache_after(
            array,
            cache,
            flatten,
        ) == cache,
        crate::dict::built_vector(array, cache, flatten) is Err ==> crate::dict::cache_after_vector(
            array,
            cache,
            flatten,
        ) == cache,
{
}

/// A cache agrees with every array when it is new.
pub proof fn law_new_cache_agrees(instance_id: u64, array: ArrayView)
    ensures
        CacheView::empty(instance_id).agrees(array),
        CacheView::empty(instance_id).wf(),
{
}

/// A cache goes on agreeing with arrays: after an exporter was built, it agrees with the array that
/// was exported and with every array that it agreed with before, given that different arrays have
/// different keys.
pub proof fn law_cache_goes_on_agreeing(
    array: DictView,
    cache: CacheView,
    flatten: bool,
    other: ArrayView,
)
    requires
        cache.agrees(array.values),
        cache.agrees(other),
        other.key == array.values.key ==> other == array.values,
    ensures
        crate::dict::cache_after(array, cache, flatten).agrees(array.values),
        crate::dict::cache_after(array, cache, flatten).agrees(other),
        crate::dict::cache_after_vector(array, cache, flatten).agrees(array.values),
        crate::dict::cache_after_vector(array, cache, flatten).agrees(other),
{
}

/// What a cache holds it keeps: building an exporter neither removes nor replaces an entry, and
/// leaves the cache's number as it is.
pub proof fn law_cache_keeps_its_entries(
    array: DictView,
    cache: CacheView,
    flatten: bool,
    key: usize,
)
    ensures
        cache.canonical.contains_key(key) ==> crate::dict::cache_after(
            array,
            cache,
            flatten,
        ).canonical.contains_key(key) && crate::dict::cache_after(
            array,
            cache,
            flatten,
        ).canonical[key] == cache.canonical[key],
        cache.vectors.contains_key(key) ==> crate::dict::cache_after_vector(
            array,
            cache,
            flatten,
        ).vectors.contains_key(key) && crate::dict::cache_after_vector(
            array,
            cache,
            flatten,
        ).vectors[key] == cache.vectors[key],
        cache.values.contains_key(key) ==> crate::dict::cache_after(
            array,
            cache,
            flatten,
        ).values.contains_key(key) && crate::dict::cache_after(array, cache, flatten).values[key]
            == cache.values[key],
        cache.values.contains_key(key) ==> crate::dict::cache_after_vector(
            array,
            cache,
            flatten,
        ).values.contains_key(key) && crate::dict::cache_after_vector(
            array,
            cache,
            flatten,
        ).values[key] == cache.values[key],
        crate::dict::cache_after(array, cache, flatten).vectors == cache.vectors,
        crate::dict::cache_after_vector(array, cache, flatten).canonical == cache.canonical,
        crate::dict::cache_after(array, cache, flatten).instance_id == cache.instance_id,
        crate::dict::cache_after_vector(array, cache, flatten).instance_id == cache.instance_id,
{
}

/// Building an exporter twice is like building it once: the second exporter is the first, and the
/// cache no longer changes.
pub proof fn law_building_again_changes_nothing(array: DictView, cache: CacheView, flatten: bool)
    ensures
        crate::dict::built(array, crate::dict::cache_after(array, cache, flatten), flatten)
            == crate::dict::built(array, cache, flatten),
        crate::dict::cache_after(array, crate::dict::cache_after(array, cache, flatten), flatten)
            == crate::dict::cache_after(array, cache, flatten),
        crate::dict::built_vector(
            array,
            crate::dict::cache_after_vector(array, cache, flatten),
            flatten,
        ) == crate::dict::built_vector(array, cache, flatten),
        crate::dict::cache_after_vector(
            array,
            crate::dict::cache_after_vector(array, cache, flatten),
            flatten,
        ) == crate::dict::cache_after_vector(array, cache, flatten),
{
}

/// A dictionary is filled once: the exporters of two arrays over the same values, built one after
/// the other with one cache, export selections of one and the same dictionary. Each of them may be
/// built from an executed vector or not. It does not matter whether the database would take the
/// values once more.
pub proof fn law_dictionary_is_reused(first: DictView, second: DictView, cache: CacheView)
    requires
        first.values.key == second.values.key,
        first.codes_error is None,
        second.codes_error is None,
        crate::dict::built(first, cache, false) matches Ok(exporter) && exporter is Dict,
        crate::dict::uses_values(second),
        !crate::dict::flattened(second, false),
    ensures
        ({
            let dict = crate::dict::built(first, cache, false)->Ok_0->Dict_values;
            let after = crate::dict::cache_after(first, cache, false);
            let after_vector = crate::dict::cache_after_vector(first, cache, false);
            &&& crate::dict::built_vector(first, cache, false)->Ok_0->DictVector_values == dict
            &&& crate::dict::built(second, after, false) matches Ok(exporter) && exporter is Dict
                && exporter->Dict_values == dict
            &&& crate::dict::built(second, after_vector, false) matches Ok(exporter) && exporter is Dict
                && exporter->Dict_values == dict
            &&& crate::dict::built_vector(second, after, false) matches Ok(exporter) && exporter is DictVector
                && exporter->DictVector_values == dict
            &&& crate::dict::built_vector(second, after_vector, false) matches Ok(exporter) && exporter is DictVector
                && exporter->DictVector_values == dict
        }),
{
}

} // verus!
