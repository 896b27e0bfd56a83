//! Converted values, kept for later columns over the same dictionary.
use crate::array::ArrayRef;
use crate::array::ArrayView;
use crate::array::Canonical;
use crate::array::CanonicalView;
use crate::array::EncodingView;
use crate::array::PVector;
use crate::array::PVectorView;
use crate::duckdb::ReusableDict;
use crate::duckdb::ReusableDictView;
use crate::exporter::ExportError;
use std::collections::HashMap;
use vortex_error::VortexError;
use vstd::prelude::*;

verus! {

/// An array with its canonical form.
#[derive(Debug)]
pub struct CanonicalEntry {
    pub array: ArrayRef,
    pub canonical: Canonical,
}

/// An array with the vector that it was executed into.
#[derive(Debug)]
pub struct VectorEntry {
    pub array: ArrayRef,
    pub vector: PVector,
}

/// An array with the dictionary that was filled from it.
#[derive(Debug)]
pub struct DictEntry {
    pub array: ArrayRef,
    pub dict: ReusableDict,
}

impl View for CanonicalEntry {
    type V = (ArrayView, CanonicalView);

    open spec fn view(&self) -> (ArrayView, CanonicalView) {
        (self.array@, self.canonical@)
    }
}

impl View for VectorEntry {
    type V = (ArrayView, PVectorView);

    open spec fn view(&self) -> (ArrayView, PVectorView) {
        (self.array@, self.vector@)
    }
}

impl View for DictEntry {
    type V = (ArrayView, ReusableDictView);

    open spec fn view(&self) -> (ArrayView, ReusableDictView) {
        (self.array@, self.dict@)
    }
}

/// What has been converted so far, by the key of the array that was converted.
///
/// Each entry also holds the array itself, so that its key stays its own.
#[derive(Debug)]
pub struct ConversionCache {
    canonical_cache: HashMap<usize, CanonicalEntry>,
    vector_cache: HashMap<usize, VectorEntry>,
    values_cache: HashMap<usize, DictEntry>,
    instance_id: u64,
}

/// The mathematical value of a [`ConversionCache`].
#[verifier::ext_equal]
pub struct CacheView {
    pub canonical: Map<usize, (ArrayView, CanonicalView)>,
    pub vectors: Map<usize, (ArrayView, PVectorView)>,
    pub values: Map<usize, (ArrayView, ReusableDictView)>,
    pub instance_id: u64,
}

/// The dictionary that is filled from `array`, whose scalars the database has a type for.
pub open spec fn filled_dict(array: ArrayView) -> ReusableDictView {
    ReusableDictView { logical_type: array.logical_type->Ok_0, rows: array.rows() }
}

/// The canonical form of `array`, whose scalars the database has a type for.
pub open spec fn canonicalized(array: ArrayView) -> CanonicalView {
    CanonicalView { logical_type: array.logical_type->Ok_0, rows: array.rows() }
}

/// Why no dictionary can be filled from `array`, where none can.
pub open spec fn fill_failure(array: ArrayView) -> Option<ExportError> {
    match (array.encoding, array.fill_error) {
        (EncodingView::Failed(error), _) => Some(ExportError::Compute(error)),
        (_, Some(error)) => Some(ExportError::Fill(error)),
        (_, None) => None,
    }
}

/// Why `array` cannot be executed, where it cannot.
pub open spec fn execute_failure(array: ArrayView) -> Option<ExportError> {
    match array.encoding {
        EncodingView::Failed(error) => Some(ExportError::Compute(error)),
        _ => None,
    }
}

impl CacheView {
    /// A cache that holds nothing.
    pub open spec fn empty(instance_id: u64) -> CacheView {
        CacheView { canonical: Map::empty(), vectors: Map::empty(), values: Map::empty(), instance_id }
    }

    /// The vectors are whole.
    pub open spec fn wf(self) -> bool {
        forall|key: usize| #[trigger] self.vectors.contains_key(key) ==> self.vectors[key].1.wf()
    }

    /// What is held under the key of `array` was converted from `array`.
    ///
    /// This is so for every array that is alive, since an entry keeps its own array alive and no
    /// two arrays that are alive share a key.
    pub open spec fn agrees(self, array: ArrayView) -> bool {
        &&& self.canonical.contains_key(array.key) ==> self.canonical[array.key] == (
            array,
            canonicalized(array),
        )
        &&& self.vectors.contains_key(array.key) ==> self.vectors[array.key] == (
            array,
            crate::array::executed(array.rows()),
        )
        &&& self.values.contains_key(array.key) ==> self.values[array.key] == (
            array,
            filled_dict(array),
        )
    }

    /// The canonical form of `array`: the one that is held under its key, or else its own.
    pub open spec fn canonical_form(self, array: ArrayView) -> CanonicalView {
        if self.canonical.contains_key(array.key) {
            self.canonical[array.key].1
        } else {
            canonicalized(array)
        }
    }

    /// A canonical form of `array` is held under its key or can be computed.
    pub open spec fn has_canonical_form(self, array: ArrayView) -> bool {
        self.canonical.contains_key(array.key) || !(array.encoding is Failed)
    }

    /// The vector of `array`: the one that is held under its key, or else what it executes to.
    pub open spec fn vector(self, array: ArrayView) -> PVectorView {
        if self.vectors.contains_key(array.key) {
            self.vectors[array.key].1
        } else {
            crate::array::executed(array.rows())
        }
    }

    /// The dictionary of `array`: the one that is held under its key, or else its own rows.
    pub open spec fn dict(self, array: ArrayView) -> ReusableDictView {
        if self.values.contains_key(array.key) {
            self.values[array.key].1
        } else {
            filled_dict(array)
        }
    }

    /// Why there is no vector of `array`, where none is held under its key and none can be had.
    pub open spec fn vector_failure(self, array: ArrayView) -> Option<ExportError> {
        if self.vectors.contains_key(array.key) {
            None
        } else {
            execute_failure(array)
        }
    }

    /// Why there is no dictionary of `array`, where none is held under its key and none can be
    /// filled.
    pub open spec fn dict_failure(self, array: ArrayView) -> Option<ExportError> {
        if self.values.contains_key(array.key) {
            None
        } else {
            fill_failure(array)
        }
    }

    /// This cache with the canonical form of `array` in it. What was there stays.
    pub open spec fn with_canonical(self, array: ArrayView) -> CacheView {
        if self.canonical.contains_key(array.key) {
            self
        } else {
            CacheView {
                canonical: self.canonical.insert(array.key, (array, canonicalized(array))),
                ..self
            }
        }
    }

    /// This cache with the vector of `array` in it, if there is one. What was there stays.
    pub open spec fn with_vector(self, array: ArrayView) -> CacheView {
        if self.vectors.contains_key(array.key) || execute_failure(array) is Some {
            self
        } else {
            CacheView {
                vectors: self.vectors.insert(
                    array.key,
                    (array, crate::array::executed(array.rows())),
                ),
                ..self
            }
        }
    }

    /// This cache with the dictionary of `array` in it, if there is one. What was there stays.
    pub open spec fn with_dict(self, array: ArrayView) -> CacheView {
        if self.values.contains_key(array.key) || fill_failure(array) is Some {
            self
        } else {
            CacheView { values: self.values.insert(array.key, (array, filled_dict(array))), ..self }
        }
    }
}

impl View for ConversionCache {
    type V = CacheView;

    closed spec fn view(&self) -> CacheView {
        CacheView {
            canonical: self.canonical_cache@.map_values(|entry: CanonicalEntry| entry@),
            vectors: self.vector_cache@.map_values(|entry: VectorEntry| entry@),
            values: self.values_cache@.map_values(|entry: DictEntry| entry@),
            instance_id: self.instance_id,
        }
    }
}

impl Default for ConversionCache {
    fn default() -> (cache: Self)
        ensures
            cache@ == CacheView::empty(0),
            cache@.wf(),
    {
        ConversionCache::new(0)
    }
}

impl ConversionCache {
    /// An empty cache, which `instance_id` tells apart from others.
    pub fn new(instance_id: u64) -> (cache: Self)
        ensures
            cache@ == CacheView::empty(instance_id),
            cache@.wf(),
    {
        broadcast use vstd::std_specs::hash::group_hash_axioms;

        let cache = ConversionCache {
            canonical_cache: HashMap::new(),
            vector_cache: HashMap::new(),
            values_cache: HashMap::new(),
            instance_id,
        };
        assert(cache@.canonical =~= CacheView::empty(instance_id).canonical);
        assert(cache@.vectors =~= CacheView::empty(instance_id).vectors);
        assert(cache@.values =~= CacheView::empty(instance_id).values);
        cache
    }

    /// What tells this cache apart from others.
    pub fn instance_id(&self) -> (id: u64)
        ensures
            id == self@.instance_id,
    {
        self.instance_id
    }

    /// The canonical form that is held under `key`.
    pub(crate) fn get_canonical(&self, key: usize) -> (canonical: Option<Canonical>)
        ensures
            match canonical {
                Some(canonical) => self@.canonical.contains_key(key) && self@.canonical[key].1
                    == canonical@,
                None => !self@.canonical.contains_key(key),
            },
    {
        broadcast use vstd::std_specs::hash::group_hash_axioms;

        match self.canonical_cache.get(&key) {
            Some(entry) => Some(entry.canonical.clone()),
            None => None,
        }
    }

    /// Holds the canonical form of an array under its key.
    pub(crate) fn insert_canonical(&mut self, array: ArrayRef, canonical: Canonical)
        ensures
            final(self)@ == (CacheView {
                canonical: old(self)@.canonical.insert(array.key, (array@, canonical@)),
                ..old(self)@
            }),
    {
        broadcast use vstd::std_specs::hash::group_hash_axioms;

        let ghost entry = CanonicalEntry { array, canonical };
        self.canonical_cache.insert(array.key, CanonicalEntry { array, canonical });
        assert(self@.canonical =~= old(self)@.canonical.insert(entry.array.key, entry@));
    }

    /// The vector that is held under `key`.
    pub(crate) fn get_vector(&self, key: usize) -> (vector: Option<PVector>)
        ensures
            match vector {
                Some(vector) => self@.vectors.contains_key(key) && self@.vectors[key].1 == vector@,
                None => !self@.vectors.contains_key(key),
            },
    {
        broadcast use vstd::std_specs::hash::group_hash_axioms;

        match self.vector_cache.get(&key) {
            Some(entry) => Some(entry.vector.clone()),
            None => None,
        }
    }

    /// Whether a vector is held under `key`.
    pub(crate) fn holds_vector(&self, key: usize) -> (holds: bool)
        ensures
            holds == self@.vectors.contains_key(key),
    {
        broadcast use vstd::std_specs::hash::group_hash_axioms;

        self.vector_cache.contains_key(&key)
    }

    /// Holds the vector that an array executed to, and gives it back. Where executing failed,
    /// nothing is held.
    pub fn hold_executed(&mut self, array: &ArrayRef, executed: Result<PVector, VortexError>) -> (
        result: Result<PVector, ExportError>)
        requires
            executed matches Ok(vector) ==> vector@.wf(),
        ensures
            match executed {
                Ok(vector) => {
                    &&& result matches Ok(held) && held@ == vector@
                    &&& final(self)@ == (CacheView {
                        vectors: old(self)@.vectors.insert(array.key, (array@, vector@)),
                        ..old(self)@
                    })
                },
                Err(error) => {
                    &&& result matches Err(ExportError::Compute(kept)) && *kept == error
                    &&& final(self)@ == old(self)@
                },
            },
            old(self)@.wf() ==> final(self)@.wf(),
    {
        match executed {
            Ok(vector) => {
                self.insert_vector(array.clone(), vector.clone());
                Ok(vector)
            },
            Err(error) => Err(ExportError::from_compute(error)),
        }
    }

    /// Holds the vector of an array under its key.
    fn insert_vector(&mut self, array: ArrayRef, vector: PVector)
        ensures
            final(self)@ == (CacheView {
                vectors: old(self)@.vectors.insert(array.key, (array@, vector@)),
                ..old(self)@
            }),
    {
        broadcast use vstd::std_specs::hash::group_hash_axioms;

        let ghost entry = VectorEntry { array, vector };
        self.vector_cache.insert(array.key, VectorEntry { array, vector });
        assert(self@.vectors =~= old(self)@.vectors.insert(entry.array.key, entry@));
    }

    /// The dictionary that is held under `key`.
    pub(crate) fn get_dict(&self, key: usize) -> (dict: Option<ReusableDict>)
        ensures
            match dict {
                Some(dict) => self@.values.contains_key(key) && self@.values[key].1 == dict@,
                None => !self@.values.contains_key(key),
            },
    {
        broadcast use vstd::std_specs::hash::group_hash_axioms;

        match self.values_cache.get(&key) {
            Some(entry) => Some(entry.dict.clone()),
            None => None,
        }
    }

    /// Whether a dictionary is held under `key`.
    pub(crate) fn holds_dict(&self, key: usize) -> (holds: bool)
        ensures
            holds == self@.values.contains_key(key),
    {
        broadcast use vstd::std_specs::hash::group_hash_axioms;

        self.values_cache.contains_key(&key)
    }

    /// Holds the dictionary of an array under its key.
    pub(crate) fn insert_dict(&mut self, array: ArrayRef, dict: ReusableDict)
        ensures
            final(self)@ == (CacheView {
                values: old(self)@.values.insert(array.key, (array@, dict@)),
                ..old(self)@
            }),
    {
        broadcast use vstd::std_specs::hash::group_hash_axioms;

        let ghost entry = DictEntry { array, dict };
        self.values_cache.insert(array.key, DictEntry { array, dict });
        assert(self@.values =~= old(self)@.values.insert(entry.array.key, entry@));
    }
}

} // verus!
