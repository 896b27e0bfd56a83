//! The laws of the library on concrete columns.
use vortex::session::VortexSession;
use vortex_export::array::ArrayRef;
use vortex_export::array::DictArray;
use vortex_export::array::Encoding;
use vortex_export::array::LogicalType;
use vortex_export::array::PType;
use vortex_export::cache::ConversionCache;
use vortex_export::dict::new_exporter_with_flatten;
use vortex_export::dict::new_vector_exporter_with_flatten;
use vortex_export::duckdb::Vector;
use vortex_export::exporter::ColumnExporter;

fn values(key: usize, rows: Vec<Option<u64>>) -> ArrayRef {
    ArrayRef {
        key,
        logical_type: Ok(LogicalType { id: 5 }),
        encoding: Encoding::Rows(rows),
        fill_error: None,
    }
}

fn dict(codes: Vec<Option<u64>>, values: ArrayRef) -> DictArray {
    DictArray { codes, codes_error: None, ptype: PType::U16, values }
}

/// The rows that a vector shows in a chunk of `len` rows.
fn shown(vector: &Vector, len: usize) -> Vec<Option<u64>> {
    match vector {
        Vector::Flat(rows) => rows.clone(),
        Vector::Constant(scalar) => vec![*scalar; len],
        Vector::Dictionary { values, selection } => {
            selection.iter().map(|&i| values.rows[i as usize]).collect()
        }
    }
}

fn window(exporter: &ColumnExporter, offset: usize, len: usize) -> Vec<Option<u64>> {
    let mut vector = Vector::default();
    exporter.export(offset, len, &mut vector).unwrap();
    shown(&vector, len)
}

/// A column of `len` codes into `size` values, with nulls in either or both.
fn column(key: usize, len: u64, size: u64, null_codes: u64, null_values: u64) -> DictArray {
    let rows = (0..size)
        .map(|i| if null_values > 0 && i % null_values == 1 { None } else { Some(1000 + 3 * i) })
        .collect();
    let codes = (0..len)
        .map(|i| if null_codes > 0 && i % null_codes == 0 { None } else { Some((i * 7 + 5) % size) })
        .collect();
    dict(codes, values(key, rows))
}

#[test]
fn every_export_holds_the_rows() {
    let session = VortexSession::empty();
    let mut key: usize = 0;
    for len in [1u64, 2, 3, 17, 64, 65, 1000] {
        for size in [1u64, 2, 8, 33, 5000] {
            for null_codes in [0u64, 1, 2, 5] {
                for null_values in [0u64, 2, 3] {
                    key += 1;
                    let array = column(key, len, size, null_codes, null_values);
                    let rows = array.to_canonical();
                    let mut cache = ConversionCache::default();
                    for flatten in [false, true, false, true] {
                        let len = len as usize;
                        let plain = new_exporter_with_flatten(&array, &mut cache, flatten).unwrap();
                        assert_eq!(plain.len(), len);
                        assert_eq!(window(&plain, 0, len), rows);
                        assert_eq!(window(&plain, len / 2, len - len / 2), rows[len / 2..]);
                        let executed =
                            new_vector_exporter_with_flatten(&array, &mut cache, &session, flatten)
                                .unwrap();
                        assert_eq!(executed.len(), len);
                        assert_eq!(window(&executed, 0, len), rows);
                        assert_eq!(window(&executed, len / 3, 1), rows[len / 3..len / 3 + 1]);
                    }
                }
            }
        }
    }
}

#[test]
fn windows_join() {
    let array = column(3, 10, 4, 3, 2);
    for flatten in [false, true] {
        let exporter =
            new_exporter_with_flatten(&array, &mut ConversionCache::default(), flatten).unwrap();
        let mut joined = window(&exporter, 1, 4);
        joined.extend(window(&exporter, 5, 5));
        assert_eq!(joined, window(&exporter, 1, 9));
    }
}

#[test]
fn no_dictionary_has_null_codes() {
    let array = dict(vec![Some(0), None], values(1, vec![Some(4)]));
    let session = VortexSession::empty();
    let mut cache = ConversionCache::default();
    match new_exporter_with_flatten(&array, &mut cache, false).unwrap() {
        ColumnExporter::Array(exporter) => assert_eq!(exporter.rows, vec![Some(4), None]),
        other => panic!("not flat: {other:?}"),
    }
    match new_vector_exporter_with_flatten(&array, &mut cache, &session, false).unwrap() {
        ColumnExporter::Array(exporter) => assert_eq!(exporter.rows, vec![Some(4), None]),
        other => panic!("not flat: {other:?}"),
    }
}

#[test]
fn dictionary_is_reused() {
    let session = VortexSession::empty();
    let mut cache = ConversionCache::new(3);
    let first = dict(vec![Some(0), Some(1)], values(40, vec![Some(8), Some(9)]));
    let exporter = new_exporter_with_flatten(&first, &mut cache, false).unwrap();
    let ColumnExporter::Dict(exporter) = exporter else {
        panic!("not a dictionary exporter");
    };
    assert_eq!(*exporter.values.rows, vec![Some(8), Some(9)]);

    // Whatever now claims the key finds the dictionary that is held under it.
    let second = dict(vec![Some(1)], values(40, vec![Some(1), Some(2)]));
    match new_exporter_with_flatten(&second, &mut cache, false).unwrap() {
        ColumnExporter::Dict(second) => {
            assert_eq!(second.values, exporter.values);
            assert_eq!(second.codes, vec![1]);
            assert_eq!((second.cache_id, second.value_id), (3, 40));
        }
        other => panic!("not a dictionary exporter: {other:?}"),
    }
    match new_vector_exporter_with_flatten(&second, &mut cache, &session, false).unwrap() {
        ColumnExporter::DictVector(second) => {
            assert_eq!(second.values, exporter.values);
            assert_eq!(second.codes.elements, vec![1]);
            assert_eq!((second.cache_id, second.value_id), (3, 40));
        }
        other => panic!("not a dictionary exporter: {other:?}"),
    }
    assert_eq!(cache.instance_id(), 3);
}

#[test]
fn caches_keep_their_entries() {
    let session = VortexSession::empty();
    let mut cache = ConversionCache::default();
    let first = dict(vec![Some(1), None], values(40, vec![Some(8), Some(9)]));
    new_exporter_with_flatten(&first, &mut cache, true).unwrap();

    // The canonical rows are held; the vectors and the dictionaries are not filled yet.
    let second = dict(vec![Some(0), None], values(40, vec![Some(1), Some(2)]));
    let flat = new_exporter_with_flatten(&second, &mut cache, true).unwrap();
    assert_eq!(window(&flat, 0, 2), vec![Some(8), None]);
    let flat = new_vector_exporter_with_flatten(&second, &mut cache, &session, true).unwrap();
    assert_eq!(window(&flat, 0, 2), vec![Some(1), None]);

    // Now the vector is held as well.
    let flat = new_vector_exporter_with_flatten(&first, &mut cache, &session, true).unwrap();
    assert_eq!(window(&flat, 0, 2), vec![Some(2), None]);

    // Another key has entries of its own.
    let third = dict(vec![Some(0), None], values(41, vec![Some(5)]));
    let flat = new_exporter_with_flatten(&third, &mut cache, true).unwrap();
    assert_eq!(window(&flat, 0, 2), vec![Some(5), None]);
}

#[test]
fn building_again_changes_nothing() {
    let session = VortexSession::empty();
    let mut cache = ConversionCache::default();
    for flatten in [false, true] {
        for null_codes in [0, 3] {
            let array = column(2, 9, 4, null_codes, 2);
            let first = new_exporter_with_flatten(&array, &mut cache, flatten).unwrap();
            assert_eq!(new_exporter_with_flatten(&array, &mut cache, flatten).unwrap(), first);
            let first =
                new_vector_exporter_with_flatten(&array, &mut cache, &session, flatten).unwrap();
            assert_eq!(
                new_vector_exporter_with_flatten(&array, &mut cache, &session, flatten).unwrap(),
                first
            );
        }
    }
}

#[test]
fn narrow_codes_are_kept() {
    let rows: Vec<Option<u64>> = (0..0x1_0000u64).map(Some).collect();
    let array = dict(vec![Some(0xffff), Some(0), Some(0x8000)], values(1, rows));
    let exporter =
        new_exporter_with_flatten(&array, &mut ConversionCache::default(), false).unwrap();
    let mut vector = Vector::default();
    exporter.export(0, 3, &mut vector).unwrap();
    match &vector {
        Vector::Dictionary { selection, .. } => assert_eq!(selection, &vec![0xffff, 0, 0x8000]),
        other => panic!("not a dictionary: {other:?}"),
    }

    // So are wide codes that a selection can hold.
    let wide = DictArray { ptype: PType::U64, ..array };
    let mut wide_vector = Vector::default();
    new_exporter_with_flatten(&wide, &mut ConversionCache::default(), false)
        .unwrap()
        .export(0, 3, &mut wide_vector)
        .unwrap();
    assert_eq!(wide_vector, vector);
}

#[test]
fn selections_stay_in_their_dictionary() {
    let session = VortexSession::empty();
    let array = column(6, 50, 7, 0, 2);
    let mut cache = ConversionCache::default();
    let plain = new_exporter_with_flatten(&array, &mut cache, false).unwrap();
    let executed = new_vector_exporter_with_flatten(&array, &mut cache, &session, false).unwrap();
    for exporter in [plain, executed] {
        let mut vector = Vector::default();
        exporter.export(3, 40, &mut vector).unwrap();
        match vector {
            Vector::Dictionary { values, selection } => {
                assert_eq!(values.rows.len(), 7);
                assert_eq!(selection.len(), 40);
                assert!(selection.iter().all(|&i| (i as usize) < values.rows.len()));
            }
            other => panic!("not a dictionary: {other:?}"),
        }
    }
}
