//! Columns that are exported through a dictionary exporter, shown as the database prints a chunk.
use std::sync::Arc;
use vortex::session::VortexSession;
use vortex::VortexSessionDefault;
use vortex_error::VortexError;
use vortex_export::array::ArrayRef;
use vortex_export::array::DictArray;
use vortex_export::array::Encoding;
use vortex_export::array::LogicalType;
use vortex_export::array::PType;
use vortex_export::array::PVector;
use vortex_export::cache::ConversionCache;
use vortex_export::dict::DictExporter;
use vortex_export::dict::executes_values;
use vortex_export::dict::fills_dictionary;
use vortex_export::dict::new_exporter_with_flatten;
use vortex_export::dict::new_vector_exporter_from_codes;
use vortex_export::dict::new_vector_exporter_with_flatten;
use vortex_export::dict::takes_values;
use vortex_export::duckdb::ReusableDict;
use vortex_export::duckdb::Vector;
use vortex_export::exporter::new_array_exporter;
use vortex_export::exporter::new_array_exporter_from_taken;
use vortex_export::exporter::new_constant_exporter_from_mask;
use vortex_export::exporter::ArrayExporter;
use vortex_export::exporter::ColumnExporter;
use vortex_export::exporter::ConstantExporter;
use vortex_export::exporter::ExportError;
use vortex_export::mask::Mask;

/// The number of the database's INTEGER type.
const INTEGER: LogicalType = LogicalType { id: 4 };

fn constant(scalar: u64, len: usize) -> ArrayRef {
    ArrayRef {
        key: 1,
        logical_type: Ok(INTEGER),
        encoding: Encoding::Constant { scalar: Some(scalar), len },
        fill_error: None,
    }
}

fn primitive(rows: Vec<Option<u64>>) -> ArrayRef {
    ArrayRef {
        key: 1,
        logical_type: Ok(INTEGER),
        encoding: Encoding::Rows(rows),
        fill_error: None,
    }
}

fn dict(codes: Vec<Option<u64>>, values: ArrayRef) -> DictArray {
    DictArray { codes, codes_error: None, ptype: PType::U32, values }
}

fn new_exporter(
    array: &DictArray,
    cache: &mut ConversionCache,
) -> Result<ColumnExporter, ExportError> {
    new_exporter_with_flatten(array, cache, false)
}

/// An error that tells how a number does not fit.
fn error() -> Arc<VortexError> {
    Arc::new(VortexError::from(u8::try_from(300u32).unwrap_err()))
}

/// A chunk of one INTEGER column and `len` rows, as the database prints it.
fn chunk(vector: &Vector, len: usize) -> String {
    let (encoding, rows) = match vector {
        Vector::Flat(rows) => {
            assert_eq!(rows.len(), len);
            ("FLAT", rows.clone())
        }
        Vector::Constant(scalar) => ("CONSTANT", vec![*scalar]),
        Vector::Dictionary { values, selection } => {
            assert_eq!(selection.len(), len);
            ("DICTIONARY", selection.iter().map(|&i| values.rows[i as usize]).collect())
        }
    };
    let rows: Vec<String> = rows
        .iter()
        .map(|row| match row {
            Some(scalar) => format!("{scalar}"),
            None => "NULL".to_string(),
        })
        .collect();
    format!("Chunk - [1 Columns]\n- {} INTEGER: {} = [ {}]\n", encoding, len, rows.join(", "))
}

#[test]
fn test_constant_dict() {
    let arr = dict(vec![None, Some(0)], constant(10, 1));

    let mut vector = Vector::default();
    new_exporter(&arr, &mut ConversionCache::default())
        .unwrap()
        .export(0, 2, &mut vector)
        .unwrap();

    assert_eq!(
        chunk(&vector, 2),
        r#"Chunk - [1 Columns]
- FLAT INTEGER: 2 = [ NULL, 10]
"#
    );
}

#[test]
fn test_constant_dict_vector() {
    let arr = dict(vec![None, Some(0)], constant(10, 1));

    let session = <VortexSession as VortexSessionDefault>::default();
    let mut vector = Vector::default();
    new_vector_exporter_with_flatten(&arr, &mut ConversionCache::default(), &session, false)
        .unwrap()
        .export(0, 2, &mut vector)
        .unwrap();

    assert_eq!(
        chunk(&vector, 2),
        r#"Chunk - [1 Columns]
- FLAT INTEGER: 2 = [ NULL, 10]
"#
    );
}

#[test]
fn test_constant_dict_vector_null() {
    let arr = dict(vec![None, None], constant(10, 1));

    let session = <VortexSession as VortexSessionDefault>::default();
    let mut vector = Vector::default();
    new_vector_exporter_with_flatten(&arr, &mut ConversionCache::default(), &session, false)
        .unwrap()
        .export(0, 2, &mut vector)
        .unwrap();

    assert_eq!(
        chunk(&vector, 2),
        r#"Chunk - [1 Columns]
- CONSTANT INTEGER: 2 = [ NULL]
"#
    );
}

#[test]
fn test_nullable_dict() {
    let arr = dict(vec![None, Some(0), Some(1)], primitive(vec![Some(10), None]));

    let mut vector = Vector::default();
    new_exporter(&arr, &mut ConversionCache::default())
        .unwrap()
        .export(0, 3, &mut vector)
        .unwrap();

    // some-invalid codes cannot be exported as a dictionary.
    assert_eq!(
        chunk(&vector, 3),
        r#"Chunk - [1 Columns]
- FLAT INTEGER: 3 = [ NULL, 10, NULL]
"#
    );

    let mut flat_vector = Vector::default();
    new_array_exporter(arr.to_canonical(), INTEGER)
        .export(0, 3, &mut flat_vector)
        .unwrap();

    assert_eq!(
        chunk(&flat_vector, 3),
        r#"Chunk - [1 Columns]
- FLAT INTEGER: 3 = [ NULL, 10, NULL]
"#
    )
}

#[test]
fn test_export_empty_dict() {
    let arr = dict(vec![], primitive(vec![]));

    let mut vector = Vector::default();
    new_exporter(&arr, &mut ConversionCache::default())
        .unwrap()
        .export(0, 0, &mut vector)
        .unwrap();

    assert_eq!(
        chunk(&vector, 0),
        r#"Chunk - [1 Columns]
- FLAT INTEGER: 0 = [ ]
"#
    );
}

#[test]
fn valid_codes_are_exported_as_a_dictionary() {
    let arr = dict(
        vec![Some(1), Some(0), Some(2), Some(1)],
        primitive(vec![Some(10), None, Some(30)]),
    );
    let mut vector = Vector::default();
    let exporter = new_exporter(&arr, &mut ConversionCache::new(9)).unwrap();
    assert_eq!(exporter.len(), 4);
    exporter.export(1, 3, &mut vector).unwrap();
    assert_eq!(
        chunk(&vector, 3),
        "Chunk - [1 Columns]\n- DICTIONARY INTEGER: 3 = [ 10, 30, NULL]\n"
    );
    match &vector {
        Vector::Dictionary { values, selection } => {
            assert_eq!(values.logical_type, INTEGER);
            assert_eq!(*values.rows, vec![Some(10), None, Some(30)]);
            assert_eq!(selection, &vec![0, 2, 1]);
        }
        other => panic!("not a dictionary: {other:?}"),
    }
    match exporter {
        ColumnExporter::Dict(exporter) => {
            assert_eq!(exporter.codes, vec![1, 0, 2, 1]);
            assert_eq!(exporter.codes_type, PType::U32);
            assert_eq!(exporter.cache_id, 9);
            assert_eq!(exporter.value_id, 1);
        }
        other => panic!("not a dictionary exporter: {other:?}"),
    }
}

#[test]
fn constant_without_null_codes_is_exported_as_a_constant() {
    let arr = dict(vec![Some(0), Some(0), Some(0)], constant(10, 1));
    let session = VortexSession::empty();
    let mut vector = Vector::default();
    new_exporter(&arr, &mut ConversionCache::default())
        .unwrap()
        .export(1, 2, &mut vector)
        .unwrap();
    assert_eq!(vector, Vector::Constant(Some(10)));
    new_vector_exporter_with_flatten(&arr, &mut ConversionCache::default(), &session, true)
        .unwrap()
        .export(1, 2, &mut vector)
        .unwrap();
    assert_eq!(vector, Vector::Constant(Some(10)));
}

#[test]
fn null_codes_are_exported_as_one_null() {
    let arr = dict(vec![None, None, None], primitive(vec![Some(10)]));
    let session = VortexSession::empty();
    let mut cache = ConversionCache::default();
    for flatten in [false, true] {
        let mut vector = Vector::default();
        let exporter = new_exporter_with_flatten(&arr, &mut cache, flatten).unwrap();
        assert_eq!(exporter.len(), 3);
        exporter.export(0, 3, &mut vector).unwrap();
        assert_eq!(vector, Vector::Constant(None));
        let exporter =
            new_vector_exporter_with_flatten(&arr, &mut cache, &session, flatten).unwrap();
        assert_eq!(exporter.len(), 3);
        let mut vector = Vector::default();
        exporter.export(1, 1, &mut vector).unwrap();
        assert_eq!(vector, Vector::Constant(None));
    }
}

#[test]
fn null_codes_over_no_values_are_exported_as_one_null() {
    let arr = dict(vec![None], primitive(vec![]));
    let mut vector = Vector::default();
    new_exporter(&arr, &mut ConversionCache::default())
        .unwrap()
        .export(0, 1, &mut vector)
        .unwrap();
    assert_eq!(vector, Vector::Constant(None));
}

#[test]
fn masked_constant_exports_windows() {
    let arr = dict(vec![None, Some(0), Some(0), None], constant(7, 1));
    let mut vector = Vector::default();
    new_exporter(&arr, &mut ConversionCache::default())
        .unwrap()
        .export(2, 2, &mut vector)
        .unwrap();
    assert_eq!(vector, Vector::Flat(vec![Some(7), None]));
}

#[test]
fn wide_codes_are_exported_by_their_low_bits() {
    let exporter = DictExporter {
        values: ReusableDict { logical_type: INTEGER, rows: Arc::new(vec![Some(1), Some(2)]) },
        codes: vec![0xffff_ffff, 0x1_0000_0000, 0x7_0000_0001],
        codes_type: PType::U64,
        cache_id: 0,
        value_id: 0,
    };
    let mut vector = Vector::default();
    exporter.export(0, 3, &mut vector).unwrap();
    match vector {
        Vector::Dictionary { selection, .. } => assert_eq!(selection, vec![0xffff_ffff, 0, 1]),
        other => panic!("not a dictionary: {other:?}"),
    }
}

#[test]
fn unsupported_type_is_refused() {
    let session = VortexSession::empty();
    let mut cache = ConversionCache::default();
    for encoding in [
        Encoding::Rows(vec![Some(1)]),
        Encoding::Constant { scalar: Some(1), len: 1 },
        Encoding::Failed(error()),
    ] {
        let unsupported = error();
        let logical_type = Err(unsupported.clone());
        let values = ArrayRef { key: 1, logical_type, encoding, fill_error: None };
        let arr = dict(vec![Some(0)], values);
        match new_exporter_with_flatten(&arr, &mut cache, true) {
            Err(ExportError::UnsupportedType(error)) => assert!(Arc::ptr_eq(&error, &unsupported)),
            other => panic!("not refused: {other:?}"),
        }
        match new_vector_exporter_with_flatten(&arr, &mut cache, &session, false) {
            Err(ExportError::UnsupportedType(error)) => assert!(Arc::ptr_eq(&error, &unsupported)),
            other => panic!("not refused: {other:?}"),
        }
    }
}

#[test]
fn dictionaries_that_are_refused_are_not_held() {
    let session = VortexSession::empty();
    let mut cache = ConversionCache::default();
    let refusal = error();
    let mut arr = dict(vec![Some(1), Some(0)], primitive(vec![Some(10), None]));
    arr.values.fill_error = Some(refusal.clone());
    for _ in 0..2 {
        match new_exporter(&arr, &mut cache) {
            Err(ExportError::Fill(error)) => assert!(Arc::ptr_eq(&error, &refusal)),
            other => panic!("not refused: {other:?}"),
        }
        match new_vector_exporter_with_flatten(&arr, &mut cache, &session, false) {
            Err(ExportError::Fill(error)) => assert!(Arc::ptr_eq(&error, &refusal)),
            other => panic!("not refused: {other:?}"),
        }
        assert!(fills_dictionary(&arr, &cache, false));
    }

    // A flat column fills no dictionary.
    let mut vector = Vector::default();
    new_exporter_with_flatten(&arr, &mut cache, true)
        .unwrap()
        .export(0, 2, &mut vector)
        .unwrap();
    assert_eq!(vector, Vector::Flat(vec![None, Some(10)]));

    // Once a dictionary is held, nothing is filled.
    arr.values.fill_error = None;
    let exporter = new_exporter(&arr, &mut cache).unwrap();
    arr.values.fill_error = Some(refusal);
    assert_eq!(new_exporter(&arr, &mut cache).unwrap(), exporter);
    assert!(!fills_dictionary(&arr, &cache, false));
}

#[test]
fn values_that_fail_are_not_held() {
    let session = VortexSession::empty();
    let mut cache = ConversionCache::default();
    let failure = error();
    let mut arr = dict(vec![Some(1), None], primitive(vec![Some(10), Some(20)]));
    arr.values.encoding = Encoding::Failed(failure.clone());
    for _ in 0..2 {
        match new_vector_exporter_with_flatten(&arr, &mut cache, &session, false) {
            Err(ExportError::Compute(error)) => assert!(Arc::ptr_eq(&error, &failure)),
            other => panic!("not refused: {other:?}"),
        }
        assert!(executes_values(&arr, &cache, false));
    }
    let mut valid = dict(vec![Some(1), Some(0)], primitive(vec![]));
    valid.values.encoding = Encoding::Failed(failure.clone());
    match new_exporter(&valid, &mut cache) {
        Err(ExportError::Compute(error)) => assert!(Arc::ptr_eq(&error, &failure)),
        other => panic!("not refused: {other:?}"),
    }
    assert!(fills_dictionary(&valid, &cache, false));

    // Once a vector is held, nothing is executed.
    let whole = dict(vec![Some(1), None], primitive(vec![Some(10), Some(20)]));
    let exporter = new_vector_exporter_with_flatten(&whole, &mut cache, &session, false).unwrap();
    assert!(!executes_values(&arr, &cache, false));
    assert_eq!(
        new_vector_exporter_with_flatten(&arr, &mut cache, &session, false).unwrap(),
        exporter
    );
}

#[test]
fn codes_that_fail_leave_the_cache() {
    let session = VortexSession::empty();
    let mut cache = ConversionCache::default();
    let failure = error();
    for values in [primitive(vec![Some(10)]), constant(7, 1)] {
        for flatten in [false, true] {
            let mut arr = dict(vec![Some(0)], values.clone());
            arr.codes_error = Some(failure.clone());
            match new_vector_exporter_with_flatten(&arr, &mut cache, &session, flatten) {
                Err(ExportError::Compute(error)) => assert!(Arc::ptr_eq(&error, &failure)),
                other => panic!("not refused: {other:?}"),
            }
            assert!(!fills_dictionary(&arr, &cache, flatten));
            assert!(!executes_values(&arr, &cache, flatten));

            // A type that is not supported is told first.
            let unsupported = error();
            arr.values.logical_type = Err(unsupported.clone());
            match new_vector_exporter_with_flatten(&arr, &mut cache, &session, flatten) {
                Err(ExportError::UnsupportedType(error)) => {
                    assert!(Arc::ptr_eq(&error, &unsupported))
                }
                other => panic!("not refused: {other:?}"),
            }
        }
    }
    let arr = dict(vec![Some(0)], primitive(vec![Some(10)]));
    assert!(fills_dictionary(&arr, &cache, false));
    assert!(executes_values(&arr, &cache, true));
}

#[test]
fn executed_codes_are_exported_by_their_mask() {
    let session = VortexSession::empty();
    let mut cache = ConversionCache::default();
    let arr = dict(vec![], primitive(vec![Some(10), Some(20)]));
    let codes = |validity| Ok(PVector { elements: vec![1, 0], validity });

    match new_vector_exporter_from_codes(
        &arr,
        codes(Mask::AllTrue(2)),
        &mut cache,
        &session,
        false,
    ) {
        Ok(ColumnExporter::DictVector(exporter)) => {
            assert_eq!(*exporter.values.rows, vec![Some(10), Some(20)]);
            assert_eq!(exporter.codes.elements, vec![1, 0]);
        }
        other => panic!("not a dictionary: {other:?}"),
    }
    for (bits, rows) in [
        (vec![true, true], vec![Some(20), Some(10)]),
        (vec![false, true], vec![None, Some(10)]),
        (vec![false, false], vec![None, None]),
    ] {
        match new_vector_exporter_from_codes(
            &arr,
            codes(Mask::Values(bits)),
            &mut cache,
            &session,
            false,
        ) {
            Ok(ColumnExporter::Array(exporter)) => assert_eq!(exporter.rows, rows),
            other => panic!("not flat: {other:?}"),
        }
    }
    match new_vector_exporter_from_codes(
        &arr,
        codes(Mask::AllFalse(2)),
        &mut cache,
        &session,
        false,
    ) {
        Ok(ColumnExporter::AllInvalid(exporter)) => assert_eq!(exporter.len, 2),
        other => panic!("not all invalid: {other:?}"),
    }
}

#[test]
fn reported_errors_are_handed_on() {
    let session = VortexSession::empty();
    let mut cache = ConversionCache::default();
    let reported = || VortexError::from(u8::try_from(300u32).unwrap_err());
    let kept = |error: Option<ExportError>| match error {
        Some(ExportError::Compute(error)) => {
            assert!(matches!(*error, VortexError::TryFromInt(..)));
        }
        other => panic!("not a compute error: {other:?}"),
    };
    let arr = dict(vec![Some(0)], primitive(vec![Some(10)]));

    for flatten in [false, true] {
        let codes = Err(reported());
        kept(new_vector_exporter_from_codes(&arr, codes, &mut cache, &session, flatten).err());
    }
    assert!(fills_dictionary(&arr, &cache, false));
    kept(cache.hold_executed(&arr.values, Err(reported())).err());
    assert!(executes_values(&arr, &cache, true));
    kept(new_constant_exporter_from_mask(Some(1), INTEGER, 3, Err(reported())).err());
    kept(new_array_exporter_from_taken(Err(reported()), INTEGER).err());

    // What succeeds is kept as well.
    let vector = PVector { elements: vec![5], validity: Mask::AllTrue(1) };
    assert_eq!(cache.hold_executed(&arr.values, Ok(vector.clone())).unwrap(), vector);
    assert!(!executes_values(&arr, &cache, true));
    match new_vector_exporter_with_flatten(&arr, &mut cache, &session, true) {
        Ok(ColumnExporter::Array(exporter)) => assert_eq!(exporter.rows, vec![Some(5)]),
        other => panic!("not flat: {other:?}"),
    }
    assert_eq!(
        new_array_exporter_from_taken(Ok((vec![1, 2], vec![true, false])), INTEGER).unwrap(),
        new_array_exporter(vec![Some(1), None], INTEGER)
    );
}

#[test]
fn chunks_share_one_dictionary() {
    let session = VortexSession::empty();
    let mut cache = ConversionCache::default();
    let arr = dict(vec![Some(0), Some(1), Some(0)], primitive(vec![Some(10), None]));
    let plain = new_exporter(&arr, &mut cache).unwrap();
    let executed =
        new_vector_exporter_with_flatten(&arr, &mut cache, &session, false).unwrap();
    let mut dictionaries = Vec::new();
    for exporter in [&plain, &executed] {
        for offset in 0..3 {
            let mut vector = Vector::default();
            exporter.export(offset, 1, &mut vector).unwrap();
            match vector {
                Vector::Dictionary { values, .. } => dictionaries.push(values.rows),
                other => panic!("not a dictionary: {other:?}"),
            }
        }
    }
    assert!(dictionaries.iter().all(|rows| Arc::ptr_eq(rows, &dictionaries[0])));
}

#[test]
fn flat_columns_have_the_type_of_their_values() {
    let session = VortexSession::empty();
    let arr = dict(vec![Some(1), None], primitive(vec![Some(10), Some(20)]));
    let flat = ColumnExporter::Array(ArrayExporter {
        logical_type: INTEGER,
        rows: vec![Some(20), None],
    });
    let mut cache = ConversionCache::default();
    assert_eq!(new_exporter(&arr, &mut cache).unwrap(), flat);
    assert_eq!(
        new_vector_exporter_with_flatten(&arr, &mut cache, &session, false).unwrap(),
        flat
    );
}

#[test]
fn compute_errors_are_kept() {
    let narrowed = VortexError::from(u8::try_from(300u32).unwrap_err());
    let sliced = VortexError::from(<[u8; 2]>::try_from(&[1u8][..]).unwrap_err());
    let messages = [narrowed.to_string(), sliced.to_string()];
    assert_ne!(messages[0], messages[1]);
    for (error, message) in [narrowed, sliced].into_iter().zip(messages) {
        match ExportError::from_compute(error) {
            ExportError::Compute(error) => assert_eq!(error.to_string(), message),
            other => panic!("not a compute error: {other:?}"),
        }
    }
}

#[test]
fn empty_constant_exports_no_rows() {
    let arr = dict(vec![], constant(10, 1));
    let session = VortexSession::empty();
    assert_eq!(
        new_exporter(&arr, &mut ConversionCache::default()).unwrap(),
        ColumnExporter::Constant(ConstantExporter {
            scalar: Some(10),
            logical_type: INTEGER,
            len: 0,
            mask: Mask::AllTrue(0)
        })
    );
    assert_eq!(
        new_vector_exporter_with_flatten(&arr, &mut ConversionCache::default(), &session, false)
            .unwrap(),
        ColumnExporter::Constant(ConstantExporter {
            scalar: Some(10),
            logical_type: INTEGER,
            len: 0,
            mask: Mask::AllFalse(0)
        })
    );
}

#[test]
fn values_are_taken_where_the_column_is_flat() {
    let rows = || primitive(vec![Some(10), None]);
    assert!(!takes_values(&dict(vec![Some(0), Some(1)], rows()), false));
    assert!(takes_values(&dict(vec![Some(0), Some(1)], rows()), true));
    assert!(takes_values(&dict(vec![Some(0), None], rows()), false));
    assert!(takes_values(&dict(vec![], rows()), false));
    assert!(!takes_values(&dict(vec![None, None], rows()), true));
    assert!(!takes_values(&dict(vec![Some(0), None], constant(1, 1)), true));
    let mut unsupported = dict(vec![Some(0), None], rows());
    unsupported.values.logical_type = Err(error());
    assert!(!takes_values(&unsupported, true));

    let cache = ConversionCache::default();
    let selected = dict(vec![Some(0), Some(1)], rows());
    assert!(fills_dictionary(&selected, &cache, false));
    assert!(!fills_dictionary(&selected, &cache, true));
    assert!(!executes_values(&selected, &cache, false));
    assert!(executes_values(&selected, &cache, true));
    assert!(!fills_dictionary(&dict(vec![Some(0), None], rows()), &cache, false));
    assert!(!fills_dictionary(&dict(vec![Some(0)], constant(1, 1)), &cache, false));
    assert!(!fills_dictionary(&unsupported, &cache, false));
}

#[test]
fn codes_are_held_against_the_values() {
    assert!(dict(vec![Some(1), None, Some(0)], primitive(vec![None, None])).codes_in_range());
    assert!(!dict(vec![Some(1), None, Some(2)], primitive(vec![None, None])).codes_in_range());
    assert!(dict(vec![Some(2)], constant(5, 3)).codes_in_range());
    assert!(!dict(vec![Some(3)], constant(5, 3)).codes_in_range());
    assert!(dict(vec![None], primitive(vec![])).codes_in_range());
}
