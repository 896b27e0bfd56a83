//! Where segments stand in a file. A source itself needs a CUDA device.
use vortex_export::segments::locate;
use vortex_export::segments::SegmentError;
use vortex_export::segments::SegmentId;
use vortex_export::segments::SegmentSpec;

fn segments() -> Vec<SegmentSpec> {
    vec![
        SegmentSpec { offset: 0, length: 4 },
        SegmentSpec { offset: 4, length: 6 },
        SegmentSpec { offset: 10, length: 0 },
        SegmentSpec { offset: 8, length: 3 },
        SegmentSpec { offset: u64::MAX, length: 2 },
        SegmentSpec { offset: 2, length: u64::MAX },
    ]
}

fn located(index: u32) -> Result<(usize, usize), SegmentError> {
    locate(&segments(), SegmentId { index }, 10)
}

#[test]
fn segments_are_located_by_their_position() {
    assert_eq!(located(0), Ok((0, 4)));
    assert_eq!(located(1), Ok((4, 10)));
    assert_eq!(located(2), Ok((10, 10)));
}

#[test]
fn missing_segments_are_refused() {
    assert_eq!(located(6), Err(SegmentError::Missing));
    assert_eq!(located(u32::MAX), Err(SegmentError::Missing));
}

#[test]
fn segments_beyond_the_file_are_refused() {
    assert_eq!(located(3), Err(SegmentError::OutOfBounds));
    assert_eq!(located(4), Err(SegmentError::OutOfBounds));
    assert_eq!(located(5), Err(SegmentError::OutOfBounds));
}
