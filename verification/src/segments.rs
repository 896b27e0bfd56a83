//! Segments of a file whose bytes are held on a CUDA device.
use cudarc::driver::CudaSlice;
use cudarc::driver::CudaView;
use vortex_error::VortexError;
use vstd::prelude::*;

verus! {

/// A buffer on a CUDA device.
#[verifier::external_type_specification]
#[verifier::external_body]
#[verifier::reject_recursive_types(T)]
pub struct ExCudaSlice<T>(CudaSlice<T>);

/// A view of a part of a buffer on a CUDA device.
#[verifier::external_type_specification]
#[verifier::external_body]
#[verifier::reject_recursive_types(T)]
pub struct ExCudaView<'a, T>(CudaView<'a, T>);

/// The bytes that a device buffer holds.
pub uninterp spec fn device_bytes(buffer: CudaSlice<u8>) -> Seq<u8>;

/// The bytes that a view of a device buffer shows.
pub uninterp spec fn view_bytes(view: CudaView<'_, u8>) -> Seq<u8>;

/// Calls `CudaSlice::len`. Claims that it is the number of bytes that the buffer holds.
#[verifier::external_body]
pub(crate) fn device_len(buffer: &CudaSlice<u8>) -> (len: usize)
    ensures
        len == device_bytes(*buffer).len(),
{
    buffer.len()
}

/// Calls `CudaSlice::as_view`. Claims that the view shows the whole buffer, whose length is a
/// `usize`.
#[verifier::external_body]
pub(crate) fn as_view(buffer: &CudaSlice<u8>) -> (view: CudaView<'_, u8>)
    ensures
        view_bytes(view) == device_bytes(*buffer),
        view_bytes(view).len() <= usize::MAX,
{
    buffer.as_view()
}

/// Calls `CudaView::slice`, which panics where the range is not within the view. Claims that the
/// result shows the bytes of the range.
#[verifier::external_body]
pub(crate) fn slice_view<'a>(view: &CudaView<'a, u8>, start: usize, end: usize) -> (part: CudaView<
    'a,
    u8,
>)
    requires
        start <= end <= view_bytes(*view).len(),
    ensures
        view_bytes(part) == view_bytes(*view).subrange(start as int, end as int),
{
    view.slice(start..end)
}

/// Where a segment stands in the file.
#[derive(Debug, Clone, Copy, PartialEq, Eq, Structural)]
pub struct SegmentSpec {
    pub offset: u64,
    pub length: u64,
}

/// The position of a segment in the list of the file's segments.
#[derive(Debug, Clone, Copy, PartialEq, Eq, Structural)]
pub struct SegmentId {
    pub index: u32,
}

/// Why a segment has no bytes.
#[derive(Debug, Clone, Copy, PartialEq, Eq, Structural)]
pub enum SegmentError {
    /// The file has no segment with this position.
    Missing,
    /// The offset is not a `usize`.
    Offset,
    /// The length is not a `usize`.
    Length,
    /// The segment is not within the bytes of the file.
    OutOfBounds,
}

/// The range of bytes that a segment takes up in a file of `total` bytes, or why there is none.
pub open spec fn located(segments: Seq<SegmentSpec>, id: SegmentId, total: nat) -> Result<
    (int, int),
    SegmentError,
> {
    if id.index >= segments.len() {
        Err(SegmentError::Missing)
    } else {
        let segment = segments[id.index as int];
        if segment.offset > usize::MAX {
            Err(SegmentError::Offset)
        } else if segment.length > usize::MAX {
            Err(SegmentError::Length)
        } else if segment.offset + segment.length > total {
            Err(SegmentError::OutOfBounds)
        } else {
            Ok((segment.offset as int, segment.offset + segment.length))
        }
    }
}

/// A range of bytes or an error, as a mathematical value.
pub open spec fn range_view(result: Result<(usize, usize), SegmentError>) -> Result<
    (int, int),
    SegmentError,
> {
    match result {
        Ok((start, end)) => Ok((start as int, end as int)),
        Err(error) => Err(error),
    }
}

/// The range of bytes that a segment takes up in a file of `total` bytes.
pub fn locate(segments: &Vec<SegmentSpec>, id: SegmentId, total: usize) -> (result: Result<
    (usize, usize),
    SegmentError,
>)
    ensures
        range_view(result) == located(segments@, id, total as nat),
        match result {
            Ok((start, end)) => {
                &&& id.index < segments@.len()
                &&& start == segments@[id.index as int].offset
                &&& end == start + segments@[id.index as int].length
                &&& end <= total
            },
            Err(SegmentError::Missing) => id.index >= segments@.len(),
            Err(SegmentError::Offset) => id.index < segments@.len()
                && segments@[id.index as int].offset > usize::MAX,
            Err(SegmentError::Length) => id.index < segments@.len()
                && segments@[id.index as int].length > usize::MAX,
            Err(SegmentError::OutOfBounds) => id.index < segments@.len()
                && segments@[id.index as int].offset + segments@[id.index as int].length > total,
        },
{
    let index: usize = id.index as usize;
    if index >= segments.len() {
        return Err(SegmentError::Missing);
    }
    let segment = segments[index];
    if segment.offset > usize::MAX as u64 {
        return Err(SegmentError::Offset);
    }
    if segment.length > usize::MAX as u64 {
        return Err(SegmentError::Length);
    }
    let offset: usize = segment.offset as usize;
    let length: usize = segment.length as usize;
    if offset > total || length > total - offset {
        return Err(SegmentError::OutOfBounds);
    }
    Ok((offset, offset + length))
}

/// The segments of a file whose bytes are held on a device.
pub struct FileGpuSegmentSource {
    segments: Vec<SegmentSpec>,
    contents: CudaSlice<u8>,
}

impl FileGpuSegmentSource {
    /// Where the segments stand.
    pub closed spec fn segments(&self) -> Seq<SegmentSpec> {
        self.segments@
    }

    /// The bytes of the file.
    pub closed spec fn bytes(&self) -> Seq<u8> {
        device_bytes(self.contents)
    }

    /// The segments of the file that `contents` holds.
    pub fn new(segments: Vec<SegmentSpec>, contents: CudaSlice<u8>) -> (source: Self)
        ensures
            source.segments() == segments@,
            source.bytes() == device_bytes(contents),
    {
        FileGpuSegmentSource { segments, contents }
    }

    /// The bytes of the file.
    fn contents(&self) -> (view: CudaView<'_, u8>)
        ensures
            view_bytes(view) == self.bytes(),
            view_bytes(view).len() <= usize::MAX,
    {
        as_view(&self.contents)
    }

    /// The range of bytes that a segment takes up, or why it cannot be requested.
    pub fn locate(&self, id: SegmentId) -> (result: Result<(usize, usize), SegmentError>)
        ensures
            range_view(result) == located(self.segments(), id, self.bytes().len()),
            self.bytes().len() <= usize::MAX,
            result matches Ok((start, end)) ==> {
                &&& id.index < self.segments().len()
                &&& start == self.segments()[id.index as int].offset
                &&& end == start + self.segments()[id.index as int].length
                &&& end <= self.bytes().len()
            },
            id.index < self.segments().len() && self.segments()[id.index as int].offset
                + self.segments()[id.index as int].length <= self.bytes().len() ==> result is Ok,
    {
        locate(&self.segments, id, device_len(&self.contents))
    }

    /// The bytes of a segment of the file.
    pub fn request(&self, id: SegmentId) -> (result: Result<CudaView<'_, u8>, VortexError>)
        requires
            located(self.segments(), id, self.bytes().len()) is Ok,
        ensures
            result is Ok,
            located(self.segments(), id, self.bytes().len()) matches Ok((start, end))
                && view_bytes(result->Ok_0) == self.bytes().subrange(start, end),
            id.index < self.segments().len(),
            view_bytes(result->Ok_0).len() == self.segments()[id.index as int].length,
            forall|i: int|
                0 <= i < self.segments()[id.index as int].length ==> #[trigger] view_bytes(
                    result->Ok_0,
                )[i] == self.bytes()[self.segments()[id.index as int].offset + i],
    {
        let segment = self.segments[id.index as usize];
        let offset: usize = segment.offset as usize;
        let length: usize = segment.length as usize;
        let contents = self.contents();
        Ok(slice_view(&contents, offset, offset + length))
    }
}

/// A segment that is listed and lies within the file is located where it stands: its range starts at
/// its offset and is as long as it is.
pub proof fn law_segments_are_located(segments: Seq<SegmentSpec>, id: SegmentId, total: nat)
    requires
        id.index < segments.len(),
        segments[id.index as int].offset + segments[id.index as int].length <= total,
        total <= usize::MAX,
    ensures
        located(segments, id, total) matches Ok((start, end)) && start
            == segments[id.index as int].offset && end - start == segments[id.index as int].length,
{
}

/// A segment is located only within the file, and where it is not, the error tells why: it is not
/// listed, its offset or its length is not a `usize`, or it reaches beyond the file.
pub proof fn law_segments_that_are_refused(segments: Seq<SegmentSpec>, id: SegmentId, total: nat)
    ensures
        match located(segments, id, total) {
            Ok((start, end)) => {
                &&& id.index < segments.len()
                &&& start == segments[id.index as int].offset
                &&& end == start + segments[id.index as int].length
                &&& 0 <= start <= end <= total
            },
            Err(SegmentError::Missing) => id.index >= segments.len(),
            Err(SegmentError::Offset) => id.index < segments.len()
                && segments[id.index as int].offset > usize::MAX,
            Err(SegmentError::Length) => id.index < segments.len()
                && segments[id.index as int].offset <= usize::MAX
                && segments[id.index as int].length > usize::MAX,
            Err(SegmentError::OutOfBounds) => id.index < segments.len()
                && segments[id.index as int].offset <= usize::MAX
                && segments[id.index as int].length <= usize::MAX
                && segments[id.index as int].offset + segments[id.index as int].length > total,
        },
{
}

} // verus!
