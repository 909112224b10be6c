//! Preparation of captured pixel buffers for the encoder: even-dimension
//! alignment, center cropping, and row-by-row repacking that strips stride
//! padding. The encoder consumes contiguous rows of `target_width * 4` bytes.

use vstd::prelude::*;

verus! {

/// Largest width or height the encoder accepts.
pub const MAX_DIMENSION: usize = 4096;

/// Errors of the frame-preparation stage.
#[derive(Debug, Clone, Copy, PartialEq, Eq, Structural)]
pub enum PrepError {
    /// A cropped or repacked row would overflow the source buffer, so the
    /// prepared buffer cannot reach the exact size the encoder requires.
    InvalidFrame,
}

/// Clone a byte buffer; the copy holds exactly the same bytes.
pub fn clone_bytes(v: &Vec<u8>) -> (r: Vec<u8>)
    ensures
        r@ == v@,
{
    let r = v.clone();
    proof {
        assert forall|i: int| 0 <= i < v@.len() implies r@[i] == v@[i] by {
            assert(cloned::<u8>(v@[i], r@[i]));
        }
        assert(r@ =~= v@);
    }
    r
}

/// Round both dimensions down to the nearest even value, as the encoder
/// requires even width and height.
pub fn align_dimensions(width: usize, height: usize) -> (r: (usize, usize))
    ensures
        r.0 == width - (width % 2),
        r.1 == height - (height % 2),
        r.0 % 2 == 0,
        r.1 % 2 == 0,
        r.0 <= width < r.0 + 2,
        r.1 <= height < r.1 + 2,
{
    let aligned_width = if width % 2 == 0 {
        width
    } else {
        width - 1
    };
    let aligned_height = if height % 2 == 0 {
        height
    } else {
        height - 1
    };
    (aligned_width, aligned_height)
}

/// One cropped row: the `target_width * 4` bytes of source row `src_y`
/// starting at horizontal byte offset `x_offset * 4`, or nothing when that
/// slice would overflow the source buffer.
pub open spec fn spec_crop_row(
    data: Seq<u8>,
    stride: int,
    x_offset: int,
    target_width: int,
    src_y: int,
) -> Seq<u8> {
    let start = src_y * stride + x_offset * 4;
    if start + target_width * 4 <= data.len() {
        data.subrange(start, start + target_width * 4)
    } else {
        Seq::empty()
    }
}

/// The first `rows` cropped rows, concatenated in order.
pub open spec fn spec_crop(
    data: Seq<u8>,
    stride: int,
    x_offset: int,
    y_offset: int,
    target_width: int,
    rows: int,
) -> Seq<u8>
    decreases rows,
{
    if rows <= 0 {
        Seq::empty()
    } else {
        spec_crop(data, stride, x_offset, y_offset, target_width, rows - 1) + spec_crop_row(
            data,
            stride,
            x_offset,
            target_width,
            rows - 1 + y_offset,
        )
    }
}

/// Center-crop a captured frame to the encoder's target dimensions.
/// Rows whose slice would overflow the source buffer are skipped.
pub fn crop_frame_data(
    data: &Vec<u8>,
    stride: usize,
    original_width: usize,
    original_height: usize,
    target_width: usize,
    target_height: usize,
) -> (r: Vec<u8>)
    requires
        target_width <= original_width <= 0xffff,
        target_height <= original_height <= 0xffff,
        target_width <= MAX_DIMENSION,
        target_height <= MAX_DIMENSION,
        stride <= 0xffffff,
    ensures
        original_width == target_width && original_height == target_height ==> r@ == data@,
        (original_width != target_width || original_height != target_height) ==> r@ == spec_crop(
            data@,
            stride as int,
            ((original_width - target_width) / 2) as int,
            ((original_height - target_height) / 2) as int,
            target_width as int,
            target_height as int,
        ),
{
    if original_width == target_width && original_height == target_height {
        return clone_bytes(data);
    }
    let x_offset = (original_width - target_width) / 2;
    let y_offset = (original_height - target_height) / 2;
    let mut cropped: Vec<u8> = Vec::new();
    let mut y: usize = 0;
    while y < target_height
        invariant
            y <= target_height <= MAX_DIMENSION,
            target_width <= MAX_DIMENSION,
            x_offset <= 0xffff,
            y_offset <= 0xffff,
            stride <= 0xffffff,
            cropped@ == spec_crop(
                data@,
                stride as int,
                x_offset as int,
                y_offset as int,
                target_width as int,
                y as int,
            ),
        decreases target_height - y,
    {
        let src_y = y + y_offset;
        let row_len = target_width * 4;
        proof {
            assert((src_y as u64) * (stride as u64) <= 0x1ffff * 0xffffff) by (nonlinear_arith)
                requires
                    src_y <= 0x1ffff,
                    stride <= 0xffffff,
            ;
        }
        let start64: u64 = (src_y as u64) * (stride as u64) + (x_offset as u64) * 4;
        if start64 + (row_len as u64) <= data.len() as u64 {
            let start: usize = start64 as usize;
            let row = &data.as_slice()[start..start + row_len];
            cropped.extend_from_slice(row);
            proof {
                assert(row@ == spec_crop_row(
                    data@,
                    stride as int,
                    x_offset as int,
                    target_width as int,
                    src_y as int,
                ));
            }
        } else {
            proof {
                assert(spec_crop_row(
                    data@,
                    stride as int,
                    x_offset as int,
                    target_width as int,
                    src_y as int,
                ) == Seq::<u8>::empty());
                assert(cropped@ + Seq::<u8>::empty() =~= cropped@);
            }
        }
        y = y + 1;
    }
    cropped
}

/// One repacked row: the leading `target_width * 4` bytes of source row `y`
/// at the source stride, or nothing when that slice would overflow.
pub open spec fn spec_repack_row(data: Seq<u8>, stride: int, target_width: int, y: int) -> Seq<
    u8,
> {
    if y * stride + target_width * 4 <= data.len() {
        data.subrange(y * stride, y * stride + target_width * 4)
    } else {
        Seq::empty()
    }
}

/// Whether repacked row `y` stays inside the source buffer.
pub open spec fn spec_repack_row_fits(
    data: Seq<u8>,
    stride: int,
    target_width: int,
    y: int,
) -> bool {
    y * stride + target_width * 4 <= data.len()
}

/// Whether every one of the first `rows` repacked rows stays inside the
/// source buffer.
pub open spec fn spec_repack_ok(data: Seq<u8>, stride: int, target_width: int, rows: int) -> bool {
    forall|y: int|
        0 <= y < rows ==> #[trigger] spec_repack_row_fits(data, stride, target_width, y)
}

/// The first `rows` repacked rows, concatenated in order.
pub open spec fn spec_repack(data: Seq<u8>, stride: int, target_width: int, rows: int) -> Seq<u8>
    decreases rows,
{
    if rows <= 0 {
        Seq::empty()
    } else {
        spec_repack(data, stride, target_width, rows - 1) + spec_repack_row(
            data,
            stride,
            target_width,
            rows - 1,
        )
    }
}

/// With a zero target width every repacked row is empty, so the whole
/// repacked buffer is empty.
proof fn lemma_repack_zero_width(data: Seq<u8>, stride: int, rows: int)
    requires
        stride >= 0,
    ensures
        spec_repack(data, stride, 0, rows).len() == 0,
    decreases rows,
{
    if rows > 0 {
        lemma_repack_zero_width(data, stride, rows - 1);
        assert((rows - 1) * stride >= 0) by (nonlinear_arith)
            requires
                rows - 1 >= 0,
                stride >= 0,
        ;
    }
}

/// Whether a buffer already has exactly the shape the encoder consumes.
pub open spec fn spec_conforming(
    data: Seq<u8>,
    stride: int,
    width: int,
    height: int,
    target_width: int,
    target_height: int,
) -> bool {
    &&& width == target_width
    &&& height == target_height
    &&& stride == target_width * 4
    &&& data.len() == target_width * target_height * 4
}

/// Prepare a captured pixel buffer for the encoder. Returns the contiguous
/// buffer of exactly `target_width * target_height * 4` bytes together with
/// the stride that was used (always `target_width * 4`).
///
/// - If capture dimensions exceed the target, the frame is center-cropped.
/// - Otherwise, if the source stride differs from `target_width * 4`, rows
///   are repacked to strip the padding.
/// - Otherwise the data is passed through unchanged.
///
/// Fails with `InvalidFrame` exactly when the prepared buffer would not have
/// the required length (a cropped or repacked row overflowed the source).
pub fn prepare_frame(
    data: &Vec<u8>,
    stride: usize,
    capture_width: usize,
    capture_height: usize,
    target_width: usize,
    target_height: usize,
) -> (r: Result<(Vec<u8>, usize), PrepError>)
    requires
        target_width <= capture_width <= 0xffff,
        target_height <= capture_height <= 0xffff,
        target_width <= MAX_DIMENSION,
        target_height <= MAX_DIMENSION,
        stride <= 0xffffff,
    ensures
        r is Ok ==> r->Ok_0.0@.len() == target_width * target_height * 4,
        r is Ok ==> r->Ok_0.1 == target_width * 4,
        (capture_width != target_width || capture_height != target_height) && r is Ok
            ==> r->Ok_0.0@ == spec_crop(
            data@,
            stride as int,
            ((capture_width - target_width) / 2) as int,
            ((capture_height - target_height) / 2) as int,
            target_width as int,
            target_height as int,
        ),
        capture_width == target_width && capture_height == target_height && stride != target_width
            * 4 && r is Ok ==> r->Ok_0.0@ == spec_repack(
            data@,
            stride as int,
            target_width as int,
            target_height as int,
        ),
        capture_width == target_width && capture_height == target_height && stride == target_width
            * 4 ==> (r is Ok <==> data@.len() == target_width * target_height * 4),
        spec_conforming(
            data@,
            stride as int,
            capture_width as int,
            capture_height as int,
            target_width as int,
            target_height as int,
        ) ==> r is Ok && r->Ok_0.0@ == data@ && r->Ok_0.1 == stride,
{
    proof {
        assert(target_width * (target_height * 4) <= 4096 * (4096 * 4) && target_width * (
        target_height * 4) == target_width * target_height * 4) by (nonlinear_arith)
            requires
                target_width <= 4096,
                target_height <= 4096,
        ;
    }
    let expected_len = target_width * (target_height * 4);
    let expected_stride = target_width * 4;
    if capture_width != target_width || capture_height != target_height {
        let cropped = crop_frame_data(
            data,
            stride,
            capture_width,
            capture_height,
            target_width,
            target_height,
        );
        if cropped.len() == expected_len {
            Ok((cropped, expected_stride))
        } else {
            Err(PrepError::InvalidFrame)
        }
    } else if stride != expected_stride {
        let mut repacked: Vec<u8> = Vec::new();
        let mut y: usize = 0;
        let mut overflow = false;
        while y < target_height
            invariant
                y <= target_height <= MAX_DIMENSION,
                target_width <= MAX_DIMENSION,
                stride <= 0xffffff,
                !overflow ==> repacked@ == spec_repack(
                    data@,
                    stride as int,
                    target_width as int,
                    y as int,
                ),
                !overflow ==> spec_repack_ok(data@, stride as int, target_width as int, y as int),
                !overflow ==> repacked@.len() == y * (target_width * 4),
                overflow ==> repacked@.len() == 0,
                overflow ==> !spec_repack_ok(
                    data@,
                    stride as int,
                    target_width as int,
                    target_height as int,
                ),
            decreases target_height - y,
        {
            if !overflow {
                let row_len = target_width * 4;
                proof {
                    assert((y as u64) * (stride as u64) <= 0x1000 * 0xffffff) by (nonlinear_arith)
                        requires
                            y <= 0x1000,
                            stride <= 0xffffff,
                    ;
                    assert((y + 1) * (target_width * 4) == y * (target_width * 4) + target_width
                        * 4) by (nonlinear_arith);
                }
                let start64: u64 = (y as u64) * (stride as u64);
                let end64: u64 = start64 + row_len as u64;
                if end64 <= data.len() as u64 {
                    let start: usize = start64 as usize;
                    let row = &data.as_slice()[start..start + row_len];
                    repacked.extend_from_slice(row);
                    proof {
                        assert(row@ == spec_repack_row(
                            data@,
                            stride as int,
                            target_width as int,
                            y as int,
                        ));
                    }
                } else {
                    repacked.clear();
                    overflow = true;
                    proof {
                        assert(!spec_repack_row_fits(
                            data@,
                            stride as int,
                            target_width as int,
                            y as int,
                        ));
                    }
                }
            }
            y = y + 1;
        }
        if repacked.len() == expected_len {
            proof {
                if overflow {
                    assert(target_height > 0);
                    assert(target_width == 0) by (nonlinear_arith)
                        requires
                            target_width * (target_height * 4) == 0,
                            target_height > 0,
                    ;
                    lemma_repack_zero_width(data@, stride as int, target_height as int);
                    assert(repacked@ =~= spec_repack(
                        data@,
                        stride as int,
                        target_width as int,
                        target_height as int,
                    ));
                }
            }
            Ok((repacked, expected_stride))
        } else {
            Err(PrepError::InvalidFrame)
        }
    } else {
        if data.len() == expected_len {
            Ok((clone_bytes(data), stride))
        } else {
            Err(PrepError::InvalidFrame)
        }
    }
}

/// Frame preparation is idempotent on conforming inputs: a buffer that
/// already satisfies the target dimensions and stride comes back unchanged
/// from `prepare_frame`, and preparing that output a second time yields the
/// same bytes and stride again.
pub proof fn lemma_prepare_frame_idempotent(
    data: Vec<u8>,
    stride: usize,
    target_width: usize,
    target_height: usize,
    r1: Result<(Vec<u8>, usize), PrepError>,
    r2: Result<(Vec<u8>, usize), PrepError>,
)
    requires
        spec_conforming(
            data@,
            stride as int,
            target_width as int,
            target_height as int,
            target_width as int,
            target_height as int,
        ),
        call_ensures(
            prepare_frame,
            (&data, stride, target_width, target_height, target_width, target_height),
            r1,
        ),
        r1 is Ok,
        call_ensures(
            prepare_frame,
            (
                &r1->Ok_0.0,
                r1->Ok_0.1,
                target_width,
                target_height,
                target_width,
                target_height,
            ),
            r2,
        ),
    ensures
        r1->Ok_0.0@ == data@,
        r1->Ok_0.1 == stride,
        r2 is Ok,
        r2->Ok_0.0@ == data@,
        r2->Ok_0.1 == stride,
{
}

} // verus!
