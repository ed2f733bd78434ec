//! Turning a frame read from the bottom row up into an image stored from the
//! top row down.

use vstd::prelude::*;
use vstd::arithmetic::div_mod::lemma_fundamental_div_mod_converse;
use vstd::slice::slice_subrange;

verus! {

/// The bytes of one pixel: red, green, blue, alpha.
pub const BYTES_PER_PIXEL: usize = 4;

/// Where the byte at `i` of the flipped frame comes from: the same place in
/// its row, in the row that lies as far from the bottom as row `i / stride`
/// lies from the top.
pub open spec fn mirrored_index(i: int, stride: int, rows: int) -> int {
    (rows - 1 - i / stride) * stride + i % stride
}

/// The frame with its rows in reverse order, each row of `stride` bytes left
/// as it is.
pub open spec fn flipped(pixels: Seq<u8>, stride: int, rows: int) -> Seq<u8> {
    Seq::new(pixels.len(), |i: int| pixels[mirrored_index(i, stride, rows)])
}

/// The byte at `i` of `out` is the byte of `pixels` at the mirror of `i`.
spec fn mirrors_at(out: Seq<u8>, pixels: Seq<u8>, stride: int, rows: int, i: int) -> bool {
    &&& 0 <= mirrored_index(i, stride, rows) < pixels.len()
    &&& out[i] == pixels[mirrored_index(i, stride, rows)]
}

/// Every byte of `out` is the byte of `pixels` at the mirror of its place.
spec fn mirrors(out: Seq<u8>, pixels: Seq<u8>, stride: int, rows: int) -> bool {
    forall|i: int| 0 <= i < out.len() ==> #[trigger] mirrors_at(out, pixels, stride, rows, i)
}

/// Reverses the order of the rows of a frame of `width` by `height` pixels
/// of four bytes each. A buffer of any other length is no such frame, and
/// nothing is returned for it.
pub fn flip_rows(pixels: &Vec<u8>, width: usize, height: usize) -> (out: Option<Vec<u8>>)
    ensures
        out is Some <==> pixels@.len() == BYTES_PER_PIXEL * width * height,
        out is Some ==> out->Some_0@ == flipped(
            pixels@,
            BYTES_PER_PIXEL * width,
            height as int,
        ),
{
    let total: usize = pixels.len();
    if width == 0 || height == 0 {
        assert(BYTES_PER_PIXEL * width * height == 0) by (nonlinear_arith)
            requires
                width == 0 || height == 0,
        ;
        if total == 0 {
            let out: Vec<u8> = Vec::new();
            assert(out@ =~= flipped(pixels@, BYTES_PER_PIXEL * width, height as int));
            return Some(out);
        }
        return None;
    }
    let stride: usize = match width.checked_mul(BYTES_PER_PIXEL) {
        Some(stride) => stride,
        None => {
            assert(BYTES_PER_PIXEL * width * height > usize::MAX) by (nonlinear_arith)
                requires
                    BYTES_PER_PIXEL * width > usize::MAX,
                    height >= 1,
            ;
            return None;
        },
    };
    match stride.checked_mul(height) {
        Some(expected) => {
            if expected != total {
                return None;
            }
        },
        None => {
            return None;
        },
    }
    let mut out: Vec<u8> = Vec::with_capacity(total);
    let mut row: usize = 0;
    while row < height
        invariant
            row <= height,
            stride > 0,
            total == pixels@.len(),
            total == stride * height,
            out@.len() == row * stride,
            mirrors(out@, pixels@, stride as int, height as int),
        decreases height - row,
    {
        let from_top: usize = height - 1 - row;
        proof {
            lemma_row_lies_within(stride as int, height as int, from_top as int);
        }
        let start: usize = from_top * stride;
        let line = slice_subrange(pixels.as_slice(), start, start + stride);
        let ghost before = out@;
        out.extend_from_slice(line);
        proof {
            assert(start == (height - 1 - row) * stride);
            assert(line@ == pixels@.subrange(start as int, start + stride));
            assert(out@ == before + line@);
            lemma_row_joins_mirror(before, out@, pixels@, stride as int, height as int, row as int);
        }
        row = row + 1;
    }
    proof {
        let done = out@;
        assert(done.len() == pixels@.len()) by (nonlinear_arith)
            requires
                row == height,
                done.len() == row * stride,
                pixels@.len() == stride * height,
        ;
        assert forall|i: int| 0 <= i < done.len() implies done[i] == pixels@[mirrored_index(
            i,
            stride as int,
            height as int,
        )] by {
            assert(mirrors_at(done, pixels@, stride as int, height as int, i));
        }
        assert(done =~= flipped(pixels@, stride as int, height as int));
    }
    Some(out)
}

/// Row `row` of a frame of `rows` rows begins and ends inside the frame.
proof fn lemma_row_lies_within(stride: int, rows: int, row: int)
    requires
        stride > 0,
        0 <= row < rows,
    ensures
        0 <= row * stride,
        row * stride + stride <= stride * rows,
        (row + 1) * stride == row * stride + stride,
{
    assert(0 <= row * stride && row * stride + stride <= stride * rows && (row + 1) * stride == row
        * stride + stride) by (nonlinear_arith)
        requires
            stride > 0,
            0 <= row < rows,
    ;
}

/// The byte at place `k` of row `row` comes from place `k` of the row that
/// lies `row` rows from the bottom.
proof fn lemma_mirror_within_row(i: int, stride: int, rows: int, row: int, k: int)
    requires
        stride > 0,
        0 <= k < stride,
        0 <= row < rows,
        i == row * stride + k,
    ensures
        mirrored_index(i, stride, rows) == (rows - 1 - row) * stride + k,
{
    lemma_fundamental_div_mod_converse(i, stride, row, k);
}

/// Appending the row that lies `row` rows from the bottom to the first `row`
/// mirrored rows gives the first `row + 1` mirrored rows.
proof fn lemma_row_joins_mirror(
    before: Seq<u8>,
    after: Seq<u8>,
    pixels: Seq<u8>,
    stride: int,
    rows: int,
    row: int,
)
    requires
        stride > 0,
        0 <= row < rows,
        pixels.len() == stride * rows,
        before.len() == row * stride,
        mirrors(before, pixels, stride, rows),
        after == before + pixels.subrange(
            (rows - 1 - row) * stride,
            (rows - 1 - row) * stride + stride,
        ),
    ensures
        after.len() == (row + 1) * stride,
        mirrors(after, pixels, stride, rows),
{
    let start = (rows - 1 - row) * stride;
    lemma_row_lies_within(stride, rows, rows - 1 - row);
    lemma_row_lies_within(stride, rows, row);
    assert forall|i: int| 0 <= i < after.len() implies #[trigger] mirrors_at(
        after,
        pixels,
        stride,
        rows,
        i,
    ) by {
        if i >= before.len() {
            let k = i - before.len();
            lemma_mirror_within_row(i, stride, rows, row, k);
            assert(after[i] == pixels[start + k]);
        } else {
            assert(mirrors_at(before, pixels, stride, rows, i));
            assert(after[i] == before[i]);
        }
    }
}

/// The mirror of an index of the frame is an index of the frame, and its
/// own mirror is the index one started from.
pub proof fn lemma_mirrored_index_is_an_involution(i: int, stride: int, rows: int)
    requires
        stride > 0,
        0 <= i < stride * rows,
    ensures
        0 <= mirrored_index(i, stride, rows) < stride * rows,
        mirrored_index(mirrored_index(i, stride, rows), stride, rows) == i,
{
    let row = i / stride;
    let column = i % stride;
    assert(i == row * stride + column && 0 <= column < stride) by (nonlinear_arith)
        requires
            stride > 0,
            row == i / stride,
            column == i % stride,
    ;
    assert(0 <= row < rows) by (nonlinear_arith)
        requires
            stride > 0,
            0 <= i < stride * rows,
            i == row * stride + column,
            0 <= column < stride,
    ;
    lemma_row_lies_within(stride, rows, rows - 1 - row);
    lemma_mirror_within_row(i, stride, rows, row, column);
    lemma_mirror_within_row(mirrored_index(i, stride, rows), stride, rows, rows - 1 - row, column);
}

/// Flipping a frame twice gives the frame back.
pub proof fn lemma_flip_is_an_involution(pixels: Seq<u8>, stride: int, rows: int)
    requires
        stride > 0,
        rows >= 0,
        pixels.len() == stride * rows,
    ensures
        flipped(flipped(pixels, stride, rows), stride, rows) == pixels,
{
    let once = flipped(pixels, stride, rows);
    let twice = flipped(once, stride, rows);
    assert forall|i: int| 0 <= i < pixels.len() implies twice[i] == pixels[i] by {
        lemma_mirrored_index_is_an_involution(i, stride, rows);
    }
    assert(twice =~= pixels);
}

} // verus!
