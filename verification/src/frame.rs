//! Frame conversion: a packed interleaved 4-channel byte buffer to an owned
//! planar luma/chrominance buffer and back, with field sampling on the way
//! in and Bob-style deinterlace reconstruction on the way out.
//!
//! The sample transform is a fixed linear one with both chrominance scale
//! factors equal to one, chosen to be exactly invertible on bytes: luma is
//! the green channel, and the chrominance planes hold the wrapping
//! differences red minus green and blue minus green.

use vstd::prelude::*;
use vstd::arithmetic::div_mod::lemma_fundamental_div_mod;
use vstd::arithmetic::div_mod::lemma_fundamental_div_mod_converse;
use vstd::arithmetic::mul::lemma_mul_inequality;
use vstd::wrapping::u8_specs;

use crate::field::FieldSpec;

verus! {

/// Whether the field samples row `y` of the frame: the upper field holds the
/// even rows, the lower field the odd rows, and every other field layout
/// samples the whole frame.
pub open spec fn row_sampled(field: FieldSpec, y: int) -> bool {
    match field {
        FieldSpec::Upper => y % 2 == 0,
        FieldSpec::Lower => y % 2 == 1,
        FieldSpec::Both => true,
        FieldSpec::InterleavedUpper => true,
        FieldSpec::InterleavedLower => true,
    }
}

/// The sampled row whose planar samples reconstruct output row `y`
/// (Bob-style): a sampled row reads itself; an unsampled row duplicates the
/// nearest sampled neighbour. In the degenerate single-row lower-field frame
/// the one row reads its own (zeroed) plane entries.
pub open spec fn source_row(field: FieldSpec, y: int, h: int) -> int {
    if row_sampled(field, y) {
        y
    } else if y % 2 == 1 {
        y - 1
    } else if y + 1 < h {
        y + 1
    } else if y >= 1 {
        y - 1
    } else {
        y
    }
}

/// Bob reconstruction always reads a row of the frame.
pub proof fn lemma_source_row_in_range(field: FieldSpec, y: int, h: int)
    requires
        0 <= y < h,
    ensures
        0 <= source_row(field, y, h) < h,
{
}

/// The luma plane of a packed frame: the green channel of each sampled row's
/// pixels; zero on unsampled rows.
pub open spec fn spec_planar_luma(packed: Seq<u8>, w: nat, h: nat, field: FieldSpec) -> Seq<u8> {
    Seq::new(
        w * h,
        |i: int|
            if row_sampled(field, i / (w as int)) {
                packed[4 * i + 1]
            } else {
                0u8
            },
    )
}

/// The first chrominance plane: red minus green, wrapping; zero on
/// unsampled rows.
pub open spec fn spec_planar_chroma_i(packed: Seq<u8>, w: nat, h: nat, field: FieldSpec) -> Seq<
    u8,
> {
    Seq::new(
        w * h,
        |i: int|
            if row_sampled(field, i / (w as int)) {
                u8_specs::wrapping_sub(packed[4 * i], packed[4 * i + 1])
            } else {
                0u8
            },
    )
}

/// The second chrominance plane: blue minus green, wrapping; zero on
/// unsampled rows.
pub open spec fn spec_planar_chroma_q(packed: Seq<u8>, w: nat, h: nat, field: FieldSpec) -> Seq<
    u8,
> {
    Seq::new(
        w * h,
        |i: int|
            if row_sampled(field, i / (w as int)) {
                u8_specs::wrapping_sub(packed[4 * i + 2], packed[4 * i + 1])
            } else {
                0u8
            },
    )
}

/// An owned planar frame: three parallel planes of width × height samples,
/// tagged with the field used to produce it. It is created fresh for each
/// frame and never outlives the call that processes the frame.
pub struct PlanarFrame {
    pub luma: Vec<u8>,
    pub chroma_i: Vec<u8>,
    pub chroma_q: Vec<u8>,
    pub width: usize,
    pub height: usize,
    pub field: FieldSpec,
}

impl PlanarFrame {
    /// Planes cover the full frame geometry, and a packed copy of the frame
    /// fits in memory.
    pub open spec fn wf(self) -> bool {
        &&& self.luma@.len() == self.width * self.height
        &&& self.chroma_i@.len() == self.width * self.height
        &&& self.chroma_q@.len() == self.width * self.height
        &&& self.width * self.height * 4 <= usize::MAX
    }
}

/// Whether the field samples row `y`.
pub fn row_sampled_at(field: FieldSpec, y: usize) -> (b: bool)
    ensures
        b == row_sampled(field, y as int),
{
    match field {
        FieldSpec::Upper => y % 2 == 0,
        FieldSpec::Lower => y % 2 == 1,
        FieldSpec::Both => true,
        FieldSpec::InterleavedUpper => true,
        FieldSpec::InterleavedLower => true,
    }
}

/// The row Bob reconstruction reads for output row `y`.
pub fn source_row_at(field: FieldSpec, y: usize, h: usize) -> (r: usize)
    requires
        y < h,
    ensures
        r as int == source_row(field, y as int, h as int),
        r < h,
{
    proof {
        lemma_source_row_in_range(field, y as int, h as int);
    }
    if row_sampled_at(field, y) {
        y
    } else if y % 2 == 1 {
        y - 1
    } else if y + 1 < h {
        y + 1
    } else if y >= 1 {
        y - 1
    } else {
        y
    }
}

/// Converts a packed interleaved frame to a freshly allocated planar frame,
/// copying the rows the field samples and leaving the rest zeroed for later
/// reconstruction.
pub fn to_planar(packed: &Vec<u8>, width: usize, height: usize, field: FieldSpec) -> (r:
    PlanarFrame)
    requires
        width * height * 4 <= usize::MAX,
        packed@.len() == width * height * 4,
    ensures
        r.wf(),
        r.width == width,
        r.height == height,
        r.field == field,
        r.luma@ == spec_planar_luma(packed@, width as nat, height as nat, field),
        r.chroma_i@ == spec_planar_chroma_i(packed@, width as nat, height as nat, field),
        r.chroma_q@ == spec_planar_chroma_q(packed@, width as nat, height as nat, field),
{
    let ghost w = width as nat;
    let ghost h = height as nat;
    let n = width * height;
    let mut luma: Vec<u8> = Vec::new();
    let mut chroma_i: Vec<u8> = Vec::new();
    let mut chroma_q: Vec<u8> = Vec::new();
    let mut i: usize = 0;
    while i < n
        invariant
            n == width * height,
            w == width as nat,
            h == height as nat,
            width * height * 4 <= usize::MAX,
            packed@.len() == width * height * 4,
            i <= n,
            luma@.len() == i,
            chroma_i@.len() == i,
            chroma_q@.len() == i,
            forall|j: int|
                0 <= j < i ==> luma@[j] == spec_planar_luma(packed@, w, h, field)[j],
            forall|j: int|
                0 <= j < i ==> chroma_i@[j] == spec_planar_chroma_i(packed@, w, h, field)[j],
            forall|j: int|
                0 <= j < i ==> chroma_q@[j] == spec_planar_chroma_q(packed@, w, h, field)[j],
        decreases n - i,
    {
        assert(width > 0) by {
            if width == 0 {
                assert(n == 0);
            }
        }
        let y = i / width;
        let sampled = row_sampled_at(field, y);
        let base = 4 * i;
        if sampled {
            let g = packed[base + 1];
            let red = packed[base];
            let blue = packed[base + 2];
            luma.push(g);
            chroma_i.push(red.wrapping_sub(g));
            chroma_q.push(blue.wrapping_sub(g));
        } else {
            luma.push(0);
            chroma_i.push(0);
            chroma_q.push(0);
        }
        i += 1;
    }
    proof {
        assert(luma@ =~= spec_planar_luma(packed@, w, h, field));
        assert(chroma_i@ =~= spec_planar_chroma_i(packed@, w, h, field));
        assert(chroma_q@ =~= spec_planar_chroma_q(packed@, w, h, field));
    }
    PlanarFrame { luma, chroma_i, chroma_q, width, height, field }
}

/// One byte of the reconstructed packed frame: byte `k` belongs to pixel
/// `k / 4`, whose samples come from the Bob source row; the fourth channel
/// is written as 255.
pub open spec fn spec_packed_byte(
    luma: Seq<u8>,
    chroma_i: Seq<u8>,
    chroma_q: Seq<u8>,
    w: nat,
    h: nat,
    field: FieldSpec,
    k: int,
) -> u8 {
    let i = k / 4;
    let y = i / (w as int);
    let x = i % (w as int);
    let s = source_row(field, y, h as int) * (w as int) + x;
    let c = k % 4;
    if c == 0 {
        u8_specs::wrapping_add(luma[s], chroma_i[s])
    } else if c == 1 {
        luma[s]
    } else if c == 2 {
        u8_specs::wrapping_add(luma[s], chroma_q[s])
    } else {
        255u8
    }
}

/// The packed frame reconstructed from a planar one.
pub open spec fn spec_packed_of(
    luma: Seq<u8>,
    chroma_i: Seq<u8>,
    chroma_q: Seq<u8>,
    w: nat,
    h: nat,
    field: FieldSpec,
) -> Seq<u8> {
    Seq::new(w * h * 4, |k: int| spec_packed_byte(luma, chroma_i, chroma_q, w, h, field, k))
}

/// A pixel's flat index lies inside the frame.
proof fn lemma_pixel_index(y: int, x: int, w: int, h: int)
    requires
        0 <= y < h,
        0 <= x < w,
    ensures
        0 <= y * w + x < w * h,
{
    lemma_mul_inequality(y + 1, h, w);
    assert((y + 1) * w == y * w + w) by (nonlinear_arith);
    assert(h * w == w * h) by (nonlinear_arith);
}

/// Byte `4 * i + c` belongs to pixel `i` and channel `c`.
proof fn lemma_byte_of_pixel(i: int, c: int)
    requires
        0 <= i,
        0 <= c < 4,
    ensures
        (4 * i + c) / 4 == i,
        (4 * i + c) % 4 == c,
{
    lemma_fundamental_div_mod_converse(4 * i + c, 4, i, c);
}

/// Writes the reconstruction of a planar frame into a packed interleaved
/// buffer: every output row is populated, rows the field did not sample by
/// duplicating their nearest sampled neighbour; the buffer's length is
/// unchanged and nothing is read back from it.
pub fn write_packed(frame: &PlanarFrame, out: &mut Vec<u8>)
    requires
        frame.wf(),
        old(out)@.len() == frame.width * frame.height * 4,
    ensures
        final(out)@.len() == old(out)@.len(),
        final(out)@ == spec_packed_of(
            frame.luma@,
            frame.chroma_i@,
            frame.chroma_q@,
            frame.width as nat,
            frame.height as nat,
            frame.field,
        ),
{
    let width = frame.width;
    let height = frame.height;
    let ghost w = width as nat;
    let ghost h = height as nat;
    let ghost target = spec_packed_of(frame.luma@, frame.chroma_i@, frame.chroma_q@, w, h, frame.field);
    let n = width * height;
    let mut i: usize = 0;
    while i < n
        invariant
            n == width * height,
            w == width as nat,
            h == height as nat,
            frame.wf(),
            frame.width == width,
            frame.height == height,
            target == spec_packed_of(
                frame.luma@,
                frame.chroma_i@,
                frame.chroma_q@,
                w,
                h,
                frame.field,
            ),
            out@.len() == width * height * 4,
            i <= n,
            forall|k: int| 0 <= k < 4 * i ==> out@[k] == target[k],
        decreases n - i,
    {
        assert(width > 0) by {
            if width == 0 {
                assert(n == 0);
            }
        }
        let y = i / width;
        let x = i % width;
        assert(y < height && x < width) by {
            lemma_fundamental_div_mod(i as int, width as int);
            if y >= height {
                lemma_mul_inequality(height as int, y as int, width as int);
                assert(height * width == width * height) by (nonlinear_arith);
            }
        }
        let sy = source_row_at(frame.field, y, height);
        proof {
            lemma_pixel_index(sy as int, x as int, width as int, height as int);
        }
        let s = sy * width + x;
        let l = frame.luma[s];
        let ci = frame.chroma_i[s];
        let cq = frame.chroma_q[s];
        let base = 4 * i;
        out[base] = l.wrapping_add(ci);
        out[base + 1] = l;
        out[base + 2] = l.wrapping_add(cq);
        out[base + 3] = 255;
        proof {
            lemma_byte_of_pixel(i as int, 0);
            lemma_byte_of_pixel(i as int, 1);
            lemma_byte_of_pixel(i as int, 2);
            lemma_byte_of_pixel(i as int, 3);
            assert(forall|k: int|
                0 <= k < 4 * (i + 1) ==> out@[k] == target[k]);
        }
        i += 1;
    }
    proof {
        assert(out@ =~= target);
    }
}

/// The whole per-frame pipeline on bytes, with the effect engine's transform
/// being the identity: convert the packed input to planar form, then
/// reconstruct a packed frame from it.
pub open spec fn spec_process_frame(input: Seq<u8>, w: nat, h: nat, field: FieldSpec) -> Seq<
    u8,
> {
    spec_packed_of(
        spec_planar_luma(input, w, h, field),
        spec_planar_chroma_i(input, w, h, field),
        spec_planar_chroma_q(input, w, h, field),
        w,
        h,
        field,
    )
}

/// The sample transform is exactly invertible: adding a wrapping difference
/// back restores the original byte.
pub proof fn lemma_wrap_round(a: u8, b: u8)
    ensures
        u8_specs::wrapping_add(b, u8_specs::wrapping_sub(a, b)) == a,
{
}

/// Round trip: with progressive field handling every row is sampled, so
/// converting a packed frame to planar form and reconstructing it reproduces
/// the original bytes exactly — for frames whose fourth channel is 255
/// throughout, since the writer always emits 255 there.
pub proof fn lemma_progressive_round_trip(input: Seq<u8>, w: nat, h: nat)
    requires
        input.len() == w * h * 4,
        forall|i: int| 0 <= i < w * h ==> #[trigger] input[4 * i + 3] == 255,
    ensures
        spec_process_frame(input, w, h, FieldSpec::Both) == input,
{
    let out = spec_process_frame(input, w, h, FieldSpec::Both);
    assert forall|k: int| 0 <= k < w * h * 4 implies out[k] == input[k] by {
        lemma_fundamental_div_mod(k, 4);
        let i = k / 4;
        let c = k % 4;
        assert(0 <= i < w * h);
        assert(w > 0) by {
            if w == 0 {
                assert(w * h == 0);
            }
        }
        lemma_fundamental_div_mod(i, w as int);
        vstd::arithmetic::div_mod::lemma_div_pos_is_pos(i, w as int);
        let y = i / (w as int);
        let x = i % (w as int);
        assert(0 <= y < h) by {
            if y >= h {
                lemma_mul_inequality(h as int, y, w as int);
                assert(h * (w as int) == (w as int) * h) by (nonlinear_arith);
                assert(y * (w as int) == (w as int) * y) by (nonlinear_arith);
                assert((w as int) * h <= (w as int) * y);
            }
        }
        assert(source_row(FieldSpec::Both, y, h as int) == y);
        assert(y * (w as int) + x == i) by {
            assert((w as int) * y == y * (w as int)) by (nonlinear_arith);
        }
        if c == 0 {
            lemma_wrap_round(input[4 * i], input[4 * i + 1]);
        } else if c == 2 {
            lemma_wrap_round(input[4 * i + 2], input[4 * i + 1]);
        } else if c == 3 {
            assert(input[4 * i + 3] == 255);
        }
    };
    assert(out =~= input);
}

} // verus!
