//! Helper functions of the VapourSynth C API headers, written safely.
use vstd::prelude::*;
use crate::format::{RawVideoFormat, RawVideoInfo, RawAudioFormat, RawAudioInfo};

verus! {

/// Converts an `i64` to an `i32`, saturating at the bounds of `i32`.
pub fn int64ToIntS(i: i64) -> (r: i32)
    ensures
        r == (if i > i32::MAX { i32::MAX as int } else if i < i32::MIN { i32::MIN as int } else { i as int }),
{
    if i > i32::MAX as i64 {
        i32::MAX
    } else if i < i32::MIN as i64 {
        i32::MIN
    } else {
        i as i32
    }
}

/// Makes a VapourSynth version number: the major version in the high 16
/// bits, the minor one in the low 16 bits.
///
/// For a major version below `0x8000` and a minor one below `0x10000` this is
/// `major * 0x10000 + minor`; other numbers are combined bit by bit the same
/// way, the bits of `major` above the lowest 16 shifted out.
pub fn make_version(major: i32, minor: i32) -> (r: i32)
    ensures
        r == (major << 16u32) | minor,
        0 <= major < 0x8000 && 0 <= minor < 0x10000 ==> r == major * 0x10000 + minor,
{
    assert(0 <= major < 0x8000 && 0 <= minor < 0x10000 ==> (major << 16u32) | minor == major
        * 0x10000 + minor) by (bit_vector);
    (major << 16u32) | minor
}

/// 1 when the clip's format never changes between frames: it has a size and
/// a colour family; 0 otherwise.
pub fn isConstantVideoFormat(vi: &RawVideoInfo) -> (r: i32)
    ensures
        r == if vi.height > 0 && vi.width > 0 && vi.format.color_family != 0 {
            1i32
        } else {
            0i32
        },
{
    if vi.height > 0 && vi.width > 0 && vi.format.color_family != 0 {
        1
    } else {
        0
    }
}

/// Whether two video formats agree in colour family, sample type, bits per
/// sample and subsampling.
pub open spec fn same_video_format(v1: RawVideoFormat, v2: RawVideoFormat) -> bool {
    &&& v1.color_family == v2.color_family
    &&& v1.sample_type == v2.sample_type
    &&& v1.bits_per_sample == v2.bits_per_sample
    &&& v1.sub_sampling_w == v2.sub_sampling_w
    &&& v1.sub_sampling_h == v2.sub_sampling_h
}

/// 1 when two clips have the same format, 0 otherwise.
pub fn isSameVideoFormat(v1: &RawVideoFormat, v2: &RawVideoFormat) -> (r: i32)
    ensures
        r == if same_video_format(*v1, *v2) {
            1i32
        } else {
            0i32
        },
{
    if v1.color_family == v2.color_family && v1.sample_type == v2.sample_type
        && v1.bits_per_sample == v2.bits_per_sample && v1.sub_sampling_w == v2.sub_sampling_w
        && v1.sub_sampling_h == v2.sub_sampling_h {
        1
    } else {
        0
    }
}

/// 1 when two clips have the same format and size, 0 otherwise.
pub fn isSameVideoInfo(v1: &RawVideoInfo, v2: &RawVideoInfo) -> (r: i32)
    ensures
        r == if v1.height == v2.height && v1.width == v2.width && same_video_format(
            v1.format,
            v2.format,
        ) {
            1i32
        } else {
            0i32
        },
{
    if v1.height == v2.height && v1.width == v2.width && isSameVideoFormat(&v1.format, &v2.format)
        != 0 {
        1
    } else {
        0
    }
}

/// 1 when two clips have the same audio format, 0 otherwise.
pub fn isSameAudioFormat(a1: &RawAudioFormat, a2: &RawAudioFormat) -> (r: i32)
    ensures
        r == if a1.bits_per_sample == a2.bits_per_sample && a1.sample_type == a2.sample_type
            && a1.channel_layout == a2.channel_layout {
            1i32
        } else {
            0i32
        },
{
    if a1.bits_per_sample == a2.bits_per_sample && a1.sample_type == a2.sample_type
        && a1.channel_layout == a2.channel_layout {
        1
    } else {
        0
    }
}

/// 1 when two clips have the same audio format and sample rate, 0 otherwise.
pub fn isSameAudioInfo(a1: &RawAudioInfo, a2: &RawAudioInfo) -> (r: i32)
    ensures
        r == if a1.sample_rate == a2.sample_rate && a1.format.bits_per_sample
            == a2.format.bits_per_sample && a1.format.sample_type == a2.format.sample_type
            && a1.format.channel_layout == a2.format.channel_layout {
            1i32
        } else {
            0i32
        },
{
    if a1.sample_rate == a2.sample_rate && isSameAudioFormat(&a1.format, &a2.format) != 0 {
        1
    } else {
        0
    }
}

/// 1 when a frame of the given size can be subsampled as the format says:
/// the width and height are multiples of the subsampling factors.
pub fn areValidDimensions(fi: &RawVideoFormat, width: i32, height: i32) -> (r: i32)
    requires
        0 <= fi.sub_sampling_w < 32,
        0 <= fi.sub_sampling_h < 32,
    ensures
        r == if (width as int) % (vstd::arithmetic::power2::pow2(fi.sub_sampling_w as nat) as int) == 0
            && (height as int) % (vstd::arithmetic::power2::pow2(fi.sub_sampling_h as nat) as int) == 0 {
            1i32
        } else {
            0i32
        },
{
    if divisible_by_pow2(width, fi.sub_sampling_w) && divisible_by_pow2(height, fi.sub_sampling_h) {
        1
    } else {
        0
    }
}

/// Whether `a` is a multiple of `2^s`, for a shift below 32.
fn divisible_by_pow2(a: i32, s: i32) -> (r: bool)
    requires
        0 <= s < 32,
    ensures
        r == ((a as int) % (vstd::arithmetic::power2::pow2(s as nat) as int) == 0),
{
    if s < 31 {
        let f = shift_one(s);
        divides(f, a)
    } else {
        let r = a == 0 || a == i32::MIN;
        proof {
            vstd::arithmetic::power2::lemma2_to64();
            let p = vstd::arithmetic::power2::pow2(31) as int;
            assert(p == 0x8000_0000);
            let ai = a as int;
            vstd::arithmetic::div_mod::lemma_fundamental_div_mod(ai, p);
            if ai == 0 {
                vstd::arithmetic::div_mod::lemma_fundamental_div_mod_converse(ai, p, 0, 0);
            } else if ai == -p {
                vstd::arithmetic::div_mod::lemma_fundamental_div_mod_converse(ai, p, -1, 0);
            } else if ai > 0 {
                vstd::arithmetic::div_mod::lemma_fundamental_div_mod_converse(ai, p, 0, ai);
            } else {
                vstd::arithmetic::div_mod::lemma_fundamental_div_mod_converse(ai, p, -1, ai + p);
            }
        }
        r
    }
}

/// Whether `f` divides `a`.
fn divides(f: i32, a: i32) -> (r: bool)
    requires
        f > 0,
    ensures
        r == ((a as int) % (f as int) == 0),
{
    let a64 = a as i64;
    let factor = f as i64;
    if a64 >= 0 {
        a64 % factor == 0
    } else {
        let n = -a64;
        let r = n % factor == 0;
        proof {
            let ai = a as int;
            let fi = f as int;
            vstd::arithmetic::div_mod::lemma_fundamental_div_mod(ai, fi);
            vstd::arithmetic::div_mod::lemma_fundamental_div_mod(-ai, fi);
            if (-ai) % fi == 0 {
                let q = (-ai) / fi;
                assert(ai == fi * (-q)) by (nonlinear_arith)
                    requires
                        -ai == fi * q + 0,
                ;
                vstd::arithmetic::div_mod::lemma_fundamental_div_mod_converse(ai, fi, -q, 0);
            }
            if ai % fi == 0 {
                let q = ai / fi;
                assert(-ai == fi * (-q)) by (nonlinear_arith)
                    requires
                        ai == fi * q + 0,
                ;
                vstd::arithmetic::div_mod::lemma_fundamental_div_mod_converse(-ai, fi, -q, 0);
            }
        }
        r
    }
}

/// `1 << s` for a shift below 31.
fn shift_one(s: i32) -> (r: i32)
    requires
        0 <= s < 31,
    ensures
        r == vstd::arithmetic::power2::pow2(s as nat),
        r > 0,
{
    let mut r: i32 = 1;
    let mut i: i32 = 0;
    proof {
        vstd::arithmetic::power2::lemma2_to64();
    }
    while i < s
        invariant
            0 <= i <= s < 31,
            r == vstd::arithmetic::power2::pow2(i as nat),
        decreases s - i,
    {
        proof {
            vstd::arithmetic::power2::lemma_pow2_unfold((i + 1) as nat);
            vstd::arithmetic::power2::lemma_pow2_strictly_increases((i + 1) as nat, 31);
            vstd::arithmetic::power2::lemma2_to64();
        }
        r = r * 2;
        i = i + 1;
    }
    proof {
        vstd::arithmetic::power2::lemma_pow2_pos(s as nat);
    }
    r
}

/// The last of the first `h` rows, each `rs` bytes long and starting `ds`
/// bytes after the one before, that covers byte `k`; -1 when none does.
pub open spec fn writer_row(k: int, ds: int, rs: int, h: int) -> int
    decreases h,
{
    if h <= 0 {
        -1
    } else if (h - 1) * ds <= k < (h - 1) * ds + rs {
        h - 1
    } else {
        writer_row(k, ds, rs, h - 1)
    }
}

/// Copies `height` rows of `row_size` bytes from one plane to another, each
/// plane's rows `stride` bytes apart, one row after the other: a target byte
/// holds what the last row written over it brought, and the target bytes no
/// row covers stay. Where rows do not overlap (`row_size <= dst_stride`),
/// this is byte `k % dst_stride` of row `k / dst_stride` for the first
/// `row_size` bytes of each of the first `height` rows.
pub fn bitblt(dstp: &mut [u8], dst_stride: usize, srcp: &[u8], src_stride: usize, row_size: usize, height: usize)
    requires
        height > 0 ==> (height - 1) * dst_stride + row_size <= old(dstp)@.len(),
        height > 0 ==> (height - 1) * src_stride + row_size <= srcp@.len(),
    ensures
        final(dstp)@.len() == old(dstp)@.len(),
        forall|k: int|
            0 <= k < final(dstp)@.len() ==> #[trigger] final(dstp)@[k] == {
                let y = writer_row(k, dst_stride as int, row_size as int, height as int);
                if y >= 0 {
                    srcp@[y * src_stride + (k - y * dst_stride)]
                } else {
                    old(dstp)@[k]
                }
            },
        row_size <= dst_stride ==> forall|k: int|
            0 <= k < final(dstp)@.len() ==> #[trigger] final(dstp)@[k] == if k < height * dst_stride
                && k % (dst_stride as int) < row_size {
                srcp@[(k / (dst_stride as int)) * src_stride + k % (dst_stride as int)]
            } else {
                old(dstp)@[k]
            },
{
    let ghost d0 = dstp@;
    let dlen = dstp.len();
    let slen = srcp.len();
    let mut y: usize = 0;
    while y < height
        invariant
            0 <= y <= height,
            dlen == dstp@.len(),
            slen == srcp@.len(),
            dstp@.len() == d0.len(),
            height > 0 ==> (height - 1) * dst_stride + row_size <= d0.len(),
            height > 0 ==> (height - 1) * src_stride + row_size <= srcp@.len(),
            forall|k: int|
                0 <= k < dstp@.len() ==> #[trigger] dstp@[k] == {
                    let w = writer_row(k, dst_stride as int, row_size as int, y as int);
                    if w >= 0 {
                        srcp@[w * src_stride + (k - w * dst_stride)]
                    } else {
                        d0[k]
                    }
                },
        decreases height - y,
    {
        proof {
            assert(y * dst_stride <= (height - 1) * dst_stride) by (nonlinear_arith)
                requires
                    y <= height - 1,
            ;
            assert(y * src_stride <= (height - 1) * src_stride) by (nonlinear_arith)
                requires
                    y <= height - 1,
            ;
        }
        let ds = y * dst_stride;
        let ss = y * src_stride;
        let mut x: usize = 0;
        while x < row_size
            invariant
                0 <= y < height,
                0 <= x <= row_size,
                ds == y * dst_stride,
                ss == y * src_stride,
                ds + row_size <= d0.len(),
                ss + row_size <= srcp@.len(),
                dlen == dstp@.len(),
                slen == srcp@.len(),
                dstp@.len() == d0.len(),
                forall|k: int|
                    0 <= k < dstp@.len() ==> #[trigger] dstp@[k] == if ds <= k < ds + x {
                        srcp@[ss + (k - ds)]
                    } else {
                        let w = writer_row(k, dst_stride as int, row_size as int, y as int);
                        if w >= 0 {
                            srcp@[w * src_stride + (k - w * dst_stride)]
                        } else {
                            d0[k]
                        }
                    },
            decreases row_size - x,
        {
            let v = srcp[ss + x];
            dstp[ds + x] = v;
            x = x + 1;
        }
        y = y + 1;
    }
    proof {
        if row_size <= dst_stride {
            assert forall|k: int| 0 <= k < dstp@.len() implies #[trigger] dstp@[k] == if k < height
                * dst_stride && k % (dst_stride as int) < row_size {
                srcp@[(k / (dst_stride as int)) * src_stride + k % (dst_stride as int)]
            } else {
                d0[k]
            } by {
                lemma_writer_row_aligned(k, dst_stride as int, row_size as int, height as int);
            }
        }
    }
}

/// Where rows do not overlap, the row covering byte `k` is `k / ds`, when
/// `k` lies in the first `rs` bytes of one of the first `h` rows.
proof fn lemma_writer_row_aligned(k: int, ds: int, rs: int, h: int)
    requires
        0 <= k,
        0 <= rs <= ds,
        0 <= h,
    ensures
        ds > 0 ==> writer_row(k, ds, rs, h) == if k < h * ds && k % ds < rs {
            k / ds
        } else {
            -1
        },
        ds > 0 && k < h * ds && k % ds < rs ==> k - (k / ds) * ds == k % ds,
        ds == 0 ==> writer_row(k, ds, rs, h) == -1 && h * ds == 0,
    decreases h,
{
    if h > 0 {
        lemma_writer_row_aligned(k, ds, rs, h - 1);
        assert((h - 1) * ds + ds == h * ds) by (nonlinear_arith);
        if ds > 0 {
            lemma_row_split(k, h - 1, ds, rs);
            vstd::arithmetic::div_mod::lemma_fundamental_div_mod(k, ds);
            assert(ds * (k / ds) == (k / ds) * ds) by (nonlinear_arith);
            if (h - 1) * ds <= k < (h - 1) * ds + rs {
                vstd::arithmetic::div_mod::lemma_fundamental_div_mod_converse(
                    k,
                    ds,
                    h - 1,
                    k - (h - 1) * ds,
                );
            }
        } else {
            assert((h - 1) * ds == 0) by (nonlinear_arith)
                requires
                    ds == 0,
            ;
        }
    } else {
        assert(h * ds == 0) by (nonlinear_arith)
            requires
                h == 0,
        ;
    }
}

/// Position `x` of row `y` in rows `s` bytes apart: inside the first `h`
/// rows, and its row and column are read back by division.
pub(crate) proof fn lemma_row_index(y: int, x: int, s: int, h: int)
    requires
        0 <= y < h,
        0 <= x < s,
    ensures
        0 <= y * s + x < h * s,
        (y * s + x) / s == y,
        (y * s + x) % s == x,
        y * s + x + 1 <= h * s,
{
    assert(0 <= y * s + x < h * s) by (nonlinear_arith)
        requires
            0 <= y < h,
            0 <= x < s,
    ;
    vstd::arithmetic::div_mod::lemma_fundamental_div_mod_converse(y * s + x, s, y, x);
}

/// A position before row `y + 1` with its column inside the row size is
/// either before row `y` or in row `y`'s first `row` bytes.
proof fn lemma_row_split(k: int, y: int, s: int, row: int)
    requires
        0 <= k,
        0 <= y,
        0 <= row <= s,
        s > 0,
    ensures
        (k < (y + 1) * s && k % s < row) <==> ((k < y * s && k % s < row) || (y * s <= k < y * s + row)),
{
    vstd::arithmetic::div_mod::lemma_fundamental_div_mod(k, s);
    let q = k / s;
    let m = k % s;
    assert(0 <= m < s);
    if q < y {
        assert(q * s + s <= y * s) by (nonlinear_arith)
            requires
                q < y,
                s > 0,
        ;
    } else if q == y {
    } else {
        assert((y + 1) * s <= q * s) by (nonlinear_arith)
            requires
                q >= y + 1,
                s > 0,
        ;
    }
    assert(k == q * s + m) by {
        assert(k == s * q + m);
        assert(s * q == q * s) by (nonlinear_arith);
    }
    assert((y + 1) * s == y * s + s) by (nonlinear_arith);
}

} // verus!
