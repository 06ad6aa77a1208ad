//! The example filter: inverts the samples of every plane of a video frame.
use vstd::prelude::*;
use crate::format::VideoFormat;
use crate::frame::{Frame, Plane, plane_width, plane_height};

verus! {

/// The position of sample `x` of row `y` in a plane whose rows are `stride` bytes apart.
pub open spec fn row_pos(y: int, x: int, stride: int) -> int {
    y * stride + x
}

/// Every plane of the frame has the size that a new frame of the size of its
/// first plane would give it.
pub open spec fn has_frame_geometry(f: Frame) -> bool {
    let format = f.spec_format();
    let w = f.spec_planes()[0].width;
    let h = f.spec_planes()[0].height;
    &&& f.spec_planes().len() >= 1
    &&& Frame::valid_new_frame(w, h, format)
    &&& forall|i: int|
        0 <= i < f.spec_planes().len() ==> (#[trigger] f.spec_planes()[i]).width == plane_width(
            w,
            format,
            i,
        ) && f.spec_planes()[i].height == plane_height(h, format, i)
}

/// `dst` is the filter's output for `src`: same format, size and
/// properties, rows at least as long as their samples, and the first `width`
/// bytes of each row the bitwise complement of the input bytes at the same
/// place (`width` being the plane's width in samples).
pub open spec fn inverts(src: Frame, dst: Frame) -> bool {
    &&& dst.spec_format() == src.spec_format()
    &&& dst.props() == src.props()
    &&& dst.spec_planes().len() == src.spec_planes().len()
    &&& forall|i: int|
        0 <= i < dst.spec_planes().len() ==> {
            let p = #[trigger] dst.spec_planes()[i];
            let q = src.spec_planes()[i];
            &&& p.width == q.width
            &&& p.height == q.height
            &&& p.stride >= q.width * src.spec_format().bytes_per_sample
            &&& forall|y: int, x: int|
                0 <= y < p.height && 0 <= x < q.width ==> #[trigger] p.data@[row_pos(
                    y,
                    x,
                    p.stride as int,
                )] == !q.data@[row_pos(y, x, q.stride as int)]
        }
}

/// Inverting the output again gives back the input's samples: the first
/// `width` bytes of every row of every plane.
pub proof fn lemma_invert_twice(a: Frame, b: Frame, c: Frame)
    requires
        a.wf(),
        inverts(a, b),
        inverts(b, c),
    ensures
        c.spec_planes().len() == a.spec_planes().len(),
        forall|i: int, y: int, x: int|
            0 <= i < a.spec_planes().len() && 0 <= y < a.spec_planes()[i].height && 0 <= x
                < a.spec_planes()[i].width ==> #[trigger] c.spec_planes()[i].data@[row_pos(
                y,
                x,
                c.spec_planes()[i].stride as int,
            )] == a.spec_planes()[i].data@[row_pos(y, x, a.spec_planes()[i].stride as int)],
{
    assert forall|i: int, y: int, x: int|
        0 <= i < a.spec_planes().len() && 0 <= y < a.spec_planes()[i].height && 0 <= x
            < a.spec_planes()[i].width implies #[trigger] c.spec_planes()[i].data@[row_pos(
            y,
            x,
            c.spec_planes()[i].stride as int,
        )] == a.spec_planes()[i].data@[row_pos(y, x, a.spec_planes()[i].stride as int)] by {
        let pa = a.spec_planes()[i];
        let pb = b.spec_planes()[i];
        let pc = c.spec_planes()[i];
        let v = pa.data@[row_pos(y, x, pa.stride as int)];
        assert(pb.data@[row_pos(y, x, pb.stride as int)] == !v);
        assert(pc.data@[row_pos(y, x, pc.stride as int)] == !(!v));
        assert(!(!v) == v) by (bit_vector);
    }
}

/// Two positions in rows of the same length are the same only for the same
/// row and column.
proof fn lemma_row_pos_unique(y1: int, x1: int, y2: int, x2: int, s: int)
    requires
        0 <= x1 < s,
        0 <= x2 < s,
        0 <= y1,
        0 <= y2,
        row_pos(y1, x1, s) == row_pos(y2, x2, s),
    ensures
        y1 == y2,
        x1 == x2,
{
    if y1 < y2 {
        assert(y1 * s + s <= y2 * s) by (nonlinear_arith)
            requires
                y1 < y2,
                s > 0,
        ;
    } else if y2 < y1 {
        assert(y2 * s + s <= y1 * s) by (nonlinear_arith)
            requires
                y2 < y1,
                s > 0,
        ;
    }
}

/// A position in one of the first `h` rows lies inside a plane of `h` rows.
proof fn lemma_row_pos_bound(y: int, x: int, s: int, h: int)
    requires
        0 <= y < h,
        0 <= x < s,
    ensures
        0 <= row_pos(y, x, s) < s * h,
        row_pos(y, x, s) + 1 <= s * h,
{
    assert(y * s + x < s * h) by (nonlinear_arith)
        requires
            0 <= y < h,
            0 <= x < s,
    ;
    assert(0 <= y * s) by (nonlinear_arith)
        requires
            0 <= y,
            0 <= x < s,
    ;
}

/// Inverts one plane: writes the complement of the first `width` bytes of
/// each input row into the output rows and leaves the rest of each row as it was.
fn invert_plane(src: &[u8], src_stride: usize, dst: &mut [u8], dst_stride: usize, width: usize, height: usize)
    requires
        src@.len() == src_stride * height,
        old(dst)@.len() == dst_stride * height,
        width <= src_stride,
        width <= dst_stride,
    ensures
        final(dst)@.len() == old(dst)@.len(),
        forall|y: int, x: int|
            0 <= y < height && 0 <= x < dst_stride ==> #[trigger] final(dst)@[row_pos(y, x, dst_stride as int)]
                == if x < width {
                !src@[row_pos(y, x, src_stride as int)]
            } else {
                old(dst)@[row_pos(y, x, dst_stride as int)]
            },
{
    let ghost d0 = dst@;
    let src_len = src.len();
    let dst_len = dst.len();
    let mut y: usize = 0;
    while y < height
        invariant
            0 <= y <= height,
            src_len == src@.len(),
            dst_len == dst@.len(),
            src@.len() == src_stride * height,
            dst@.len() == dst_stride * height,
            width <= src_stride,
            width <= dst_stride,
            forall|yy: int, xx: int|
                0 <= yy < height && 0 <= xx < dst_stride ==> #[trigger] dst@[row_pos(yy, xx, dst_stride as int)]
                    == if yy < y && xx < width {
                    !src@[row_pos(yy, xx, src_stride as int)]
                } else {
                    d0[row_pos(yy, xx, dst_stride as int)]
                },
        decreases height - y,
    {
        let mut x: usize = 0;
        while x < width
            invariant
                0 <= y < height,
                0 <= x <= width,
                src_len == src@.len(),
                dst_len == dst@.len(),
                src@.len() == src_stride * height,
                dst@.len() == dst_stride * height,
                width <= src_stride,
                width <= dst_stride,
                forall|yy: int, xx: int|
                    0 <= yy < height && 0 <= xx < dst_stride ==> #[trigger] dst@[row_pos(yy, xx, dst_stride as int)]
                        == if (yy < y || (yy == y && xx < x)) && xx < width {
                        !src@[row_pos(yy, xx, src_stride as int)]
                    } else {
                        d0[row_pos(yy, xx, dst_stride as int)]
                    },
            decreases width - x,
        {
            proof {
                lemma_row_pos_bound(y as int, x as int, src_stride as int, height as int);
                lemma_row_pos_bound(y as int, x as int, dst_stride as int, height as int);
            }
            let si = y * src_stride + x;
            let di = y * dst_stride + x;
            let v = !src[si];
            let ghost before = dst@;
            dst[di] = v;
            proof {
                assert forall|yy: int, xx: int|
                    0 <= yy < height && 0 <= xx < dst_stride implies #[trigger] dst@[row_pos(yy, xx, dst_stride as int)]
                        == if (yy < y || (yy == y && xx < x + 1)) && xx < width {
                        !src@[row_pos(yy, xx, src_stride as int)]
                    } else {
                        d0[row_pos(yy, xx, dst_stride as int)]
                    } by {
                    lemma_row_pos_bound(yy, xx, dst_stride as int, height as int);
                    if row_pos(yy, xx, dst_stride as int) == di as int {
                        lemma_row_pos_unique(yy, xx, y as int, x as int, dst_stride as int);
                    } else {
                        assert(dst@[row_pos(yy, xx, dst_stride as int)] == before[row_pos(yy, xx, dst_stride as int)]);
                        if yy == y && xx == x {
                            assert(false);
                        }
                    }
                }
            }
            x = x + 1;
        }
        y = y + 1;
    }
}

/// Builds the output frame of the filter for one input frame: a new frame of
/// the same format and size, with the input's properties, whose planes hold
/// the complement of the first `width` bytes of every input row, where
/// `width` is the plane's width in samples.
pub fn invert_frame(src: &Frame) -> (dst: Frame)
    requires
        src.wf(),
        has_frame_geometry(*src),
    ensures
        dst.wf(),
        inverts(*src, dst),
        has_frame_geometry(dst),
{
    let vf: VideoFormat = src.get_video_format().unwrap();
    proof {
        src.lemma_wf_facts();
    }
    let height = src.get_height(0);
    let width = src.get_width(0);
    let mut dst = Frame::new_video_frame(width, height, &vf, Some(src));
    proof {
        dst.lemma_wf_facts();
    }
    let mut plane: i32 = 0;
    while plane < vf.num_planes
        invariant
            src.wf(),
            has_frame_geometry(*src),
            vf == src.spec_format(),
            width == src.spec_planes()[0].width,
            height == src.spec_planes()[0].height,
            0 <= plane <= vf.num_planes,
            dst.wf(),
            dst.spec_format() == vf,
            dst.props() == src.props(),
            dst.spec_planes().len() == src.spec_planes().len(),
            forall|i: int|
                0 <= i < dst.spec_planes().len() ==> {
                    let p = #[trigger] dst.spec_planes()[i];
                    let q = src.spec_planes()[i];
                    &&& p.width == q.width
                    &&& p.height == q.height
                    &&& p.stride >= q.width * vf.bytes_per_sample
                    &&& i < plane ==> forall|y: int, x: int|
                        0 <= y < p.height && 0 <= x < q.width ==> #[trigger] p.data@[row_pos(y, x, p.stride as int)]
                            == !q.data@[row_pos(y, x, q.stride as int)]
                },
        decreases vf.num_planes - plane,
    {
        proof {
            src.lemma_wf_facts();
            dst.lemma_wf_facts();
        }
        let srcp = src.get_read_slice(plane);
        let src_stride = src.get_stride(plane);
        let dst_stride = dst.get_stride(plane);
        let h = src.get_height(plane) as usize;
        let w = src.get_width(plane) as usize;
        let ghost before = dst;
        proof {
            let q = src.spec_planes()[plane as int];
            assert(q.wf(vf.bytes_per_sample as int));
            assert(w * 1 <= w * vf.bytes_per_sample) by (nonlinear_arith)
                requires
                    vf.bytes_per_sample >= 1,
                    w >= 0,
            ;
            assert(dst.spec_planes()[plane as int].stride >= w);
        }
        let dstp = dst.get_write_slice(plane);
        invert_plane(srcp, src_stride, dstp, dst_stride, w, h);
        proof {
            assert forall|i: int|
                0 <= i < dst.spec_planes().len() implies {
                    let p = #[trigger] dst.spec_planes()[i];
                    let q = src.spec_planes()[i];
                    &&& p.width == q.width
                    &&& p.height == q.height
                    &&& p.stride >= q.width * vf.bytes_per_sample
                    &&& i < plane + 1 ==> forall|y: int, x: int|
                        0 <= y < p.height && 0 <= x < q.width ==> #[trigger] p.data@[row_pos(y, x, p.stride as int)]
                            == !q.data@[row_pos(y, x, q.stride as int)]
                } by {
                if i != plane {
                    assert(dst.spec_planes()[i] == before.spec_planes()[i]);
                } else {
                    let p = dst.spec_planes()[i];
                    let q = src.spec_planes()[i];
                    assert forall|y: int, x: int|
                        0 <= y < p.height && 0 <= x < q.width implies #[trigger] p.data@[row_pos(y, x, p.stride as int)]
                            == !q.data@[row_pos(y, x, q.stride as int)] by {
                        assert(x < p.stride) by (nonlinear_arith)
                            requires
                                p.stride >= q.width * vf.bytes_per_sample,
                                vf.bytes_per_sample >= 1,
                                0 <= x < q.width,
                        ;
                    }
                }
            }
        }
        plane = plane + 1;
    }
    proof {
        dst.lemma_wf_facts();
        assert(dst.spec_planes()[0].width == width);
        assert(dst.spec_planes()[0].height == height);
    }
    dst
}

} // verus!
