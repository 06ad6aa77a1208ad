//! Encoding a clip for output: the optional YUV4MPEG2 container around the raw
//! planes of each frame. The writer collects the encoded bytes; the caller
//! takes them and sends them wherever the output goes.
use vstd::prelude::*;
use crate::format::{ColorFamily, VideoFormat, VideoInfo, AudioInfo, SampleType};
use crate::frame::{Frame, Plane};
use crate::invert::row_pos;
use crate::text::{decimal, decimal_text, digits_text, lemma_decimal_text_utf8, lemma_ascii_utf8, utf8, push_decimal_i64, push_str, push_bytes, str_eq, lemma_utf8_append, text_from_utf8};

verus! {

/// The colour tag of the YUV4MPEG2 header for a format; formats without a tag
/// of their own get the 8-bit 4:2:0 tag.
pub open spec fn spec_y4m_format_tag(f: VideoFormat) -> Seq<char> {
    if f.color_family == ColorFamily::YUV {
        if f.bits_per_sample == 8 && f.sub_sampling_w == 1 && f.sub_sampling_h == 1 {
            "C420jpeg"@
        } else if f.bits_per_sample == 8 && f.sub_sampling_w == 1 && f.sub_sampling_h == 0 {
            "C422"@
        } else if f.bits_per_sample == 8 && f.sub_sampling_w == 0 && f.sub_sampling_h == 0 {
            "C444"@
        } else if f.bits_per_sample == 10 && f.sub_sampling_w == 1 && f.sub_sampling_h == 1 {
            "C420p10"@
        } else if f.bits_per_sample == 10 && f.sub_sampling_w == 1 && f.sub_sampling_h == 0 {
            "C422p10"@
        } else if f.bits_per_sample == 10 && f.sub_sampling_w == 0 && f.sub_sampling_h == 0 {
            "C444p10"@
        } else if f.bits_per_sample == 12 && f.sub_sampling_w == 1 && f.sub_sampling_h == 1 {
            "C420p12"@
        } else if f.bits_per_sample == 12 && f.sub_sampling_w == 1 && f.sub_sampling_h == 0 {
            "C422p12"@
        } else if f.bits_per_sample == 12 && f.sub_sampling_w == 0 && f.sub_sampling_h == 0 {
            "C444p12"@
        } else if f.bits_per_sample == 16 && f.sub_sampling_w == 1 && f.sub_sampling_h == 1 {
            "C420p16"@
        } else if f.bits_per_sample == 16 && f.sub_sampling_w == 1 && f.sub_sampling_h == 0 {
            "C422p16"@
        } else if f.bits_per_sample == 16 && f.sub_sampling_w == 0 && f.sub_sampling_h == 0 {
            "C444p16"@
        } else {
            "C420jpeg"@
        }
    } else {
        "C420jpeg"@
    }
}

/// The colour tag of the YUV4MPEG2 header for a format.
pub fn y4m_format_tag(f: &VideoFormat) -> (r: &'static str)
    ensures
        r@ == spec_y4m_format_tag(*f),
{
    if f.color_family == ColorFamily::YUV {
        let b = f.bits_per_sample;
        let w = f.sub_sampling_w;
        let h = f.sub_sampling_h;
        if b == 8 && w == 1 && h == 1 {
            "C420jpeg"
        } else if b == 8 && w == 1 && h == 0 {
            "C422"
        } else if b == 8 && w == 0 && h == 0 {
            "C444"
        } else if b == 10 && w == 1 && h == 1 {
            "C420p10"
        } else if b == 10 && w == 1 && h == 0 {
            "C422p10"
        } else if b == 10 && w == 0 && h == 0 {
            "C444p10"
        } else if b == 12 && w == 1 && h == 1 {
            "C420p12"
        } else if b == 12 && w == 1 && h == 0 {
            "C422p12"
        } else if b == 12 && w == 0 && h == 0 {
            "C444p12"
        } else if b == 16 && w == 1 && h == 1 {
            "C420p16"
        } else if b == 16 && w == 1 && h == 0 {
            "C422p16"
        } else if b == 16 && w == 0 && h == 0 {
            "C444p16"
        } else {
            "C420jpeg"
        }
    } else {
        "C420jpeg"
    }
}

/// The colour tag names the format's chroma subsampling and depth: for a
/// YUV format of 8, 10, 12 or 16 bits subsampled 4:2:0 (both ways), 4:2:2
/// (horizontally only) or 4:4:4 (not at all) it is `C`, the three digits of
/// the subsampling, then `p` and the bit depth in decimal for the deeper
/// formats, `jpeg` for 8-bit 4:2:0 and nothing for the other 8-bit ones.
/// Every other format gets the 8-bit 4:2:0 tag.
pub proof fn lemma_y4m_tag_names_subsampling(f: VideoFormat)
    ensures
        ({
            let b = f.bits_per_sample;
            let w = f.sub_sampling_w;
            let h = f.sub_sampling_h;
            let known = f.color_family == ColorFamily::YUV && (b == 8 || b == 10 || b == 12 || b
                == 16) && ((w == 1 && h == 1) || (w == 1 && h == 0) || (w == 0 && h == 0));
            let chroma = if h == 1 {
                "420"@
            } else if w == 1 {
                "422"@
            } else {
                "444"@
            };
            let depth = if b != 8 {
                "p"@ + decimal_text(b as int)
            } else if h == 1 {
                "jpeg"@
            } else {
                Seq::<char>::empty()
            };
            if known {
                spec_y4m_format_tag(f) == "C"@ + chroma + depth
            } else {
                spec_y4m_format_tag(f) == "C420jpeg"@
            }
        }),
{
    reveal_strlit("C");
    reveal_strlit("420");
    reveal_strlit("422");
    reveal_strlit("444");
    reveal_strlit("p");
    reveal_strlit("jpeg");
    reveal_strlit("C420jpeg");
    reveal_strlit("C422");
    reveal_strlit("C444");
    reveal_strlit("C420p10");
    reveal_strlit("C422p10");
    reveal_strlit("C444p10");
    reveal_strlit("C420p12");
    reveal_strlit("C422p12");
    reveal_strlit("C444p12");
    reveal_strlit("C420p16");
    reveal_strlit("C422p16");
    reveal_strlit("C444p16");
    reveal_with_fuel(digits_text, 3);
    assert(decimal_text(10) =~= seq!['1', '0']);
    assert(decimal_text(12) =~= seq!['1', '2']);
    assert(decimal_text(16) =~= seq!['1', '6']);
    assert("C"@ + "420"@ + "jpeg"@ =~= "C420jpeg"@);
    assert("C"@ + "422"@ + Seq::<char>::empty() =~= "C422"@);
    assert("C"@ + "444"@ + Seq::<char>::empty() =~= "C444"@);
    assert("C"@ + "420"@ + ("p"@ + decimal_text(10)) =~= "C420p10"@);
    assert("C"@ + "422"@ + ("p"@ + decimal_text(10)) =~= "C422p10"@);
    assert("C"@ + "444"@ + ("p"@ + decimal_text(10)) =~= "C444p10"@);
    assert("C"@ + "420"@ + ("p"@ + decimal_text(12)) =~= "C420p12"@);
    assert("C"@ + "422"@ + ("p"@ + decimal_text(12)) =~= "C422p12"@);
    assert("C"@ + "444"@ + ("p"@ + decimal_text(12)) =~= "C444p12"@);
    assert("C"@ + "420"@ + ("p"@ + decimal_text(16)) =~= "C420p16"@);
    assert("C"@ + "422"@ + ("p"@ + decimal_text(16)) =~= "C422p16"@);
    assert("C"@ + "444"@ + ("p"@ + decimal_text(16)) =~= "C444p16"@);
}

/// The YUV4MPEG2 stream header line for a clip:
/// `YUV4MPEG2 W<width> H<height> F<num>:<den> Ip A0:0 <tag>` and a newline.
pub open spec fn y4m_header(vi: VideoInfo) -> Seq<u8> {
    utf8("YUV4MPEG2 W"@) + decimal(vi.width as int) + utf8(" H"@) + decimal(vi.height as int)
        + utf8(" F"@) + decimal(vi.fps_num as int) + utf8(":"@) + decimal(vi.fps_den as int)
        + utf8(" Ip A0:0 "@) + utf8(spec_y4m_format_tag(vi.format)) + utf8("\n"@)
}

/// The YUV4MPEG2 header is the UTF-8 text `YUV4MPEG2`, then `W` and the
/// width, `H` and the height, `F` and the frame rate as numerator `:`
/// denominator, progressive scan (`Ip`), an unknown pixel aspect (`A0:0`)
/// and the colour tag, separated by spaces and ended by a newline, the
/// numbers in decimal.
pub proof fn lemma_y4m_header_text(vi: VideoInfo)
    ensures
        y4m_header(vi) == utf8(
            "YUV4MPEG2 W"@ + decimal_text(vi.width as int) + " H"@ + decimal_text(vi.height as int)
                + " F"@ + decimal_text(vi.fps_num as int) + ":"@ + decimal_text(vi.fps_den as int)
                + " Ip A0:0 "@ + spec_y4m_format_tag(vi.format) + "\n"@,
        ),
{
    let t0 = "YUV4MPEG2 W"@;
    let t1 = t0 + decimal_text(vi.width as int);
    let t2 = t1 + " H"@;
    let t3 = t2 + decimal_text(vi.height as int);
    let t4 = t3 + " F"@;
    let t5 = t4 + decimal_text(vi.fps_num as int);
    let t6 = t5 + ":"@;
    let t7 = t6 + decimal_text(vi.fps_den as int);
    let t8 = t7 + " Ip A0:0 "@;
    let t9 = t8 + spec_y4m_format_tag(vi.format);
    let t10 = t9 + "\n"@;
    lemma_decimal_text_utf8(vi.width as int);
    lemma_decimal_text_utf8(vi.height as int);
    lemma_decimal_text_utf8(vi.fps_num as int);
    lemma_decimal_text_utf8(vi.fps_den as int);
    lemma_utf8_append(t0, decimal_text(vi.width as int));
    lemma_utf8_append(t1, " H"@);
    lemma_utf8_append(t2, decimal_text(vi.height as int));
    lemma_utf8_append(t3, " F"@);
    lemma_utf8_append(t4, decimal_text(vi.fps_num as int));
    lemma_utf8_append(t5, ":"@);
    lemma_utf8_append(t6, decimal_text(vi.fps_den as int));
    lemma_utf8_append(t7, " Ip A0:0 "@);
    lemma_utf8_append(t8, spec_y4m_format_tag(vi.format));
    lemma_utf8_append(t9, "\n"@);
}

/// The bytes of the first `rows` rows of a plane: the first `width` samples
/// of each row, without the padding up to the stride.
pub open spec fn plane_rows(p: Plane, bytes_per_sample: int, rows: nat) -> Seq<u8>
    decreases rows,
{
    if rows == 0 {
        Seq::empty()
    } else {
        let start = row_pos(rows - 1, 0, p.stride as int);
        plane_rows(p, bytes_per_sample, (rows - 1) as nat) + p.data@.subrange(
            start,
            start + p.width * bytes_per_sample,
        )
    }
}

/// The bytes of the first `n` planes, one after the other, each row by row.
pub open spec fn planes_bytes(planes: Seq<Plane>, bytes_per_sample: int, n: nat) -> Seq<u8>
    decreases n,
{
    if n == 0 {
        Seq::empty()
    } else {
        planes_bytes(planes, bytes_per_sample, (n - 1) as nat) + plane_rows(
            planes[n - 1],
            bytes_per_sample,
            planes[n - 1].height as nat,
        )
    }
}

/// The raw bytes of a frame: every plane, row by row, without padding.
pub open spec fn raw_frame(f: Frame) -> Seq<u8> {
    planes_bytes(
        f.spec_planes(),
        f.spec_format().bytes_per_sample as int,
        f.spec_format().num_planes as nat,
    )
}

/// Why the writer refused a header or a frame.
#[derive(Debug, Clone, PartialEq, Eq)]
pub enum OutputError {
    /// A video clip was asked for with an audio container.
    AudioContainer,
    /// An audio clip was asked for with a video container.
    VideoContainer,
    /// A field of the audio format does not fit the container's header.
    AudioFormatTooLarge,
    /// The header was asked for with a container that is not known.
    UnsupportedContainer(String),
    /// A frame was asked for with a container that is not known.
    InvalidContainer,
}

impl OutputError {
    /// The message of the error.
    pub fn message(&self) -> (r: String)
        ensures
            r@ == self.spec_message(),
    {
        match self {
            OutputError::AudioContainer => "Audio containers not yet implemented".to_owned(),
            OutputError::VideoContainer => "The y4m container holds video, not audio".to_owned(),
            OutputError::AudioFormatTooLarge => "The audio format does not fit the container header".to_owned(),
            OutputError::UnsupportedContainer(c) => {
                let mut out: Vec<u8> = Vec::new();
                push_str(&mut out, "Unsupported container format: ");
                push_str(&mut out, c.as_str());
                proof {
                    lemma_utf8_append("Unsupported container format: "@, c@);
                }
                text_from_utf8(out, Ghost("Unsupported container format: "@ + c@))
            },
            OutputError::InvalidContainer => "Invalid container".to_owned(),
        }
    }

    /// The message of the error.
    pub open spec fn spec_message(&self) -> Seq<char> {
        match self {
            OutputError::AudioContainer => "Audio containers not yet implemented"@,
            OutputError::VideoContainer => "The y4m container holds video, not audio"@,
            OutputError::AudioFormatTooLarge => "The audio format does not fit the container header"@,
            OutputError::UnsupportedContainer(c) => "Unsupported container format: "@ + c@,
            OutputError::InvalidContainer => "Invalid container"@,
        }
    }
}

/// Appends the YUV4MPEG2 header line of a clip.
#[verifier::rlimit(30)]
fn push_y4m_header(out: &mut Vec<u8>, vi: &VideoInfo)
    ensures
        final(out)@ == old(out)@ + y4m_header(*vi),
{
    push_str(out, "YUV4MPEG2 W");
    push_decimal_i64(out, vi.width as i64);
    push_str(out, " H");
    push_decimal_i64(out, vi.height as i64);
    push_str(out, " F");
    push_decimal_i64(out, vi.fps_num);
    push_str(out, ":");
    push_decimal_i64(out, vi.fps_den);
    push_str(out, " Ip A0:0 ");
    push_str(out, y4m_format_tag(&vi.format));
    push_str(out, "\n");
}

/// The start of row `y` plus the row's sample bytes lie inside a plane.
proof fn lemma_row_in_plane(p: Plane, bps: int, y: int)
    requires
        p.wf(bps),
        0 <= y < p.height,
    ensures
        0 <= row_pos(y, 0, p.stride as int),
        row_pos(y, 0, p.stride as int) + p.width * bps <= p.data@.len(),
{
    assert(y * p.stride + p.stride <= p.height * p.stride) by (nonlinear_arith)
        requires
            0 <= y < p.height,
            p.stride >= 0,
    ;
    assert(0 <= y * p.stride) by (nonlinear_arith)
        requires
            0 <= y,
            p.stride >= 0,
    ;
    assert(p.data@.len() == p.stride * p.height);
    assert(p.stride * p.height == p.height * p.stride) by (nonlinear_arith);
}

/// Appends the raw bytes of a frame.
fn push_raw_frame(out: &mut Vec<u8>, frame: &Frame)
    requires
        frame.wf(),
    ensures
        final(out)@ == old(out)@ + raw_frame(*frame),
{
    proof {
        frame.lemma_wf_facts();
    }
    let format = frame.get_video_format().unwrap();
    let num_planes = format.num_planes;
    let bps = format.bytes_per_sample as usize;
    let ghost start = out@;
    let mut plane: i32 = 0;
    while plane < num_planes
        invariant
            frame.wf(),
            format == frame.spec_format(),
            num_planes == format.num_planes,
            bps == format.bytes_per_sample,
            1 <= num_planes <= 3,
            bps >= 1,
            frame.spec_planes().len() == num_planes,
            0 <= plane <= num_planes,
            out@ == start + planes_bytes(frame.spec_planes(), bps as int, plane as nat),
        decreases num_planes - plane,
    {
        proof {
            frame.lemma_wf_facts();
        }
        let data = frame.get_read_slice(plane);
        let stride = frame.get_stride(plane);
        let width = frame.get_width(plane) as usize;
        let height = frame.get_height(plane) as usize;
        let ghost p = frame.spec_planes()[plane as int];
        let ghost before = out@;
        assert(p.wf(bps as int));
        let dlen = data.len();
        let mut y: usize = 0;
        while y < height
            invariant
                p.wf(bps as int),
                dlen == data@.len(),
                data@ == p.data@,
                stride == p.stride,
                width == p.width,
                height == p.height,
                bps >= 1,
                0 <= y <= height,
                out@ == before + plane_rows(p, bps as int, y as nat),
            decreases height - y,
        {
            proof {
                lemma_row_in_plane(p, bps as int, y as int);
            }
            proof {
                assert(width * bps <= stride);
                assert(y * stride <= y * stride + width * bps);
            }
            let line_start = y * stride;
            let line_end = line_start + width * bps;
            let row = vstd::slice::slice_subrange(data, line_start, line_end);
            push_bytes(out, row);
            proof {
                assert(plane_rows(p, bps as int, (y + 1) as nat) == plane_rows(p, bps as int, y as nat)
                    + p.data@.subrange(line_start as int, line_end as int));
            }
            y = y + 1;
        }
        proof {
            assert(planes_bytes(frame.spec_planes(), bps as int, (plane + 1) as nat)
                == planes_bytes(frame.spec_planes(), bps as int, plane as nat) + plane_rows(p, bps as int, p.height as nat));
        }
        plane = plane + 1;
    }
}

/// A 16-bit number as two bytes, least significant first.
pub open spec fn le16(v: u16) -> Seq<u8> {
    seq![(v & 0xff) as u8, ((v >> 8u16) & 0xff) as u8]
}

/// A 32-bit number as four bytes, least significant first.
pub open spec fn le32(v: u32) -> Seq<u8> {
    seq![
        (v & 0xff) as u8,
        ((v >> 8u32) & 0xff) as u8,
        ((v >> 16u32) & 0xff) as u8,
        ((v >> 24u32) & 0xff) as u8,
    ]
}

/// A 64-bit number as eight bytes, least significant first.
pub open spec fn le64(v: u64) -> Seq<u8> {
    le32((v & 0xffff_ffff) as u32) + le32((v >> 32u64) as u32)
}

/// The number that little-endian bytes spell: the first byte the least significant.
pub open spec fn le_value(b: Seq<u8>) -> int
    decreases b.len(),
{
    if b.len() == 0 {
        0
    } else {
        b[0] + 256 * le_value(b.drop_first())
    }
}

/// `256` to the power `n`.
pub open spec fn pow256(n: nat) -> int
    decreases n,
{
    if n == 0 {
        1
    } else {
        256 * pow256((n - 1) as nat)
    }
}

/// The bytes of `a` then `b` spell the number of `a` plus that of `b`
/// shifted past the bytes of `a`.
proof fn lemma_le_value_append(a: Seq<u8>, b: Seq<u8>)
    ensures
        le_value(a + b) == le_value(a) + pow256(a.len()) * le_value(b),
    decreases a.len(),
{
    if a.len() == 0 {
        assert(a + b =~= b);
    } else {
        lemma_le_value_append(a.drop_first(), b);
        assert((a + b).drop_first() =~= a.drop_first() + b);
        let x = le_value(a.drop_first());
        let p = pow256((a.len() - 1) as nat);
        let y = le_value(b);
        assert(256 * (x + p * y) == 256 * x + (256 * p) * y) by (nonlinear_arith);
    }
}

/// Four bytes spell the number they hold in base 256, least significant first.
proof fn lemma_le_value_four(x0: u8, x1: u8, x2: u8, x3: u8)
    ensures
        le_value(seq![x0, x1, x2, x3]) == x0 + 256 * x1 + 65536 * x2 + 16777216 * x3,
{
    let s = seq![x0, x1, x2, x3];
    assert(s.drop_first() =~= seq![x1, x2, x3]);
    assert(seq![x1, x2, x3].drop_first() =~= seq![x2, x3]);
    assert(seq![x2, x3].drop_first() =~= seq![x3]);
    assert(seq![x3].drop_first() =~= Seq::<u8>::empty());
    assert(le_value(Seq::<u8>::empty()) == 0);
    assert(le_value(seq![x3]) == x3);
    assert(le_value(seq![x2, x3]) == x2 + 256 * x3);
    assert(le_value(seq![x1, x2, x3]) == x1 + 256 * (x2 + 256 * x3));
}

/// The 16-, 32- and 64-bit fields of the wave headers are two, four and
/// eight bytes that spell the number least significant byte first.
pub proof fn lemma_le_fields_spell(a: u16, b: u32, c: u64)
    ensures
        le16(a).len() == 2 && le_value(le16(a)) == a,
        le32(b).len() == 4 && le_value(le32(b)) == b,
        le64(c).len() == 8 && le_value(le64(c)) == c,
{
    let a0 = (a & 0xff) as u8;
    let a1 = ((a >> 8u16) & 0xff) as u8;
    assert(a0 + 256 * a1 == a) by (bit_vector)
        requires
            a0 == (a & 0xff) as u8,
            a1 == ((a >> 8u16) & 0xff) as u8,
    ;
    assert(le16(a).drop_first() =~= seq![a1]);
    assert(seq![a1].drop_first() =~= Seq::<u8>::empty());
    assert(le_value(Seq::<u8>::empty()) == 0);
    assert(le_value(seq![a1]) == a1);
    lemma_le32_spells(b);
    let lo = (c & 0xffff_ffff) as u32;
    let hi = (c >> 32u64) as u32;
    assert(lo + 0x1_0000_0000 * hi == c) by (bit_vector)
        requires
            lo == (c & 0xffff_ffff) as u32,
            hi == (c >> 32u64) as u32,
    ;
    lemma_le32_spells(lo);
    lemma_le32_spells(hi);
    lemma_le_value_append(le32(lo), le32(hi));
    reveal_with_fuel(pow256, 5);
}

/// Four bytes of a 32-bit field spell its number.
proof fn lemma_le32_spells(b: u32)
    ensures
        le32(b).len() == 4 && le_value(le32(b)) == b,
{
    let b0 = (b & 0xff) as u8;
    let b1 = ((b >> 8u32) & 0xff) as u8;
    let b2 = ((b >> 16u32) & 0xff) as u8;
    let b3 = ((b >> 24u32) & 0xff) as u8;
    assert(b0 + 256 * b1 + 65536 * b2 + 16777216 * b3 == b) by (bit_vector)
        requires
            b0 == (b & 0xff) as u8,
            b1 == ((b >> 8u32) & 0xff) as u8,
            b2 == ((b >> 16u32) & 0xff) as u8,
            b3 == ((b >> 24u32) & 0xff) as u8,
    ;
    lemma_le_value_four(b0, b1, b2, b3);
    assert(le32(b) =~= seq![b0, b1, b2, b3]);
}

/// The last twelve bytes of the sub-format identifiers of PCM and IEEE float
/// samples (`0000000x-0000-0010-8000-00AA00389B71`).
pub open spec fn subformat_tail() -> Seq<u8> {
    seq![0x00u8, 0x00u8, 0x10u8, 0x00u8, 0x80u8, 0x00u8, 0x00u8, 0xaau8, 0x00u8, 0x38u8, 0x9bu8, 0x71u8]
}

/// The last twelve bytes of the Wave64 `riff` identifier.
pub open spec fn w64_riff_tail() -> Seq<u8> {
    seq![0x2eu8, 0x91u8, 0xcfu8, 0x11u8, 0xa5u8, 0xd6u8, 0x28u8, 0xdbu8, 0x04u8, 0xc1u8, 0x00u8, 0x00u8]
}

/// The last twelve bytes of the Wave64 `wave`, `fmt ` and `data` identifiers.
pub open spec fn w64_chunk_tail() -> Seq<u8> {
    seq![0xf3u8, 0xacu8, 0xd3u8, 0x11u8, 0x8cu8, 0xd1u8, 0x00u8, 0xc0u8, 0x4fu8, 0x8eu8, 0xdbu8, 0x8au8]
}

/// The bytes of an audio frame: one sample of every channel.
pub open spec fn block_align(ai: AudioInfo) -> int {
    ai.format.num_channels * ai.format.bytes_per_sample
}

/// The bytes of all samples of an audio clip.
pub open spec fn audio_data_size(ai: AudioInfo) -> int {
    ai.num_samples * block_align(ai)
}

/// The fields of the format fit the 16- and 32-bit fields of a wave header.
pub open spec fn audio_fits_header(ai: AudioInfo) -> bool {
    &&& 0 <= ai.format.num_channels <= 0xffff
    &&& 0 <= ai.format.bytes_per_sample
    &&& block_align(ai) <= 0xffff
    &&& ai.format.bytes_per_sample * 8 <= 0xffff
    &&& 0 <= ai.format.bits_per_sample <= 0xffff
    &&& 0 <= ai.sample_rate
    &&& ai.sample_rate * block_align(ai) <= 0xffff_ffff
    &&& 0 <= ai.num_samples
}

/// `x`, or the largest number of the given bound when `x` is larger.
pub open spec fn saturate(x: int, max: int) -> int {
    if x > max {
        max
    } else {
        x
    }
}

/// The `WAVE_FORMAT_EXTENSIBLE` record of an audio format: 40 bytes with the
/// channel count, sample rate, byte rate, block size, container and valid
/// bits per sample, the channel mask (the lowest 32 bits of the layout) and
/// the PCM or IEEE float sub-format.
pub open spec fn wave_format(ai: AudioInfo) -> Seq<u8> {
    le16(0xfffe) + le16(ai.format.num_channels as u16) + le32(ai.sample_rate as u32) + le32(
        (ai.sample_rate * block_align(ai)) as u32,
    ) + le16(block_align(ai) as u16) + le16((ai.format.bytes_per_sample * 8) as u16) + le16(22)
        + le16(ai.format.bits_per_sample as u16) + le32(
        (ai.format.channel_layout@ & 0xffff_ffff) as u32,
    ) + le32(
        if ai.format.sample_type == SampleType::Float {
            3
        } else {
            1
        },
    ) + subformat_tail()
}

/// The format record of an audio format that fits a wave header holds, at
/// its fixed places, the numbers of the format, each least significant byte
/// first: the format tag `0xfffe` (bytes 0 and 1), the channel count (2, 3),
/// the sample rate (4 to 7), the bytes per second, rate times block size (8
/// to 11), the block size, channels times bytes per sample (12, 13), the bits
/// of the sample container, eight per byte (14, 15), the 22 bytes of the
/// extension (16, 17), the valid bits per sample (18, 19), the channel mask,
/// the lowest 32 bits of the layout (20 to 23), and the sub-format code, 3
/// for float and 1 for integer samples (24 to 27); 40 bytes in all.
pub proof fn lemma_wave_format_fields(ai: AudioInfo)
    requires
        audio_fits_header(ai),
    ensures
        ({
            let w = wave_format(ai);
            &&& w.len() == 40
            &&& le_value(w.subrange(0, 2)) == 0xfffe
            &&& le_value(w.subrange(2, 4)) == ai.format.num_channels
            &&& le_value(w.subrange(4, 8)) == ai.sample_rate
            &&& le_value(w.subrange(8, 12)) == ai.sample_rate * ai.format.num_channels
                * ai.format.bytes_per_sample
            &&& le_value(w.subrange(12, 14)) == ai.format.num_channels * ai.format.bytes_per_sample
            &&& le_value(w.subrange(14, 16)) == 8 * ai.format.bytes_per_sample
            &&& le_value(w.subrange(16, 18)) == 22
            &&& le_value(w.subrange(18, 20)) == ai.format.bits_per_sample
            &&& le_value(w.subrange(20, 24)) == ai.format.channel_layout@ % 0x1_0000_0000
            &&& le_value(w.subrange(24, 28)) == if ai.format.sample_type == SampleType::Float {
                3int
            } else {
                1int
            }
        }),
{
    let ch = ai.format.num_channels;
    let bps = ai.format.bytes_per_sample;
    let align = block_align(ai);
    let w = wave_format(ai);
    let l0 = le16(0xfffe);
    let l1 = le16(ch as u16);
    let l2 = le32(ai.sample_rate as u32);
    let l3 = le32((ai.sample_rate * align) as u32);
    let l4 = le16(align as u16);
    let l5 = le16((bps * 8) as u16);
    let l6 = le16(22);
    let l7 = le16(ai.format.bits_per_sample as u16);
    let l8 = le32((ai.format.channel_layout@ & 0xffff_ffff) as u32);
    let code: u32 = if ai.format.sample_type == SampleType::Float { 3 } else { 1 };
    let l9 = le32(code);
    assert(w.subrange(0, 2) =~= l0);
    assert(w.subrange(2, 4) =~= l1);
    assert(w.subrange(4, 8) =~= l2);
    assert(w.subrange(8, 12) =~= l3);
    assert(w.subrange(12, 14) =~= l4);
    assert(w.subrange(14, 16) =~= l5);
    assert(w.subrange(16, 18) =~= l6);
    assert(w.subrange(18, 20) =~= l7);
    assert(w.subrange(20, 24) =~= l8);
    assert(w.subrange(24, 28) =~= l9);
    lemma_le_fields_spell(0xfffe, 0, 0);
    lemma_le_fields_spell(ch as u16, ai.sample_rate as u32, 0);
    lemma_le_fields_spell(align as u16, (ai.sample_rate * align) as u32, 0);
    lemma_le_fields_spell((bps * 8) as u16, (ai.format.channel_layout@ & 0xffff_ffff) as u32, 0);
    lemma_le_fields_spell(22, code, 0);
    lemma_le_fields_spell(ai.format.bits_per_sample as u16, 0, 0);
    let m = ai.format.channel_layout@;
    assert((m & 0xffff_ffff) as u32 == m % 0x1_0000_0000) by (bit_vector);
    assert(ai.sample_rate * align == ai.sample_rate * ch * bps) by (nonlinear_arith)
        requires
            align == ch * bps,
    ;
    assert(bps * 8 == 8 * bps);
}

/// The RIFF WAVE header of an audio clip: `RIFF`, the size of the rest of the
/// file, `WAVE`, the format chunk and the head of the data chunk. Sizes above
/// 32 bits are written as the largest 32-bit number.
pub open spec fn wav_header(ai: AudioInfo) -> Seq<u8> {
    utf8("RIFF"@) + le32(saturate(60 + audio_data_size(ai), 0xffff_ffff) as u32) + utf8("WAVE"@)
        + utf8("fmt "@) + le32(40) + wave_format(ai) + utf8("data"@) + le32(
        saturate(audio_data_size(ai), 0xffff_ffff) as u32,
    )
}

/// Four ASCII characters encode to their four codes.
proof fn lemma_utf8_ascii4(a: char, b: char, c: char, d: char)
    requires
        (a as u32) <= 0x7F,
        (b as u32) <= 0x7F,
        (c as u32) <= 0x7F,
        (d as u32) <= 0x7F,
    ensures
        utf8(seq![a, b, c, d]) == seq![(a as u32) as u8, (b as u32) as u8, (c as u32) as u8, (d as u32) as u8],
{
    lemma_ascii_utf8(a);
    lemma_ascii_utf8(b);
    lemma_ascii_utf8(c);
    lemma_ascii_utf8(d);
    assert(seq![a, b, c, d] =~= seq![a] + seq![b] + seq![c] + seq![d]);
    lemma_utf8_append(seq![a], seq![b]);
    lemma_utf8_append(seq![a] + seq![b], seq![c]);
    lemma_utf8_append(seq![a] + seq![b] + seq![c], seq![d]);
    assert(utf8(seq![a, b, c, d]) =~= seq![(a as u32) as u8, (b as u32) as u8, (c as u32) as u8, (d as u32) as u8]);
}

/// The RIFF WAVE header of an audio format that fits it holds, at its fixed
/// places: `RIFF` (bytes 0 to 3), the size of the rest of the file, 60
/// header bytes after this field plus the sample data, capped at the 32-bit
/// maximum (4 to 7), `WAVE` (8 to 11), `fmt ` (12 to 15), the 40 bytes of the
/// format record (16 to 19) and the record (20 to 59), `data` (60 to 63) and
/// the size of the sample data, samples times channels times bytes per
/// sample, capped the same way (64 to 67); 68 bytes in all.
pub proof fn lemma_wav_header_fields(ai: AudioInfo)
    requires
        audio_fits_header(ai),
    ensures
        ({
            let h = wav_header(ai);
            let data = ai.num_samples * ai.format.num_channels * ai.format.bytes_per_sample;
            &&& h.len() == 68
            &&& h.subrange(0, 4) == seq![0x52u8, 0x49u8, 0x46u8, 0x46u8]
            &&& le_value(h.subrange(4, 8)) == if 60 + data > 0xffff_ffff {
                0xffff_ffff
            } else {
                60 + data
            }
            &&& h.subrange(8, 12) == seq![0x57u8, 0x41u8, 0x56u8, 0x45u8]
            &&& h.subrange(12, 16) == seq![0x66u8, 0x6du8, 0x74u8, 0x20u8]
            &&& le_value(h.subrange(16, 20)) == 40
            &&& h.subrange(20, 60) == wave_format(ai)
            &&& h.subrange(60, 64) == seq![0x64u8, 0x61u8, 0x74u8, 0x61u8]
            &&& le_value(h.subrange(64, 68)) == if data > 0xffff_ffff {
                0xffff_ffff
            } else {
                data
            }
        }),
{
    reveal_strlit("RIFF");
    reveal_strlit("WAVE");
    reveal_strlit("fmt ");
    reveal_strlit("data");
    lemma_utf8_ascii4('R', 'I', 'F', 'F');
    lemma_utf8_ascii4('W', 'A', 'V', 'E');
    lemma_utf8_ascii4('f', 'm', 't', ' ');
    lemma_utf8_ascii4('d', 'a', 't', 'a');
    assert("RIFF"@ =~= seq!['R', 'I', 'F', 'F']);
    assert("WAVE"@ =~= seq!['W', 'A', 'V', 'E']);
    assert("fmt "@ =~= seq!['f', 'm', 't', ' ']);
    assert("data"@ =~= seq!['d', 'a', 't', 'a']);
    let data = audio_data_size(ai);
    assert(data == ai.num_samples * ai.format.num_channels * ai.format.bytes_per_sample) by (nonlinear_arith)
        requires
            data == ai.num_samples * (ai.format.num_channels * ai.format.bytes_per_sample),
    ;
    let riff = saturate(60 + data, 0xffff_ffff) as u32;
    let size = saturate(data, 0xffff_ffff) as u32;
    lemma_wave_format_fields(ai);
    lemma_le_fields_spell(0, riff, 0);
    lemma_le_fields_spell(0, size, 0);
    lemma_le_fields_spell(0, 40, 0);
    let h = wav_header(ai);
    assert(h.subrange(0, 4) =~= utf8("RIFF"@));
    assert(h.subrange(4, 8) =~= le32(riff));
    assert(h.subrange(8, 12) =~= utf8("WAVE"@));
    assert(h.subrange(12, 16) =~= utf8("fmt "@));
    assert(h.subrange(16, 20) =~= le32(40));
    assert(h.subrange(20, 60) =~= wave_format(ai));
    assert(h.subrange(60, 64) =~= utf8("data"@));
    assert(h.subrange(64, 68) =~= le32(size));
}

/// The Sony Wave64 header of an audio clip: the `riff` chunk with the size
/// of the whole file, the `wave` identifier, the format chunk and the head
/// of the data chunk, each chunk size counting its 24-byte head. Sizes above
/// 64 bits are written as the largest 64-bit number.
pub open spec fn w64_header(ai: AudioInfo) -> Seq<u8> {
    utf8("riff"@) + w64_riff_tail() + le64(saturate(128 + audio_data_size(ai), 0xffff_ffff_ffff_ffff) as u64)
        + utf8("wave"@) + w64_chunk_tail() + utf8("fmt "@) + w64_chunk_tail() + le64(64)
        + wave_format(ai) + utf8("data"@) + w64_chunk_tail() + le64(
        saturate(24 + audio_data_size(ai), 0xffff_ffff_ffff_ffff) as u64,
    )
}

/// The Sony Wave64 header of an audio format that fits it holds, at its
/// fixed places: the `riff` GUID (bytes 0 to 15), the size of the whole
/// file, the 128 header bytes plus the sample data, capped at the 64-bit
/// maximum (16 to 23), the `wave` GUID (24 to 39), the `fmt ` GUID (40 to
/// 55), the size of the format chunk with its 24-byte head (56 to 63), the
/// format record (64 to 103), the `data` GUID (104 to 119) and the size of
/// the data chunk, its 24-byte head plus the sample data, capped the same
/// way (120 to 127); 128 bytes in all.
pub proof fn lemma_w64_header_fields(ai: AudioInfo)
    requires
        audio_fits_header(ai),
    ensures
        ({
            let h = w64_header(ai);
            let data = ai.num_samples * ai.format.num_channels * ai.format.bytes_per_sample;
            &&& h.len() == 128
            &&& h.subrange(0, 16) == seq![0x72u8, 0x69u8, 0x66u8, 0x66u8, 0x2eu8, 0x91u8, 0xcfu8, 0x11u8, 0xa5u8, 0xd6u8, 0x28u8, 0xdbu8, 0x04u8, 0xc1u8, 0x00u8, 0x00u8]
            &&& le_value(h.subrange(16, 24)) == if 128 + data > 0xffff_ffff_ffff_ffff {
                0xffff_ffff_ffff_ffff
            } else {
                128 + data
            }
            &&& h.subrange(24, 40) == seq![0x77u8, 0x61u8, 0x76u8, 0x65u8, 0xf3u8, 0xacu8, 0xd3u8, 0x11u8, 0x8cu8, 0xd1u8, 0x00u8, 0xc0u8, 0x4fu8, 0x8eu8, 0xdbu8, 0x8au8]
            &&& h.subrange(40, 56) == seq![0x66u8, 0x6du8, 0x74u8, 0x20u8, 0xf3u8, 0xacu8, 0xd3u8, 0x11u8, 0x8cu8, 0xd1u8, 0x00u8, 0xc0u8, 0x4fu8, 0x8eu8, 0xdbu8, 0x8au8]
            &&& le_value(h.subrange(56, 64)) == 64
            &&& h.subrange(64, 104) == wave_format(ai)
            &&& h.subrange(104, 120) == seq![0x64u8, 0x61u8, 0x74u8, 0x61u8, 0xf3u8, 0xacu8, 0xd3u8, 0x11u8, 0x8cu8, 0xd1u8, 0x00u8, 0xc0u8, 0x4fu8, 0x8eu8, 0xdbu8, 0x8au8]
            &&& le_value(h.subrange(120, 128)) == if 24 + data > 0xffff_ffff_ffff_ffff {
                0xffff_ffff_ffff_ffff
            } else {
                24 + data
            }
        }),
{
    reveal_strlit("riff");
    reveal_strlit("wave");
    reveal_strlit("fmt ");
    reveal_strlit("data");
    lemma_utf8_ascii4('r', 'i', 'f', 'f');
    lemma_utf8_ascii4('w', 'a', 'v', 'e');
    lemma_utf8_ascii4('f', 'm', 't', ' ');
    lemma_utf8_ascii4('d', 'a', 't', 'a');
    assert("riff"@ =~= seq!['r', 'i', 'f', 'f']);
    assert("wave"@ =~= seq!['w', 'a', 'v', 'e']);
    assert("fmt "@ =~= seq!['f', 'm', 't', ' ']);
    assert("data"@ =~= seq!['d', 'a', 't', 'a']);
    let data = audio_data_size(ai);
    assert(data == ai.num_samples * ai.format.num_channels * ai.format.bytes_per_sample) by (nonlinear_arith)
        requires
            data == ai.num_samples * (ai.format.num_channels * ai.format.bytes_per_sample),
    ;
    let riff = saturate(128 + data, 0xffff_ffff_ffff_ffff) as u64;
    let size = saturate(24 + data, 0xffff_ffff_ffff_ffff) as u64;
    lemma_wave_format_fields(ai);
    lemma_le_fields_spell(0, 0, riff);
    lemma_le_fields_spell(0, 0, size);
    lemma_le_fields_spell(0, 0, 64);
    let h = w64_header(ai);
    assert(h.subrange(0, 16) =~= utf8("riff"@) + w64_riff_tail());
    assert(h.subrange(16, 24) =~= le64(riff));
    assert(h.subrange(24, 40) =~= utf8("wave"@) + w64_chunk_tail());
    assert(h.subrange(40, 56) =~= utf8("fmt "@) + w64_chunk_tail());
    assert(h.subrange(56, 64) =~= le64(64));
    assert(h.subrange(64, 104) =~= wave_format(ai));
    assert(h.subrange(104, 120) =~= utf8("data"@) + w64_chunk_tail());
    assert(h.subrange(120, 128) =~= le64(size));
}

fn push_le16(out: &mut Vec<u8>, v: u16)
    ensures
        final(out)@ == old(out)@ + le16(v),
{
    out.push((v & 0xff) as u8);
    out.push(((v >> 8u16) & 0xff) as u8);
}

fn push_le32(out: &mut Vec<u8>, v: u32)
    ensures
        final(out)@ == old(out)@ + le32(v),
{
    out.push((v & 0xff) as u8);
    out.push(((v >> 8u32) & 0xff) as u8);
    out.push(((v >> 16u32) & 0xff) as u8);
    out.push(((v >> 24u32) & 0xff) as u8);
}

fn push_le64(out: &mut Vec<u8>, v: u64)
    ensures
        final(out)@ == old(out)@ + le64(v),
{
    push_le32(out, (v & 0xffff_ffff) as u32);
    push_le32(out, (v >> 32u64) as u32);
}

fn push_subformat_tail(out: &mut Vec<u8>)
    ensures
        final(out)@ == old(out)@ + subformat_tail(),
{
    out.push(0x00u8);
    out.push(0x00u8);
    out.push(0x10u8);
    out.push(0x00u8);
    out.push(0x80u8);
    out.push(0x00u8);
    out.push(0x00u8);
    out.push(0xaau8);
    out.push(0x00u8);
    out.push(0x38u8);
    out.push(0x9bu8);
    out.push(0x71u8);
}

fn push_w64_riff_tail(out: &mut Vec<u8>)
    ensures
        final(out)@ == old(out)@ + w64_riff_tail(),
{
    out.push(0x2eu8);
    out.push(0x91u8);
    out.push(0xcfu8);
    out.push(0x11u8);
    out.push(0xa5u8);
    out.push(0xd6u8);
    out.push(0x28u8);
    out.push(0xdbu8);
    out.push(0x04u8);
    out.push(0xc1u8);
    out.push(0x00u8);
    out.push(0x00u8);
}

fn push_w64_chunk_tail(out: &mut Vec<u8>)
    ensures
        final(out)@ == old(out)@ + w64_chunk_tail(),
{
    out.push(0xf3u8);
    out.push(0xacu8);
    out.push(0xd3u8);
    out.push(0x11u8);
    out.push(0x8cu8);
    out.push(0xd1u8);
    out.push(0x00u8);
    out.push(0xc0u8);
    out.push(0x4fu8);
    out.push(0x8eu8);
    out.push(0xdbu8);
    out.push(0x8au8);
}

/// Whether the audio format fits the fields of a wave header.
fn audio_fits(ai: &AudioInfo) -> (r: bool)
    ensures
        r == audio_fits_header(*ai),
{
    let ch = ai.format.num_channels;
    let bps = ai.format.bytes_per_sample;
    if ch < 0 || ch > 0xffff || bps < 0 || ai.format.bits_per_sample < 0
        || ai.format.bits_per_sample > 0xffff || ai.sample_rate < 0 || ai.num_samples < 0 {
        return false;
    }
    assert((ch as int) * (bps as int) <= 0xffff * 0x7fff_ffff) by (nonlinear_arith)
        requires
            0 <= ch <= 0xffff,
            0 <= bps <= 0x7fff_ffff,
    ;
    let align = (ch as u64) * (bps as u64);
    if align > 0xffff || (bps as u64) * 8 > 0xffff {
        return false;
    }
    let rate = ai.sample_rate as u64;
    assert((rate as int) * (align as int) <= 0x7fff_ffff * 0xffff) by (nonlinear_arith)
        requires
            0 <= rate <= 0x7fff_ffff,
            0 <= align <= 0xffff,
    ;
    rate * align <= 0xffff_ffff
}

/// Appends the format record of an audio format that fits a wave header.
fn push_wave_format(out: &mut Vec<u8>, ai: &AudioInfo)
    requires
        audio_fits_header(*ai),
    ensures
        final(out)@ == old(out)@ + wave_format(*ai),
{
    let align = (ai.format.num_channels as u64) * (ai.format.bytes_per_sample as u64);
    push_le16(out, 0xfffe);
    push_le16(out, ai.format.num_channels as u16);
    push_le32(out, ai.sample_rate as u32);
    push_le32(out, ((ai.sample_rate as u64) * align) as u32);
    push_le16(out, align as u16);
    push_le16(out, ((ai.format.bytes_per_sample as u64) * 8) as u16);
    push_le16(out, 22);
    push_le16(out, ai.format.bits_per_sample as u16);
    push_le32(out, (ai.format.channel_layout.bits() & 0xffff_ffff) as u32);
    let code: u32 = match ai.format.sample_type {
        SampleType::Float => 3,
        SampleType::Integer => 1,
    };
    push_le32(out, code);
    push_subformat_tail(out);
}

/// The bytes of all samples of an audio clip that fits a wave header.
fn data_size(ai: &AudioInfo) -> (r: u128)
    requires
        audio_fits_header(*ai),
    ensures
        r == audio_data_size(*ai),
        r <= 0x8000_0000_0000_0000u128 * 0xffffu128,
{
    let align = (ai.format.num_channels as u128) * (ai.format.bytes_per_sample as u128);
    assert((ai.num_samples as u128) * align <= 0x8000_0000_0000_0000u128 * 0xffffu128) by (nonlinear_arith)
        requires
            0 <= ai.num_samples < 0x8000_0000_0000_0000,
            0 <= align <= 0xffff,
    ;
    (ai.num_samples as u128) * align
}

fn saturate_u32(x: u128) -> (r: u32)
    ensures
        r == saturate(x as int, 0xffff_ffff),
{
    if x > 0xffff_ffff {
        0xffff_ffff
    } else {
        x as u32
    }
}

fn saturate_u64(x: u128) -> (r: u64)
    ensures
        r == saturate(x as int, 0xffff_ffff_ffff_ffff),
{
    if x > 0xffff_ffff_ffff_ffff {
        0xffff_ffff_ffff_ffff
    } else {
        x as u64
    }
}

/// Appends the RIFF WAVE header of an audio clip that fits it.
#[verifier::rlimit(50)]
fn push_wav_header(out: &mut Vec<u8>, ai: &AudioInfo)
    requires
        audio_fits_header(*ai),
    ensures
        final(out)@ == old(out)@ + wav_header(*ai),
{
    let data = data_size(ai);
    push_str(out, "RIFF");
    push_le32(out, saturate_u32(60 + data));
    push_str(out, "WAVE");
    push_str(out, "fmt ");
    push_le32(out, 40);
    push_wave_format(out, ai);
    push_str(out, "data");
    push_le32(out, saturate_u32(data));
}

/// Appends the Sony Wave64 header of an audio clip that fits it.
#[verifier::rlimit(50)]
fn push_w64_header(out: &mut Vec<u8>, ai: &AudioInfo)
    requires
        audio_fits_header(*ai),
    ensures
        final(out)@ == old(out)@ + w64_header(*ai),
{
    let data = data_size(ai);
    push_str(out, "riff");
    push_w64_riff_tail(out);
    push_le64(out, saturate_u64(128 + data));
    push_str(out, "wave");
    push_w64_chunk_tail(out);
    push_str(out, "fmt ");
    push_w64_chunk_tail(out);
    push_le64(out, 64);
    push_wave_format(out, ai);
    push_str(out, "data");
    push_w64_chunk_tail(out);
    push_le64(out, saturate_u64(24 + data));
}

/// What the writer does with a container name: nothing is added for no
/// container, YUV4MPEG2 framing for `y4m` (video), a RIFF WAVE header for
/// `wav` and a Sony Wave64 header for `w64` (audio); any other name is refused.
pub enum Container {
    Raw,
    Y4m,
    Wav,
    W64,
    Unknown,
}

/// The kind of container a name stands for.
pub open spec fn container_kind(c: Option<Seq<char>>) -> Container {
    match c {
        None => Container::Raw,
        Some(s) => if s == "y4m"@ {
            Container::Y4m
        } else if s == "wav"@ {
            Container::Wav
        } else if s == "w64"@ {
            Container::W64
        } else {
            Container::Unknown
        },
    }
}

/// Encodes a clip for output: the container header, then each frame, each
/// framed for the container. The encoded bytes collect in the writer until
/// the caller takes them.
#[derive(Debug)]
pub struct OutputWriter {
    container_format: Option<String>,
    wrote_header: bool,
    output: Vec<u8>,
}

impl OutputWriter {
    /// The name of the container the writer frames its output for.
    pub closed spec fn container(&self) -> Option<Seq<char>> {
        match self.container_format {
            Some(c) => Some(c@),
            None => None,
        }
    }

    /// Whether a header has been written.
    pub closed spec fn header_written(&self) -> bool {
        self.wrote_header
    }

    /// The bytes encoded and not yet taken.
    pub closed spec fn pending(&self) -> Seq<u8> {
        self.output@
    }

    /// A writer for the given container, or for bare frames when there is none.
    pub fn new(container: Option<&String>) -> (w: OutputWriter)
        ensures
            w.container() == match container {
                Some(c) => Some(c@),
                None => None::<Seq<char>>,
            },
            !w.header_written(),
            w.pending() == Seq::<u8>::empty(),
    {
        let container_format = match container {
            Some(c) => Some(c.clone()),
            None => None,
        };
        OutputWriter { container_format, wrote_header: false, output: Vec::new() }
    }

    /// The kind of the writer's container.
    fn kind(&self) -> (r: Container)
        ensures
            r == container_kind(self.container()),
    {
        match &self.container_format {
            None => Container::Raw,
            Some(c) => if str_eq(c.as_str(), "y4m") {
                Container::Y4m
            } else if str_eq(c.as_str(), "wav") {
                Container::Wav
            } else if str_eq(c.as_str(), "w64") {
                Container::W64
            } else {
                Container::Unknown
            },
        }
    }

    /// Writes the container header for a video clip: the YUV4MPEG2 header
    /// line for `y4m`, nothing without a container. The audio containers
    /// cannot hold a video clip and unknown names are refused; then nothing
    /// changes.
    pub fn write_header(&mut self, video_info: &VideoInfo) -> (r: Result<(), OutputError>)
        ensures
            final(self).container() == old(self).container(),
            match container_kind(old(self).container()) {
                Container::Raw => r is Ok && final(self).header_written() && final(self).pending()
                    == old(self).pending(),
                Container::Y4m => r is Ok && final(self).header_written() && final(self).pending()
                    == old(self).pending() + y4m_header(*video_info),
                Container::Wav | Container::W64 => r == Err::<(), OutputError>(OutputError::AudioContainer)
                    && final(self).header_written() == old(self).header_written() && final(self).pending() == old(self).pending(),
                Container::Unknown => r matches Err(OutputError::UnsupportedContainer(c)) && Some(c@) == old(self).container() && final(self).header_written() == old(self).header_written() && final(self).pending() == old(self).pending(),
            },
    {
        match self.kind() {
            Container::Raw => {},
            Container::Y4m => push_y4m_header(&mut self.output, video_info),
            Container::Wav | Container::W64 => return Err(OutputError::AudioContainer),
            Container::Unknown => {
                let name = match &self.container_format {
                    Some(c) => c.clone(),
                    None => String::new(),
                };
                return Err(OutputError::UnsupportedContainer(name));
            },
        }
        self.wrote_header = true;
        Ok(())
    }

    /// Writes the container header for an audio clip: a RIFF WAVE header for
    /// `wav`, a Sony Wave64 header for `w64`, nothing without a container. A
    /// format whose fields do not fit the header, the video container `y4m`
    /// and unknown names are refused; then nothing changes.
    pub fn write_audio_header(&mut self, audio_info: &AudioInfo) -> (r: Result<(), OutputError>)
        ensures
            final(self).container() == old(self).container(),
            match container_kind(old(self).container()) {
                Container::Raw => r is Ok && final(self).header_written() && final(self).pending()
                    == old(self).pending(),
                Container::Wav => if audio_fits_header(*audio_info) {
                    r is Ok && final(self).header_written() && final(self).pending()
                        == old(self).pending() + wav_header(*audio_info)
                } else {
                    r == Err::<(), OutputError>(OutputError::AudioFormatTooLarge)
                        && final(self).header_written() == old(self).header_written()
                        && final(self).pending() == old(self).pending()
                },
                Container::W64 => if audio_fits_header(*audio_info) {
                    r is Ok && final(self).header_written() && final(self).pending()
                        == old(self).pending() + w64_header(*audio_info)
                } else {
                    r == Err::<(), OutputError>(OutputError::AudioFormatTooLarge)
                        && final(self).header_written() == old(self).header_written()
                        && final(self).pending() == old(self).pending()
                },
                Container::Y4m => r == Err::<(), OutputError>(OutputError::VideoContainer)
                    && final(self).header_written() == old(self).header_written()
                    && final(self).pending() == old(self).pending(),
                Container::Unknown => r matches Err(OutputError::UnsupportedContainer(c)) && Some(c@)
                    == old(self).container() && final(self).header_written() == old(self).header_written()
                    && final(self).pending() == old(self).pending(),
            },
    {
        match self.kind() {
            Container::Raw => {},
            Container::Wav => {
                if !audio_fits(audio_info) {
                    return Err(OutputError::AudioFormatTooLarge);
                }
                push_wav_header(&mut self.output, audio_info);
            },
            Container::W64 => {
                if !audio_fits(audio_info) {
                    return Err(OutputError::AudioFormatTooLarge);
                }
                push_w64_header(&mut self.output, audio_info);
            },
            Container::Y4m => return Err(OutputError::VideoContainer),
            Container::Unknown => {
                let name = match &self.container_format {
                    Some(c) => c.clone(),
                    None => String::new(),
                };
                return Err(OutputError::UnsupportedContainer(name));
            },
        }
        self.wrote_header = true;
        Ok(())
    }

    /// Writes one video frame: its raw planes, after a `FRAME` line for
    /// `y4m`. The audio containers cannot hold video frames and unknown names
    /// are refused; then nothing changes.
    pub fn write_frame(&mut self, frame: &Frame) -> (r: Result<(), OutputError>)
        requires
            frame.wf(),
        ensures
            final(self).container() == old(self).container(),
            final(self).header_written() == old(self).header_written(),
            match container_kind(old(self).container()) {
                Container::Raw => r is Ok && final(self).pending() == old(self).pending()
                    + raw_frame(*frame),
                Container::Y4m => r is Ok && final(self).pending() == old(self).pending() + utf8("FRAME\n"@) + raw_frame(*frame),
                Container::Wav | Container::W64 => r == Err::<(), OutputError>(OutputError::AudioContainer)
                    && final(self).pending() == old(self).pending(),
                Container::Unknown => r == Err::<(), OutputError>(OutputError::InvalidContainer)
                    && final(self).pending() == old(self).pending(),
            },
    {
        match self.kind() {
            Container::Raw => push_raw_frame(&mut self.output, frame),
            Container::Y4m => {
                push_str(&mut self.output, "FRAME\n");
                push_raw_frame(&mut self.output, frame);
            },
            Container::Wav | Container::W64 => return Err(OutputError::AudioContainer),
            Container::Unknown => return Err(OutputError::InvalidContainer),
        }
        Ok(())
    }

    /// Hands over the bytes encoded since the last call.
    pub fn take_output(&mut self) -> (r: Vec<u8>)
        ensures
            r@ == old(self).pending(),
            final(self).pending() == Seq::<u8>::empty(),
            final(self).container() == old(self).container(),
            final(self).header_written() == old(self).header_written(),
    {
        let mut out: Vec<u8> = Vec::new();
        std::mem::swap(&mut out, &mut self.output);
        out
    }

    /// Ends the output: hands over the bytes not taken yet.
    pub fn finish(self) -> (r: Vec<u8>)
        ensures
            r@ == self.pending(),
    {
        self.output
    }
}

} // verus!

verus! {

/// Each refusal's message says why the writer refused.
pub proof fn lemma_output_error_messages(c: String)
    ensures
        OutputError::AudioContainer.spec_message() == "Audio containers not yet implemented"@,
        OutputError::VideoContainer.spec_message() == "The y4m container holds video, not audio"@,
        OutputError::AudioFormatTooLarge.spec_message()
            == "The audio format does not fit the container header"@,
        OutputError::UnsupportedContainer(c).spec_message() == "Unsupported container format: "@
            + c@,
        OutputError::InvalidContainer.spec_message() == "Invalid container"@,
{
}

} // verus!
