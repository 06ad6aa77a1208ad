use rustsynth::helpers::{int64ToIntS, make_version, isConstantVideoFormat, isSameVideoFormat, isSameVideoInfo, isSameAudioFormat, isSameAudioInfo, areValidDimensions, bitblt};
use rustsynth::rational::{muldivRational, reduceRational, addRational};
use rustsynth::format::{PresetVideoFormat, AudioFormat, VideoFormat};
use rustsynth::format::RawVideoFormat;

fn preset(p: PresetVideoFormat) -> VideoFormat {
    let (color_family, bits, ssw, ssh): (i32, i32, i32, i32) = match p {
        PresetVideoFormat::Gray8 => (1, 8, 0, 0),
        PresetVideoFormat::Gray16 => (1, 16, 0, 0),
        PresetVideoFormat::RGB24 => (2, 8, 0, 0),
        PresetVideoFormat::YUV420P8 => (3, 8, 1, 1),
        PresetVideoFormat::YUV420P10 => (3, 10, 1, 1),
        PresetVideoFormat::YUV422P8 => (3, 8, 1, 0),
        PresetVideoFormat::YUV422P10 => (3, 10, 1, 0),
        PresetVideoFormat::YUV444P8 => (3, 8, 0, 0),
        PresetVideoFormat::YUV444P16 => (3, 16, 0, 0),
        _ => panic!("no test record for this preset"),
    };
    let raw = RawVideoFormat {
        color_family,
        sample_type: 0,
        bits_per_sample: bits,
        bytes_per_sample: if bits <= 8 { 1 } else { 2 },
        sub_sampling_w: ssw,
        sub_sampling_h: ssh,
        num_planes: if color_family == 1 { 1 } else { 3 },
    };
    p.into_format(1, &raw)
}


#[test]
fn saturating_conversion() {
    assert_eq!(int64ToIntS(5), 5);
    assert_eq!(int64ToIntS(1 << 40), i32::MAX);
    assert_eq!(int64ToIntS(-(1 << 40)), i32::MIN);
}

#[test]
fn version_numbers() {
    assert_eq!(make_version(2, 1), 0x20001);
    assert_eq!(make_version(4, 0), 262144);
}

#[test]
fn version_numbers_outside_the_usual_range() {
    assert_eq!(make_version(0x10001, 3), 65539);
    assert_eq!(make_version(-1, 0), -65536);
    assert_eq!(make_version(1, -1), -1);
    assert_eq!(make_version(0x8000, 0), i32::MIN);
}

#[test]
fn rationals() {
    let (mut n, mut d) = (6i64, 8i64);
    reduceRational(&mut n, &mut d);
    assert_eq!((n, d), (3, 4));
    let (mut n, mut d) = (30000i64, 1001i64);
    muldivRational(&mut n, &mut d, 1, 2);
    assert_eq!((n, d), (15000, 1001));
    let (mut n, mut d) = (1i64, 2i64);
    addRational(&mut n, &mut d, 1, 3);
    assert_eq!((n, d), (5, 6));
    let (mut n, mut d) = (1i64, 4i64);
    addRational(&mut n, &mut d, 1, 4);
    assert_eq!((n, d), (1, 2));
    let (mut n, mut d) = (1i64, -4i64);
    addRational(&mut n, &mut d, 1, -4);
    assert_eq!((n, d), (1, -2));
    let (mut n, mut d) = (i64::MIN, 1i64);
    reduceRational(&mut n, &mut d);
    assert_eq!((n, d), (i64::MIN, 1));
    let (mut n, mut d) = (i64::MIN, 2i64);
    reduceRational(&mut n, &mut d);
    assert_eq!((n, d), (i64::MIN / 2, 1));
    let (mut n, mut d) = (3i64, 0i64);
    muldivRational(&mut n, &mut d, 2, 3);
    assert_eq!((n, d), (3, 0));
    let (mut n, mut d) = (-4i64, 6i64);
    reduceRational(&mut n, &mut d);
    assert_eq!((n, d), (-2, 3));
}

#[test]
fn format_comparisons() {
    let a = preset(PresetVideoFormat::YUV420P8).as_ptr();
    let b = preset(PresetVideoFormat::YUV420P10).as_ptr();
    assert_eq!(isSameVideoFormat(&a, &a), 1);
    assert_eq!(isSameVideoFormat(&a, &b), 0);
    let vi = rustsynth::format::RawVideoInfo { format: a, fps_num: 1, fps_den: 1, width: 4, height: 2, num_frames: 1 };
    let mut vi2 = vi;
    assert_eq!(isSameVideoInfo(&vi, &vi2), 1);
    vi2.width = 6;
    assert_eq!(isSameVideoInfo(&vi, &vi2), 0);
    assert_eq!(isConstantVideoFormat(&vi), 1);
    vi2.height = 0;
    assert_eq!(isConstantVideoFormat(&vi2), 0);
    let s = AudioFormat::stereo16().as_ptr();
    let m = AudioFormat::mono16().as_ptr();
    assert_eq!(isSameAudioFormat(&s, &s), 1);
    assert_eq!(isSameAudioFormat(&s, &m), 0);
    let ai = rustsynth::format::RawAudioInfo { format: s, sample_rate: 48000, num_samples: 10, num_frames: 1 };
    let mut ai2 = ai;
    assert_eq!(isSameAudioInfo(&ai, &ai2), 1);
    ai2.sample_rate = 44100;
    assert_eq!(isSameAudioInfo(&ai, &ai2), 0);
}

#[test]
fn dimensions_fit_subsampling() {
    let f = preset(PresetVideoFormat::YUV420P8).as_ptr();
    assert_eq!(areValidDimensions(&f, 4, 2), 1);
    assert_eq!(areValidDimensions(&f, 5, 2), 0);
    assert_eq!(areValidDimensions(&f, -4, 2), 1);
    assert_eq!(areValidDimensions(&f, 4, -3), 0);
    let mut wide = f;
    wide.sub_sampling_w = 31;
    assert_eq!(areValidDimensions(&wide, i32::MIN, 2), 1);
    assert_eq!(areValidDimensions(&wide, 0, 2), 1);
    assert_eq!(areValidDimensions(&wide, 1 << 30, 2), 0);
}

#[test]
fn bitblt_copies_rows() {
    let src = [1u8, 2, 3, 4, 5, 6];
    let mut dst = [9u8; 8];
    bitblt(&mut dst, 4, &src, 3, 2, 2);
    assert_eq!(dst, [1, 2, 9, 9, 4, 5, 9, 9]);
}

#[test]
fn bitblt_overlapping_rows_keep_the_last_write() {
    let src = [1u8, 2, 3, 4, 5, 6];
    let mut dst = [9u8; 4];
    bitblt(&mut dst, 1, &src, 2, 2, 3);
    assert_eq!(dst, [1, 3, 5, 6]);
    let mut dst = [9u8; 3];
    bitblt(&mut dst, 0, &src, 2, 2, 2);
    assert_eq!(dst, [3, 4, 9]);
    let mut dst = [9u8; 2];
    bitblt(&mut dst, 5, &src, 2, 2, 0);
    assert_eq!(dst, [9, 9]);
}
