use rustsynth::format::{PresetVideoFormat, VideoFormat, VideoInfo, AudioInfo, AudioFormat, ColorFamily, SampleType, ChannelLayout};
use rustsynth::frame::{Frame, Plane};
use rustsynth::map::{OwnedMap, MapError, InvalidKeyError};
use rustsynth::output::{OutputWriter, OutputError, y4m_format_tag};
use rustsynth::pipe::{frame_range, RangeError, ProgressTracker, split_arg, script_variables, ScriptArgError, node_info_text};
use rustsynth::schedule::FrameScheduler;
use rustsynth::format::RawVideoFormat;

fn preset(p: PresetVideoFormat) -> VideoFormat {
    let (color_family, bits, ssw, ssh): (i32, i32, i32, i32) = match p {
        PresetVideoFormat::Gray8 => (1, 8, 0, 0),
        PresetVideoFormat::Gray16 => (1, 16, 0, 0),
        PresetVideoFormat::RGB24 => (2, 8, 0, 0),
        PresetVideoFormat::YUV420P8 => (3, 8, 1, 1),
        PresetVideoFormat::YUV420P10 => (3, 10, 1, 1),
        PresetVideoFormat::YUV422P8 => (3, 8, 1, 0),
        PresetVideoFormat::YUV422P10 => (3, 10, 1, 0),
        PresetVideoFormat::YUV444P8 => (3, 8, 0, 0),
        PresetVideoFormat::YUV444P16 => (3, 16, 0, 0),
        _ => panic!("no test record for this preset"),
    };
    let raw = RawVideoFormat {
        color_family,
        sample_type: 0,
        bits_per_sample: bits,
        bytes_per_sample: if bits <= 8 { 1 } else { 2 },
        sub_sampling_w: ssw,
        sub_sampling_h: ssh,
        num_planes: if color_family == 1 { 1 } else { 3 },
    };
    p.into_format(1, &raw)
}


fn info(width: i32, height: i32) -> VideoInfo {
    VideoInfo {
        format: preset(PresetVideoFormat::YUV420P8),
        fps_num: 24000,
        fps_den: 1001,
        width,
        height,
        num_frames: 10,
    }
}

#[test]
fn y4m_header_line() {
    let mut w = OutputWriter::new(Some(&"y4m".to_string()));
    w.write_header(&info(640, 480)).unwrap();
    assert_eq!(w.take_output(), b"YUV4MPEG2 W640 H480 F24000:1001 Ip A0:0 C420jpeg\n".to_vec());
}

#[test]
fn y4m_tags() {
    let mut f = preset(PresetVideoFormat::YUV422P10);
    assert_eq!(y4m_format_tag(&f), "C422p10");
    f = preset(PresetVideoFormat::YUV444P16);
    assert_eq!(y4m_format_tag(&f), "C444p16");
    f = preset(PresetVideoFormat::RGB24);
    assert_eq!(y4m_format_tag(&f), "C420jpeg");
}

#[test]
fn raw_output_has_no_header_and_no_padding() {
    let format = preset(PresetVideoFormat::Gray8);
    let plane = Plane { data: vec![1, 2, 9, 3, 4, 9], stride: 3, width: 2, height: 2 };
    let frame = Frame::from_planes(format, vec![plane], OwnedMap::new()).unwrap();
    let mut w = OutputWriter::new(None);
    w.write_header(&info(2, 2)).unwrap();
    w.write_frame(&frame).unwrap();
    assert_eq!(w.finish(), vec![1, 2, 3, 4]);
}

#[test]
fn y4m_frames_are_framed() {
    let format = preset(PresetVideoFormat::Gray8);
    let plane = Plane { data: vec![7, 8], stride: 1, width: 1, height: 2 };
    let frame = Frame::from_planes(format, vec![plane], OwnedMap::new()).unwrap();
    let mut w = OutputWriter::new(Some(&"y4m".to_string()));
    w.write_frame(&frame).unwrap();
    assert_eq!(w.finish(), b"FRAME\n\x07\x08".to_vec());
}

#[test]
fn unsupported_containers() {
    let mut w = OutputWriter::new(Some(&"wav".to_string()));
    assert_eq!(w.write_header(&info(2, 2)), Err(OutputError::AudioContainer));
    let mut w = OutputWriter::new(Some(&"mkv".to_string()));
    let e = w.write_header(&info(2, 2)).unwrap_err();
    assert_eq!(e, OutputError::UnsupportedContainer("mkv".to_string()));
    assert_eq!(e.message(), "Unsupported container format: mkv");
    let frame = Frame::new_video_frame(2, 2, &preset(PresetVideoFormat::Gray8), None);
    assert_eq!(w.write_frame(&frame), Err(OutputError::InvalidContainer));
    assert_eq!(w.finish(), Vec::<u8>::new());
    assert_eq!(OutputError::AudioContainer.message(), "Audio containers not yet implemented");
}

fn audio_info(channels: i32, bytes: i32, layout: u64, rate: i32, samples: i64) -> AudioInfo {
    AudioInfo {
        format: AudioFormat {
            sample_type: SampleType::Integer,
            bits_per_sample: bytes * 8,
            bytes_per_sample: bytes,
            num_channels: channels,
            channel_layout: ChannelLayout::from_bits_truncate(layout),
        },
        sample_rate: rate,
        num_samples: samples,
        num_frames: 1,
    }
}

#[test]
fn wav_header_bytes() {
    let mut w = OutputWriter::new(Some(&"wav".to_string()));
    w.write_audio_header(&audio_info(2, 2, 3, 48000, 100)).unwrap();
    let mut expected: Vec<u8> = Vec::new();
    expected.extend_from_slice(b"RIFF");
    expected.extend_from_slice(&[0xcc, 0x01, 0, 0]);
    expected.extend_from_slice(b"WAVEfmt ");
    expected.extend_from_slice(&[40, 0, 0, 0, 0xfe, 0xff, 2, 0]);
    expected.extend_from_slice(&[0x80, 0xbb, 0, 0, 0x00, 0xee, 0x02, 0]);
    expected.extend_from_slice(&[4, 0, 16, 0, 22, 0, 16, 0, 3, 0, 0, 0, 1, 0, 0, 0]);
    expected.extend_from_slice(&[0x00, 0x00, 0x10, 0x00, 0x80, 0x00, 0x00, 0xaa, 0x00, 0x38, 0x9b, 0x71]);
    expected.extend_from_slice(b"data");
    expected.extend_from_slice(&[0x90, 0x01, 0, 0]);
    assert_eq!(expected.len(), 68);
    assert_eq!(w.finish(), expected);
}

#[test]
fn w64_header_bytes() {
    let mut w = OutputWriter::new(Some(&"w64".to_string()));
    w.write_audio_header(&audio_info(1, 4, 4, 44100, 10)).unwrap();
    let out = w.finish();
    assert_eq!(out.len(), 128);
    assert_eq!(&out[0..4], b"riff");
    assert_eq!(&out[16..24], &[168, 0, 0, 0, 0, 0, 0, 0]);
    assert_eq!(&out[24..28], b"wave");
    assert_eq!(&out[40..44], b"fmt ");
    assert_eq!(&out[56..64], &[64, 0, 0, 0, 0, 0, 0, 0]);
    assert_eq!(&out[64..66], &[0xfe, 0xff]);
    assert_eq!(&out[66..68], &[1, 0]);
    assert_eq!(&out[84..88], &[4, 0, 0, 0]);
    assert_eq!(&out[104..108], b"data");
    assert_eq!(&out[120..128], &[64, 0, 0, 0, 0, 0, 0, 0]);
}

#[test]
fn audio_header_refusals() {
    let mut w = OutputWriter::new(Some(&"y4m".to_string()));
    assert_eq!(w.write_audio_header(&audio_info(2, 2, 3, 48000, 100)), Err(OutputError::VideoContainer));
    let mut w = OutputWriter::new(Some(&"wav".to_string()));
    assert_eq!(w.write_audio_header(&audio_info(70000, 2, 3, 48000, 100)), Err(OutputError::AudioFormatTooLarge));
    assert_eq!(w.finish(), Vec::<u8>::new());
    let mut w = OutputWriter::new(None);
    assert_eq!(w.write_audio_header(&audio_info(2, 2, 3, 48000, 100)), Ok(()));
    assert_eq!(w.finish(), Vec::<u8>::new());
    let mut w = OutputWriter::new(Some(&"flac".to_string()));
    assert_eq!(w.write_audio_header(&audio_info(2, 2, 3, 48000, 100)), Err(OutputError::UnsupportedContainer("flac".to_string())));
}

#[test]
fn wav_sizes_saturate() {
    let mut w = OutputWriter::new(Some(&"wav".to_string()));
    w.write_audio_header(&audio_info(2, 2, 3, 48000, 4_000_000_000)).unwrap();
    let out = w.finish();
    assert_eq!(&out[4..8], &[0xff, 0xff, 0xff, 0xff]);
    assert_eq!(&out[64..68], &[0xff, 0xff, 0xff, 0xff]);
}

#[test]
fn frame_ranges() {
    assert_eq!(frame_range(None, None, 10), Ok((0, 9, 10)));
    assert_eq!(frame_range(Some(3), Some(5), 10), Ok((3, 5, 3)));
    assert_eq!(frame_range(Some(6), Some(5), 10), Err(RangeError::StartAfterEnd));
    assert_eq!(frame_range(Some(2), None, 3), Ok((2, 2, 1)));
    assert_eq!(frame_range(Some(5), None, 0), Ok((5, usize::MAX, usize::MAX - 4)));
}

#[test]
fn progress_is_throttled() {
    let mut p = ProgressTracker::new(10, true, 1000);
    assert!(!p.update(1, 1050));
    assert!(p.update(2, 1100));
    assert!(!p.update(3, 1150));
    assert!(p.update(10, 1160));
    assert_eq!(p.last_update_ms, 1160);
    assert_eq!(p.elapsed_ms(1500), 500);
}

#[test]
fn script_args() {
    assert_eq!(split_arg("a=b=c"), Some(("a".to_string(), "b=c".to_string())));
    assert_eq!(split_arg("=x"), Some(("".to_string(), "x".to_string())));
    assert_eq!(split_arg("novalue"), None);
    let args = vec!["x=1".to_string(), "name=é".to_string(), "x=2".to_string()];
    let m = script_variables(&args).unwrap();
    assert_eq!(m.keys(), vec!["x", "name"]);
    assert_eq!(m.get::<String>("x").unwrap(), "2");
    assert_eq!(m.get::<String>("name").unwrap(), "é");
    let bad = vec!["x=1".to_string(), "oops".to_string()];
    assert_eq!(script_variables(&bad).unwrap_err(), ScriptArgError::InvalidFormat("oops".to_string()));
    let badkey = vec!["1x=1".to_string()];
    assert_eq!(
        script_variables(&badkey).unwrap_err(),
        ScriptArgError::SetVariable("1x".to_string(), MapError::InvalidKey(InvalidKeyError::InvalidCharacter(0)))
    );
}

#[test]
fn scheduler_writes_in_order() {
    let mut s: FrameScheduler<&str> = FrameScheduler::new(5, 9);
    assert_eq!(s.initial_requests(3), vec![5, 6, 7]);
    let (req, ready) = s.on_frame(6, "f6");
    assert_eq!(req, Some(8));
    assert!(ready.is_empty());
    let (req, ready) = s.on_frame(5, "f5");
    assert_eq!(req, Some(9));
    assert_eq!(ready, vec![(5, "f5"), (6, "f6")]);
    assert_eq!(s.frames_written(), 2);
    assert!(!s.is_outstanding(6));
    assert!(s.is_outstanding(8));
    let (req, ready) = s.on_frame(8, "f8");
    assert_eq!(req, None);
    assert!(ready.is_empty());
    let (_, ready) = s.on_frame(7, "f7");
    assert_eq!(ready, vec![(7, "f7"), (8, "f8")]);
    let (_, ready) = s.on_frame(9, "f9");
    assert_eq!(ready, vec![(9, "f9")]);
    assert!(s.is_done());
}

#[test]
fn scheduler_requests_no_more_than_the_run() {
    let mut s: FrameScheduler<u8> = FrameScheduler::new(0, 1);
    assert_eq!(s.initial_requests(8), vec![0, 1]);
}

#[test]
fn node_info_lines() {
    let text = node_info_text(Some(&info(640, 480)), None, None);
    assert!(text.starts_with("Width: 640\nHeight: 480\nFrames: 10\nFPS: 24000/1001\nFormat Name: Unknown\n"));
    assert!(text.contains("Color Family: YUV\nSample Type: Integer\nBits Per Sample: 8\n"));
    assert!(text.ends_with("Subsampling W: 1\nSubsampling H: 1\nNum Planes: 3\n"));
    let audio = AudioInfo {
        format: AudioFormat {
            sample_type: SampleType::Float,
            bits_per_sample: 32,
            bytes_per_sample: 4,
            num_channels: 2,
            channel_layout: ChannelLayout::stereo(),
        },
        sample_rate: 48000,
        num_samples: -1,
        num_frames: 1,
    };
    let name = "Audio32F2".to_string();
    let text = node_info_text(None, Some(&audio), Some(&name));
    assert!(text.starts_with("Sample Rate: 48000\nNum Samples: -1\nNum Channels: 2\nChannel Layout: ChannelLayout(ch0, ch1, ch18"));
    assert!(text.ends_with("Format Name: Audio32F2\nSample Type: Float\nBits Per Sample: 32\nBytes Per Sample: 4\n"));
    assert_eq!(node_info_text(None, None, None), "");
    let _ = ColorFamily::Gray;
}
