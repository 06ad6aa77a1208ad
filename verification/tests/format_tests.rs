use rustsynth::format::{VideoFormatBuilder, AudioFormatBuilder, FormatError, RawVideoFormat, RawAudioFormat};
use rustsynth::format::{ColorFamily, PresetFormat, SampleType, PresetVideoFormat, ChannelLayout, AudioChannel, VideoFormat, MediaType, make_video_id};

fn preset(p: PresetVideoFormat) -> VideoFormat {
    let (color_family, bits, ssw, ssh): (i32, i32, i32, i32) = match p {
        PresetVideoFormat::Gray8 => (1, 8, 0, 0),
        PresetVideoFormat::Gray16 => (1, 16, 0, 0),
        PresetVideoFormat::RGB24 => (2, 8, 0, 0),
        PresetVideoFormat::YUV420P8 => (3, 8, 1, 1),
        PresetVideoFormat::YUV420P10 => (3, 10, 1, 1),
        PresetVideoFormat::YUV422P8 => (3, 8, 1, 0),
        PresetVideoFormat::YUV422P10 => (3, 10, 1, 0),
        PresetVideoFormat::YUV444P8 => (3, 8, 0, 0),
        PresetVideoFormat::YUV444P16 => (3, 16, 0, 0),
        _ => panic!("no test record for this preset"),
    };
    let raw = RawVideoFormat {
        color_family,
        sample_type: 0,
        bits_per_sample: bits,
        bytes_per_sample: if bits <= 8 { 1 } else { 2 },
        sub_sampling_w: ssw,
        sub_sampling_h: ssh,
        num_planes: if color_family == 1 { 1 } else { 3 },
    };
    p.into_format(1, &raw)
}


#[test]
fn test_preset_format_values() {
    assert_eq!(PresetFormat::NoFormat.id(), 0);
    assert_ne!(PresetFormat::Gray8.id(), 0);
    assert_ne!(PresetFormat::YUV420P8.id(), 0);
    assert_ne!(PresetFormat::RGB24.id(), 0);
}

#[test]
fn test_color_family_enum() {
    assert_eq!(ColorFamily::Undefined.code(), 0);
    assert_eq!(ColorFamily::Gray.code(), 1);
    assert_eq!(ColorFamily::RGB.code(), 2);
    assert_eq!(ColorFamily::YUV.code(), 3);
}

#[test]
fn test_sample_type_enum() {
    assert_eq!(SampleType::Integer.code(), 0);
    assert_eq!(SampleType::Float.code(), 1);
}

#[test]
fn test_format_id_uniqueness() {
    assert_ne!(PresetFormat::Gray8.id(), PresetFormat::Gray16.id());
    assert_ne!(PresetFormat::Gray8.id(), PresetFormat::YUV420P8.id());
    assert_ne!(PresetFormat::RGB24.id(), PresetFormat::YUV420P8.id());
    assert_ne!(PresetFormat::GrayS.id(), PresetFormat::Gray32.id());
}

#[test]
fn test_subsampling_differences() {
    assert_ne!(PresetFormat::YUV420P8.id(), PresetFormat::YUV422P8.id());
    assert_ne!(PresetFormat::YUV422P8.id(), PresetFormat::YUV444P8.id());
    assert_ne!(PresetFormat::YUV420P8.id(), PresetFormat::YUV444P8.id());
}

#[test]
fn preset_ids_pack_format_fields() {
    // colour family << 28 | sample type << 24 | bits << 16 | ssw << 8 | ssh
    assert_eq!(PresetFormat::Gray8.id(), (1 << 28) | (8 << 16));
    assert_eq!(PresetFormat::YUV420P8.id(), (3 << 28) | (8 << 16) | (1 << 8) | 1);
    assert_eq!(PresetFormat::RGB24.id(), (2 << 28) | (8 << 16));
    assert_eq!(PresetFormat::GrayS.id(), (1 << 28) | (1 << 24) | (32 << 16));
    assert_eq!(make_video_id(ColorFamily::YUV, SampleType::Integer, 10, 1, 0), (3 << 28) | (10 << 16) | (1 << 8));
}

#[test]
fn preset_video_format_into_format() {
    let f: VideoFormat = preset(PresetVideoFormat::YUV420P8);
    assert_eq!(f.color_family, ColorFamily::YUV);
    assert_eq!(f.sample_type, SampleType::Integer);
    assert_eq!(f.bits_per_sample, 8);
    assert_eq!(f.bytes_per_sample, 1);
    assert_eq!(f.sub_sampling_w, 1);
    assert_eq!(f.sub_sampling_h, 1);
    assert_eq!(f.num_planes, 3);
    let g = preset(PresetVideoFormat::Gray16);
    assert_eq!(g.bytes_per_sample, 2);
    assert_eq!(g.num_planes, 1);
}

#[test]
fn color_family_codes_roundtrip() {
    assert_eq!(ColorFamily::from_code(3), Some(ColorFamily::YUV));
    assert_eq!(ColorFamily::from_code(7), None);
    assert_eq!(MediaType::from_ffi(2), MediaType::Audio);
}

#[test]
fn channel_layout_operations() {
    let stereo = ChannelLayout::stereo();
    assert_eq!(stereo.bits(), 0b11);
    assert_eq!(stereo.channel_count(), 2);
    let front_center = ChannelLayout::from_channel(AudioChannel::FrontCenter);
    assert!(!stereo.has_channel(front_center));
    let with = stereo.with_channel(front_center);
    assert!(with.has_channel(front_center));
    assert_eq!(with.channel_count(), 3);
    let without = with.without_channel(front_center);
    assert_eq!(without, stereo);
    assert_eq!(ChannelLayout::surround_5_1().channel_count(), 6);
    assert_eq!(ChannelLayout::surround_7_1().channel_count(), 8);
    assert_eq!(ChannelLayout::new().channel_count(), 0);
}

#[test]
fn channel_layout_text_lists_channels() {
    let text = ChannelLayout::stereo().to_text();
    assert!(text.starts_with("ChannelLayout(ch0, ch1, "));
    // Bits that name no channel are always listed.
    assert!(text.contains("ch18"));
    assert!(!text.contains("ch2,"));
    assert!(text.ends_with("ch63)"));
}

#[test]
fn builders_report_failed_queries() {
    let raw = preset(PresetVideoFormat::YUV422P8).as_ptr();
    let ok = VideoFormatBuilder::new(ColorFamily::YUV, SampleType::Integer, 8).sub_sampling(1, 0).build(1, &raw);
    assert_eq!(ok, Ok(preset(PresetVideoFormat::YUV422P8)));
    let zero = RawVideoFormat { color_family: 0, sample_type: 0, bits_per_sample: 0, bytes_per_sample: 0, sub_sampling_w: 0, sub_sampling_h: 0, num_planes: 0 };
    let bad = VideoFormatBuilder::new(ColorFamily::YUV, SampleType::Float, 9).sub_sampling_w(3).build(0, &zero);
    assert_eq!(
        bad,
        Err(FormatError::InvalidVideoFormat {
            color_family: ColorFamily::YUV,
            sample_type: SampleType::Float,
            bits_per_sample: 9,
            sub_sampling_w: 3,
            sub_sampling_h: 0,
        })
    );
    let araw = RawAudioFormat { sample_type: 0, bits_per_sample: 0, bytes_per_sample: 0, num_channels: 0, channel_layout: 0 };
    let abad = AudioFormatBuilder::new(SampleType::Integer, 12, ChannelLayout::new()).stereo().build(0, &araw);
    assert_eq!(
        abad,
        Err(FormatError::InvalidAudioFormat { sample_type: SampleType::Integer, bits_per_sample: 12, channel_layout: 3 })
    );
}
