use rustsynth::format::{PresetVideoFormat, VideoFormat};
use rustsynth::frame::{Frame, ChromaLocation, ColorRange, ColorPrimaries, MatrixCoefficients, TransferCharacteristics, FieldBased, Field, Plane};
use rustsynth::invert::invert_frame;
use rustsynth::map::OwnedMap;
use rustsynth::format::RawVideoFormat;

fn preset(p: PresetVideoFormat) -> VideoFormat {
    let (color_family, bits, ssw, ssh): (i32, i32, i32, i32) = match p {
        PresetVideoFormat::Gray8 => (1, 8, 0, 0),
        PresetVideoFormat::Gray16 => (1, 16, 0, 0),
        PresetVideoFormat::RGB24 => (2, 8, 0, 0),
        PresetVideoFormat::YUV420P8 => (3, 8, 1, 1),
        PresetVideoFormat::YUV420P10 => (3, 10, 1, 1),
        PresetVideoFormat::YUV422P8 => (3, 8, 1, 0),
        PresetVideoFormat::YUV422P10 => (3, 10, 1, 0),
        PresetVideoFormat::YUV444P8 => (3, 8, 0, 0),
        PresetVideoFormat::YUV444P16 => (3, 16, 0, 0),
        _ => panic!("no test record for this preset"),
    };
    let raw = RawVideoFormat {
        color_family,
        sample_type: 0,
        bits_per_sample: bits,
        bytes_per_sample: if bits <= 8 { 1 } else { 2 },
        sub_sampling_w: ssw,
        sub_sampling_h: ssh,
        num_planes: if color_family == 1 { 1 } else { 3 },
    };
    p.into_format(1, &raw)
}


fn yuv420() -> VideoFormat {
    preset(PresetVideoFormat::YUV420P8)
}

#[test]
fn new_frame_has_subsampled_zero_planes() {
    let f = Frame::new_video_frame(4, 2, &yuv420(), None);
    assert_eq!(f.get_width(0), 4);
    assert_eq!(f.get_height(0), 2);
    assert_eq!(f.get_width(1), 2);
    assert_eq!(f.get_height(1), 1);
    assert_eq!(f.get_stride(1), 2);
    assert_eq!(f.get_read_slice(0), &[0u8; 8][..]);
    assert_eq!(f.planes().len(), 3);
}

#[test]
fn properties_read_back_after_set() {
    let mut f = Frame::new_video_frame(4, 2, &yuv420(), None);
    assert_eq!(f.chroma_location(), None);
    assert_eq!(f.primaries(), ColorPrimaries::UNSPECIFIED);
    assert_eq!(f.matrix(), MatrixCoefficients::UNSPECIFIED);
    assert_eq!(f.transfer(), TransferCharacteristics::UNSPECIFIED);
    f.set_chroma_location(ChromaLocation::Center).unwrap();
    f.set_color_range(ColorRange::Limited).unwrap();
    f.set_primaries(ColorPrimaries::BT709).unwrap();
    f.set_matrix(MatrixCoefficients::BT709).unwrap();
    f.set_transfer(TransferCharacteristics::BT709).unwrap();
    f.set_field_based(FieldBased::TopFieldFirst).unwrap();
    f.set_duration(1001, 24000).unwrap();
    f.set_combed(true).unwrap();
    f.set_field(Field::Bottom).unwrap();
    f.set_sample_aspect_ratio(16, 15).unwrap();
    f.set_scene_change_next(false).unwrap();
    f.set_scene_change_prev(true).unwrap();
    f.set_picture_type("I").unwrap();
    assert_eq!(f.chroma_location(), Some(ChromaLocation::Center));
    assert_eq!(f.color_range(), Some(ColorRange::Limited));
    assert_eq!(f.primaries(), ColorPrimaries::BT709);
    assert_eq!(f.matrix(), MatrixCoefficients::BT709);
    assert_eq!(f.transfer(), TransferCharacteristics::BT709);
    assert_eq!(f.field_based(), Some(FieldBased::TopFieldFirst));
    assert_eq!(f.duration(), Some((1001, 24000)));
    assert_eq!(f.combed(), Some(true));
    assert_eq!(f.field(), Some(Field::Bottom));
    assert_eq!(f.sample_aspect_ratio(), Some((16, 15)));
    assert_eq!(f.scene_change_next(), Some(false));
    assert_eq!(f.scene_change_prev(), Some(true));
    assert_eq!(f.picture_type(), Some("I".to_string()));
    assert_eq!(f.properties().get_int("_Matrix"), Ok(1));
}

#[test]
fn property_codes() {
    assert_eq!(ChromaLocation::TopLeft.code(), 2);
    assert_eq!(ColorRange::Full.code(), 0);
    assert_eq!(ColorPrimaries::from_i64(1), ColorPrimaries::BT709);
    assert_eq!(ColorPrimaries::from_i64(99), ColorPrimaries::UNSPECIFIED);
    assert_eq!(Field::from_code(5), None);
}

#[test]
fn new_frame_copies_properties() {
    let mut src = Frame::new_video_frame(2, 2, &yuv420(), None);
    src.set_combed(true).unwrap();
    let dst = Frame::new_video_frame(2, 2, &yuv420(), Some(&src));
    assert_eq!(dst.combed(), Some(true));
}

#[test]
fn from_planes_checks_geometry() {
    let format = preset(PresetVideoFormat::Gray8);
    let ok = Plane { data: vec![1, 2, 3, 4, 5, 6], stride: 3, width: 2, height: 2 };
    assert!(Frame::from_planes(format, vec![ok], OwnedMap::new()).is_some());
    let short = Plane { data: vec![1, 2, 3], stride: 3, width: 2, height: 2 };
    assert!(Frame::from_planes(format, vec![short], OwnedMap::new()).is_none());
    let narrow = Plane { data: vec![0; 4], stride: 1, width: 2, height: 2 };
    assert!(Frame::from_planes(format, vec![narrow], OwnedMap::new()).is_none());
}

#[test]
fn write_slice_changes_one_plane() {
    let mut f = Frame::new_video_frame(2, 2, &yuv420(), None);
    {
        let s = f.get_write_slice(0);
        s[3] = 9;
    }
    assert_eq!(f.get_read_slice(0), &[0, 0, 0, 9][..]);
    assert_eq!(f.get_read_slice(1), &[0][..]);
}

#[test]
fn invert_complements_each_row() {
    let format = preset(PresetVideoFormat::Gray8);
    // Rows of 3 bytes, 2 samples wide: the padding byte is not inverted.
    let plane = Plane { data: vec![0, 10, 77, 255, 1, 88], stride: 3, width: 2, height: 2 };
    let mut props = OwnedMap::new();
    props.set_int("_Combed", 1).unwrap();
    let src = Frame::from_planes(format, vec![plane], props).unwrap();
    let dst = invert_frame(&src);
    assert_eq!(dst.get_width(0), 2);
    assert_eq!(dst.get_height(0), 2);
    assert_eq!(dst.get_stride(0), 2);
    assert_eq!(dst.get_read_slice(0), &[255, 245, 0, 254][..]);
    assert_eq!(dst.combed(), Some(true));
}

#[test]
fn invert_handles_every_plane() {
    let mut src = Frame::new_video_frame(2, 2, &yuv420(), None);
    {
        let s = src.get_write_slice(2);
        s[0] = 0x0f;
    }
    let dst = invert_frame(&src);
    assert_eq!(dst.get_read_slice(0), &[255, 255, 255, 255][..]);
    assert_eq!(dst.get_read_slice(1), &[255][..]);
    assert_eq!(dst.get_read_slice(2), &[0xf0][..]);
}

#[test]
fn invert_twice_restores_samples() {
    let format = preset(PresetVideoFormat::Gray8);
    let plane = Plane { data: vec![3, 200, 7, 9], stride: 2, width: 2, height: 2 };
    let src = Frame::from_planes(format, vec![plane], OwnedMap::new()).unwrap();
    let back = invert_frame(&invert_frame(&src));
    assert_eq!(back.get_read_slice(0), src.get_read_slice(0));
}

#[test]
fn frame_from_existing_planes_copies_rows() {
    let format = preset(PresetVideoFormat::YUV444P8);
    let mut a = Frame::new_video_frame(2, 1, &format, None);
    {
        let s = a.get_write_slice(0);
        s[0] = 1;
        s[1] = 2;
    }
    {
        let s = a.get_write_slice(2);
        s[1] = 5;
    }
    let mut b = Frame::new_video_frame(2, 1, &format, None);
    b.set_combed(true).unwrap();
    {
        let s = b.get_write_slice(0);
        s[0] = 8;
    }
    let f = Frame::new_video_frame_from_existing_planes(2, 1, format, &[&a, &b, &a], &[0, 0, 2], Some(&b));
    assert_eq!(f.get_read_slice(0), &[1, 2][..]);
    assert_eq!(f.get_read_slice(1), &[8, 0][..]);
    assert_eq!(f.get_read_slice(2), &[0, 5][..]);
    assert_eq!(f.combed(), Some(true));
}

#[test]
fn planes_lend_their_bytes() {
    let format = preset(PresetVideoFormat::Gray8);
    let plane = Plane { data: vec![1, 2, 9, 3, 4, 9], stride: 3, width: 2, height: 2 };
    let f = Frame::from_planes(format, vec![plane], OwnedMap::new()).unwrap();
    let ps = f.planes();
    assert_eq!(ps.len(), 1);
    assert_eq!(ps[0].data, &[1, 2, 9, 3, 4, 9][..]);
    assert_eq!((ps[0].stride, ps[0].width, ps[0].height), (3, 2, 2));
    let total = f.with_planes(|planes| planes.iter().map(|p| p.data.len()).sum::<usize>());
    assert_eq!(total, 6);
    let widths = f.with_planes(|planes| planes.iter().map(|p| p.width).collect::<Vec<i32>>());
    assert_eq!(widths, vec![2]);
}
