use rustsynth::format::{FormatError, ColorFamily, SampleType};
use rustsynth::map::{MapError, InvalidKeyError};
use rustsynth::filter::{RequestPattern, ActivationReason, FilterMode, FrameAction, frame_action};
use rustsynth::log::{MessageType, log_message};
use rustsynth::node::CacheMode;
use rustsynth::vs_core::{CoreBuilder, CoreCreationFlags, CoreInfo};

#[test]
fn request_patterns() {
    assert_eq!(RequestPattern::from(2), RequestPattern::StrictSpatial);
    assert_eq!(RequestPattern::from(17), RequestPattern::General);
    assert_eq!(RequestPattern::from_ffi(1), RequestPattern::NoFrameReuse);
    assert_eq!(RequestPattern::StrictSpatial.as_ptr(), 2);
}

#[test]
fn filter_modes() {
    assert_eq!(FilterMode::from(3), FilterMode::FrameState);
    assert_eq!(FilterMode::from(-5), FilterMode::Parallel);
    assert_eq!(FilterMode::Unordered.as_ptr(), 2);
    assert_eq!(ActivationReason::from_ffi(-1), ActivationReason::Error);
    assert_eq!(ActivationReason::from_ffi(1), ActivationReason::AllFramesReady);
    assert_eq!(ActivationReason::from_ffi(9), ActivationReason::Error);
}

#[test]
fn frame_callback_actions() {
    assert!(matches!(frame_action(0, true, None), FrameAction::RequestInputs));
    assert!(matches!(frame_action(0, false, None), FrameAction::Nothing));
    assert!(matches!(frame_action(1, true, Some(Some([1, 2, 3, 4]))), FrameAction::Process([1, 2, 3, 4])));
    assert!(matches!(frame_action(1, true, Some(None)), FrameAction::Process([0, 0, 0, 0])));
    assert!(matches!(frame_action(1, true, None), FrameAction::Process([0, 0, 0, 0])));
    assert!(matches!(frame_action(-1, true, None), FrameAction::Nothing));
    assert!(matches!(frame_action(-1, true, Some(Some([5, 6, 7, 8]))), FrameAction::Cleanup([5, 6, 7, 8])));
}

#[test]
fn message_types() {
    assert_eq!(MessageType::from(3), MessageType::Critical);
    assert_eq!(MessageType::from(42), MessageType::Debug);
    let n: i32 = MessageType::Fatal.into();
    assert_eq!(n, 4);
    assert_eq!(log_message(2, Some(b"careful".to_vec())), Some((MessageType::Warning, "careful".to_string())));
    assert_eq!(log_message(2, Some(vec![0xff])), None);
    assert_eq!(log_message(2, None), None);
}

#[test]
fn cache_modes() {
    assert_eq!(CacheMode::Auto.as_ffi(), -1);
    assert_eq!(CacheMode::ForceDisable.as_ffi(), 0);
    assert_eq!(CacheMode::ForceEnable.as_ffi(), 1);
}

#[test]
fn core_builder_flags() {
    let b = CoreBuilder::new().with_graph_inspection().disable_library_unloading();
    assert_eq!(b.flags().bits, 5);
    assert!(b.flags().contains(CoreCreationFlags::enable_graph_inspection()));
    assert!(!b.flags().contains(CoreCreationFlags::disable_auto_loading()));
    assert_eq!(CoreBuilder::default().flags(), CoreCreationFlags::none());
    let all = CoreCreationFlags::enable_graph_inspection().union(CoreCreationFlags::disable_auto_loading());
    assert_eq!(all.as_ffi(), 3);
}

#[test]
fn core_info_text() {
    let info = CoreInfo::from_raw("VapourSynth Video Processing Library\n".to_string(), 70, 262144, 8, 1 << 30, 0);
    assert_eq!(info.num_threads, 8);
    assert_eq!(
        info.to_text(),
        "VapourSynth Video Processing Library\nWorker threads: 8\nMax framebuffer cache size: 1073741824\nCurrent framebuffer cache size: 0\n"
    );
}

#[test]
fn error_messages() {
    let e = FormatError::InvalidVideoFormat {
        color_family: ColorFamily::YUV,
        sample_type: SampleType::Float,
        bits_per_sample: 7,
        sub_sampling_w: 1,
        sub_sampling_h: -1,
    };
    assert_eq!(
        e.message(),
        "Invalid video format: color_family=YUV, sample_type=Float, bits_per_sample=7, sub_sampling_w=1, sub_sampling_h=-1"
    );
    let a = FormatError::InvalidAudioFormat { sample_type: SampleType::Integer, bits_per_sample: 16, channel_layout: 3 };
    assert_eq!(a.message(), "Invalid audio format: sample_type=Integer, bits_per_sample=16, channel_layout=3");
    assert_eq!(InvalidKeyError::InvalidCharacter(4).message(), "The key contains an invalid character at index 4");
    assert_eq!(MapError::KeyNotFound.message(), "The requested key wasn't found in the map");
}

#[test]
fn pattern_and_mode_numbers_read_back() {
    for p in [RequestPattern::General, RequestPattern::NoFrameReuse, RequestPattern::StrictSpatial, RequestPattern::FrameReuseLastOnly] {
        assert_eq!(RequestPattern::from_ffi(p.as_ptr()), p);
        assert_eq!(RequestPattern::from(p.as_ptr()), p);
    }
    assert_eq!(RequestPattern::FrameReuseLastOnly.as_ptr(), 3);
    for m in [FilterMode::Parallel, FilterMode::ParallelRequests, FilterMode::Unordered, FilterMode::FrameState] {
        assert_eq!(FilterMode::from_ffi(m.as_ptr()), m);
        assert_eq!(FilterMode::from(m.as_ptr()), m);
    }
    assert_eq!(FilterMode::Parallel.as_ptr(), 0);
}
