//! Filters: how they request frames, how they run in parallel, and what the
//! VapourSynth frame callback does for each reason it is called.
use vstd::prelude::*;
use crate::format::{VideoInfo, AudioInfo};
use crate::text::{TextBuf, str_eq};

verus! {

/// How a filter requests the frames of one of its inputs.
#[derive(Debug, Clone, Copy, PartialEq, Eq, Structural)]
pub enum RequestPattern {
    /// Anything goes. Note that filters that may be requesting beyond the end of a VSNode length in frames (repeating the last frame) should use General and not any of the other modes.
    General,
    /// Will only request an input frame at most once if all output frames are requested exactly one time. This includes filters such as Trim, Reverse, SelectEvery.
    NoFrameReuse,
    /// Only requests frame N to output frame N. The main difference to NoFrameReuse is that the requested frame is always fixed and known ahead of time. Filter examples Lut, Expr (conditionally, see General note) and similar.
    StrictSpatial,
    /// This modes is basically identical NoFrameReuse except that it hints the last frame may be requested multiple times
    FrameReuseLastOnly,
}

impl RequestPattern {
    /// The number VapourSynth uses for the pattern.
    pub open spec fn spec_code(self) -> i32 {
        match self {
            RequestPattern::General => 0,
            RequestPattern::NoFrameReuse => 1,
            RequestPattern::StrictSpatial => 2,
            RequestPattern::FrameReuseLastOnly => 3,
        }
    }

    /// The pattern a VapourSynth number stands for; other numbers read as `General`.
    pub open spec fn spec_from_code(code: i32) -> RequestPattern {
        if code == 1 {
            RequestPattern::NoFrameReuse
        } else if code == 2 {
            RequestPattern::StrictSpatial
        } else if code == 3 {
            RequestPattern::FrameReuseLastOnly
        } else {
            RequestPattern::General
        }
    }

    /// The number VapourSynth uses for the pattern, the value that the
    /// VapourSynth API is handed for it.
    pub fn as_ptr(&self) -> (r: i32)
        ensures
            r == self.spec_code(),
            0 <= r <= 3,
            Self::spec_from_code(r) == *self,
    {
        match self {
            RequestPattern::General => 0,
            RequestPattern::NoFrameReuse => 1,
            RequestPattern::StrictSpatial => 2,
            RequestPattern::FrameReuseLastOnly => 3,
        }
    }

    /// The pattern of a VapourSynth request pattern number.
    pub fn from_ffi(pattern: i32) -> (r: RequestPattern)
        requires
            0 <= pattern <= 3,
        ensures
            r.spec_code() == pattern,
    {
        Self::from_code(pattern)
    }

    /// The pattern a number stands for; numbers that name no pattern read as `General`.
    pub fn from_code(value: i32) -> (r: RequestPattern)
        ensures
            r == Self::spec_from_code(value),
    {
        if value == 1 {
            RequestPattern::NoFrameReuse
        } else if value == 2 {
            RequestPattern::StrictSpatial
        } else if value == 3 {
            RequestPattern::FrameReuseLastOnly
        } else {
            RequestPattern::General
        }
    }
}

impl From<i32> for RequestPattern {
    fn from(value: i32) -> (r: RequestPattern) {
        RequestPattern::from_code(value)
    }
}

impl vstd::std_specs::convert::FromSpecImpl<i32> for RequestPattern {
    open spec fn obeys_from_spec() -> bool {
        true
    }

    open spec fn from_spec(v: i32) -> RequestPattern {
        RequestPattern::spec_from_code(v)
    }
}

/// Every pattern is read back from its number, and no two patterns share a
/// number, so the pattern that [RequestPattern::from_ffi] reads from a
/// pattern's number is that pattern.
pub proof fn lemma_request_pattern_roundtrip(p: RequestPattern)
    ensures
        RequestPattern::spec_from_code(p.spec_code()) == p,
        0 <= p.spec_code() <= 3,
        forall|q: RequestPattern| #[trigger] q.spec_code() == p.spec_code() ==> q == p,
{
}

/// Why the frame callback of a filter is called.
#[derive(Debug, Clone, Copy, PartialEq, Eq, Structural)]
pub enum ActivationReason {
    Initial,
    AllFramesReady,
    Error,
}

impl ActivationReason {
    /// The reason a VapourSynth number stands for: 0 is the first call for a
    /// frame, 1 the call once its inputs are ready; anything else is an error.
    pub open spec fn spec_from_ffi(reason: i32) -> ActivationReason {
        if reason == 0 {
            ActivationReason::Initial
        } else if reason == 1 {
            ActivationReason::AllFramesReady
        } else {
            ActivationReason::Error
        }
    }

    /// The reason a VapourSynth number stands for.
    pub fn from_ffi(reason: i32) -> (r: ActivationReason)
        ensures
            r == Self::spec_from_ffi(reason),
    {
        if reason == 0 {
            ActivationReason::Initial
        } else if reason == 1 {
            ActivationReason::AllFramesReady
        } else {
            ActivationReason::Error
        }
    }
}

/// Controls how a filter will be multithreaded, if at all.
#[derive(Debug, Clone, Copy, PartialEq, Eq, Structural)]
pub enum FilterMode {
    /// Completely parallel execution. Multiple threads will call a filter’s frame function, to fetch several frames in parallel.
    Parallel,
    /// For filters that are serial in nature but can request in advance one or more frames they need.
    ParallelRequests,
    /// Only one thread can call the filter’s frame function at a time.
    Unordered,
    /// For compatibility with other filtering architectures. Only one frame is processed at a time.
    FrameState,
}

impl FilterMode {
    /// The number VapourSynth uses for the mode.
    pub open spec fn spec_code(self) -> i32 {
        match self {
            FilterMode::Parallel => 0,
            FilterMode::ParallelRequests => 1,
            FilterMode::Unordered => 2,
            FilterMode::FrameState => 3,
        }
    }

    /// The mode a VapourSynth number stands for; other numbers read as `Parallel`.
    pub open spec fn spec_from_code(code: i32) -> FilterMode {
        if code == 1 {
            FilterMode::ParallelRequests
        } else if code == 2 {
            FilterMode::Unordered
        } else if code == 3 {
            FilterMode::FrameState
        } else {
            FilterMode::Parallel
        }
    }

    /// The number VapourSynth uses for the mode, the value that the
    /// VapourSynth API is handed for it.
    pub fn as_ptr(&self) -> (r: i32)
        ensures
            r == self.spec_code(),
            0 <= r <= 3,
            Self::spec_from_code(r) == *self,
    {
        match self {
            FilterMode::Parallel => 0,
            FilterMode::ParallelRequests => 1,
            FilterMode::Unordered => 2,
            FilterMode::FrameState => 3,
        }
    }

    /// The mode of a VapourSynth filter mode number.
    pub fn from_ffi(mode: i32) -> (r: FilterMode)
        requires
            0 <= mode <= 3,
        ensures
            r.spec_code() == mode,
    {
        Self::from_code(mode)
    }

    /// The mode a number stands for; numbers that name no mode read as `Parallel`.
    pub fn from_code(value: i32) -> (r: FilterMode)
        ensures
            r == Self::spec_from_code(value),
    {
        if value == 1 {
            FilterMode::ParallelRequests
        } else if value == 2 {
            FilterMode::Unordered
        } else if value == 3 {
            FilterMode::FrameState
        } else {
            FilterMode::Parallel
        }
    }
}

impl From<i32> for FilterMode {
    fn from(value: i32) -> (r: FilterMode) {
        FilterMode::from_code(value)
    }
}

impl vstd::std_specs::convert::FromSpecImpl<i32> for FilterMode {
    open spec fn obeys_from_spec() -> bool {
        true
    }

    open spec fn from_spec(v: i32) -> FilterMode {
        FilterMode::spec_from_code(v)
    }
}

/// Every mode is read back from its number, and no two modes share a
/// number, so the mode that [FilterMode::from_ffi] reads from a mode's
/// number is that mode.
pub proof fn lemma_filter_mode_roundtrip(m: FilterMode)
    ensures
        FilterMode::spec_from_code(m.spec_code()) == m,
        0 <= m.spec_code() <= 3,
        forall|q: FilterMode| #[trigger] q.spec_code() == m.spec_code() ==> q == m,
{
}

/// What the frame callback of a filter does for one call.
#[derive(Debug, Clone, Copy)]
pub enum FrameAction {
    /// Nothing: a handle is missing, or an error came without frame data.
    Nothing,
    /// Ask for the input frames the output frame needs.
    RequestInputs,
    /// Make the output frame, with the frame's data.
    Process([u8; 4]),
    /// Release what the frame's data holds, after an error.
    Cleanup([u8; 4]),
}

/// The frame data handed to the filter: four zero bytes when there is none.
pub open spec fn data_or_zero(data: Option<[u8; 4]>) -> [u8; 4] {
    match data {
        Some(d) => d,
        None => [0u8, 0u8, 0u8, 0u8],
    }
}

/// The frame data a call carries: `None` without a frame data slot; in a
/// slot, `None` when nothing was stored there, else the four bytes stored.
pub fn frame_data_bytes(slot: Option<Option<[u8; 4]>>) -> (r: [u8; 4])
    ensures
        r == match slot {
            Some(data) => data_or_zero(data),
            None => data_or_zero(None),
        },
{
    match slot {
        Some(Some(d)) => d,
        _ => [0u8, 0u8, 0u8, 0u8],
    }
}

/// What the frame callback does: nothing when the filter instance, the frame
/// context or the core is missing; else, by the reason of the call, request
/// the inputs, process the frame with its data, or, after an error, clean up
/// the frame's data when there is a slot for it.
pub fn frame_action(activation_reason: i32, handles_present: bool, frame_data: Option<Option<[u8; 4]>>) -> (r: FrameAction)
    ensures
        r == if !handles_present {
            FrameAction::Nothing
        } else {
            match ActivationReason::spec_from_ffi(activation_reason) {
                ActivationReason::Initial => FrameAction::RequestInputs,
                ActivationReason::AllFramesReady => FrameAction::Process(
                    match frame_data {
                        Some(data) => data_or_zero(data),
                        None => data_or_zero(None),
                    },
                ),
                ActivationReason::Error => match frame_data {
                    Some(data) => FrameAction::Cleanup(data_or_zero(data)),
                    None => FrameAction::Nothing,
                },
            }
        },
{
    if !handles_present {
        return FrameAction::Nothing;
    }
    match ActivationReason::from_ffi(activation_reason) {
        ActivationReason::Initial => FrameAction::RequestInputs,
        ActivationReason::AllFramesReady => FrameAction::Process(frame_data_bytes(frame_data)),
        ActivationReason::Error => match frame_data {
            Some(_) => FrameAction::Cleanup(frame_data_bytes(frame_data)),
            None => FrameAction::Nothing,
        },
    }
}

/// The kind of clip a filter makes, as its declaration names it.
#[derive(Debug, Clone, Copy, PartialEq, Eq, Structural)]
pub enum FilterKind {
    Video,
    Audio,
}

/// The kind a filter declaration names: `video` or `audio`; no other name is a kind.
pub fn filter_kind(arg: &str) -> (r: Option<FilterKind>)
    ensures
        r == if arg@ == "video"@ {
            Some(FilterKind::Video)
        } else if arg@ == "audio"@ {
            Some(FilterKind::Audio)
        } else {
            None::<FilterKind>
        },
{
    if str_eq(arg, "video") {
        Some(FilterKind::Video)
    } else if str_eq(arg, "audio") {
        Some(FilterKind::Audio)
    } else {
        None
    }
}

/// The message for a filter declaration that names no kind.
pub fn unsupported_kind_message() -> (r: String)
    ensures
        r@ == "Unsupported filter type. Use 'video' or 'audio'"@,
{
    "Unsupported filter type. Use 'video' or 'audio'".to_owned()
}

/// The names of the three entry points made for a filter: its creation,
/// frame and release functions, named after the filter.
pub fn filter_entry_names(struct_name: &str) -> (r: (String, String, String))
    ensures
        r.0@ == struct_name@ + "Create"@,
        r.1@ == struct_name@ + "GetFrame"@,
        r.2@ == struct_name@ + "Free"@,
{
    let mut a = TextBuf::new();
    a.push_str(struct_name);
    a.push_str("Create");
    let mut b = TextBuf::new();
    b.push_str(struct_name);
    b.push_str("GetFrame");
    let mut c = TextBuf::new();
    c.push_str(struct_name);
    c.push_str("Free");
    (a.into_string(), b.into_string(), c.into_string())
}

/// The video information a filter reports by default: that of its first
/// input. `first_input` is `None` without inputs, else the video
/// information of the first input, if it has some.
pub fn default_video_info(first_input: Option<Option<VideoInfo>>) -> (r: Result<VideoInfo, String>)
    ensures
        match first_input {
            Some(Some(vi)) => r == Ok::<VideoInfo, String>(vi),
            Some(None) => r matches Err(m) && m@ == "Input node has no video info"@,
            None => r matches Err(m) && m@ == "No dependencies and get_video_info not implemented"@,
        },
{
    match first_input {
        Some(Some(vi)) => Ok(vi),
        Some(None) => Err("Input node has no video info".to_owned()),
        None => Err("No dependencies and get_video_info not implemented".to_owned()),
    }
}

/// The audio information a filter reports by default: that of its first
/// input. `first_input` is `None` without inputs, else the audio
/// information of the first input, if it has some.
pub fn default_audio_info(first_input: Option<Option<AudioInfo>>) -> (r: Result<AudioInfo, String>)
    ensures
        match first_input {
            Some(Some(ai)) => r == Ok::<AudioInfo, String>(ai),
            Some(None) => r matches Err(m) && m@ == "Input node has no audio info"@,
            None => r matches Err(m) && m@ == "No dependencies and get_audio_info not implemented"@,
        },
{
    match first_input {
        Some(Some(ai)) => Ok(ai),
        Some(None) => Err("Input node has no audio info".to_owned()),
        None => Err("No dependencies and get_audio_info not implemented".to_owned()),
    }
}

} // verus!

verus! {

/// The request pattern numbers are VapourSynth's (General 0, NoFrameReuse 1,
/// StrictSpatial 2, FrameReuseLastOnly 3), and a number reads back as the
/// pattern it stands for; other numbers read as `General`.
pub proof fn lemma_request_pattern_numbers(v: i32)
    ensures
        RequestPattern::General.spec_code() == 0,
        RequestPattern::NoFrameReuse.spec_code() == 1,
        RequestPattern::StrictSpatial.spec_code() == 2,
        RequestPattern::FrameReuseLastOnly.spec_code() == 3,
        (v == 0 || v == 1 || v == 2 || v == 3) ==> RequestPattern::spec_from_code(v).spec_code() == v,
        !(v == 0 || v == 1 || v == 2 || v == 3) ==> RequestPattern::spec_from_code(v) == RequestPattern::General,
{
}

/// The filter mode numbers are VapourSynth's (Parallel 0, ParallelRequests 1,
/// Unordered 2, FrameState 3), and a number reads back as the mode it stands
/// for; other numbers read as `Parallel`.
pub proof fn lemma_filter_mode_numbers(v: i32)
    ensures
        FilterMode::Parallel.spec_code() == 0,
        FilterMode::ParallelRequests.spec_code() == 1,
        FilterMode::Unordered.spec_code() == 2,
        FilterMode::FrameState.spec_code() == 3,
        (v == 0 || v == 1 || v == 2 || v == 3) ==> FilterMode::spec_from_code(v).spec_code() == v,
        !(v == 0 || v == 1 || v == 2 || v == 3) ==> FilterMode::spec_from_code(v) == FilterMode::Parallel,
{
}

/// The activation reasons are VapourSynth's numbers: 0 is the first call
/// for a frame, 1 the call once the requested frames are ready, and every
/// other number (VapourSynth's -1 among them) an error.
pub proof fn lemma_activation_reason_numbers(v: i32)
    ensures
        v == 0 ==> ActivationReason::spec_from_ffi(v) == ActivationReason::Initial,
        v == 1 ==> ActivationReason::spec_from_ffi(v) == ActivationReason::AllFramesReady,
        v != 0 && v != 1 ==> ActivationReason::spec_from_ffi(v) == ActivationReason::Error,
{
}

} // verus!
