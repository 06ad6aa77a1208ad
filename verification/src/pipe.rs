//! The decisions of the pipe tool: the frame range to output, when to report
//! progress, and the script arguments given as `key=value`.
use vstd::prelude::*;
use vstd::utf8::{encode_utf8, encode_scalar};
use crate::text::{utf8, lemma_utf8_append, text_from_utf8, TextBuf, decimal_text};
use crate::format::{VideoInfo, AudioInfo, channel_layout_text};
use crate::map::{OwnedMap, MapError, Entries, Property, DataItem, DataType, with_entry, key_result};

verus! {

/// Why a frame range was refused.
#[derive(Debug, Clone, Copy, PartialEq, Eq, Structural)]
pub enum RangeError {
    /// The start frame comes after the end frame.
    StartAfterEnd,
}

/// The last frame of a clip of `num_frames` frames, as an unsigned index:
/// `num_frames - 1`, which wraps around to the top of the index range when
/// the clip reports no frames.
pub open spec fn last_frame(num_frames: i32) -> int {
    if num_frames >= 1 {
        num_frames - 1
    } else {
        usize::MAX + num_frames
    }
}

/// The frame range to output: the given start, or the first frame; the given
/// end, or the last frame of the clip. Answers the start, the end (both
/// included) and the number of frames, or an error when the start comes
/// after the end.
pub fn frame_range(start: Option<usize>, end: Option<usize>, num_frames: i32) -> (r: Result<
    (usize, usize, usize),
    RangeError,
>)
    requires
        end is None ==> num_frames > i32::MIN,
        !(match end {
            Some(v) => v as int,
            None => last_frame(num_frames),
        } == usize::MAX && start.unwrap_or(0) == 0),
    ensures
        ({
            let s: int = match start {
                Some(v) => v as int,
                None => 0,
            };
            let e: int = match end {
                Some(v) => v as int,
                None => last_frame(num_frames),
            };
            if s > e {
                r == Err::<(usize, usize, usize), RangeError>(RangeError::StartAfterEnd)
            } else {
                r matches Ok((a, b, n)) && a == s && b == e && n == e - s + 1
            }
        }),
{
    let start_frame: usize = match start {
        Some(v) => v,
        None => 0,
    };
    let end_frame: usize = match end {
        Some(v) => v,
        None => if num_frames >= 1 {
            (num_frames - 1) as usize
        } else {
            usize::MAX - ((-(num_frames as i64)) as usize)
        },
    };
    if start_frame > end_frame {
        return Err(RangeError::StartAfterEnd);
    }
    Ok((start_frame, end_frame, end_frame - start_frame + 1))
}

/// The least time between two progress reports, in milliseconds.
pub const PROGRESS_INTERVAL_MS: u64 = 100;

/// Decides when to report progress: at most once per interval, and always
/// when the last frame is done. Times are milliseconds on one clock.
#[derive(Debug, Clone, Copy)]
pub struct ProgressTracker {
    pub total_frames: usize,
    pub start_ms: u64,
    pub last_update_ms: u64,
    pub verbose: bool,
}

impl ProgressTracker {
    /// A tracker for `total_frames` frames, started at `now_ms`.
    pub fn new(total_frames: usize, verbose: bool, now_ms: u64) -> (r: ProgressTracker)
        ensures
            r.total_frames == total_frames,
            r.verbose == verbose,
            r.start_ms == now_ms,
            r.last_update_ms == now_ms,
    {
        ProgressTracker { total_frames, start_ms: now_ms, last_update_ms: now_ms, verbose }
    }

    /// Whether a report is due at `now_ms` with `completed_frames` done: not
    /// while less than the interval has passed since the last report and
    /// frames are left. When it is due, the report time becomes `now_ms`.
    pub fn update(&mut self, completed_frames: usize, now_ms: u64) -> (r: bool)
        ensures
            r == !((if now_ms >= old(self).last_update_ms {
                now_ms - old(self).last_update_ms
            } else {
                0
            }) < PROGRESS_INTERVAL_MS && completed_frames < old(self).total_frames),
            final(self).last_update_ms == if r {
                now_ms
            } else {
                old(self).last_update_ms
            },
            final(self).total_frames == old(self).total_frames,
            final(self).start_ms == old(self).start_ms,
            final(self).verbose == old(self).verbose,
    {
        let since = if now_ms >= self.last_update_ms {
            now_ms - self.last_update_ms
        } else {
            0
        };
        if since < PROGRESS_INTERVAL_MS && completed_frames < self.total_frames {
            return false;
        }
        self.last_update_ms = now_ms;
        true
    }

    /// Milliseconds since the tracker started, at `now_ms`.
    pub fn elapsed_ms(&self, now_ms: u64) -> (r: u64)
        ensures
            r == if now_ms >= self.start_ms {
                now_ms - self.start_ms
            } else {
                0
            },
    {
        if now_ms >= self.start_ms {
            now_ms - self.start_ms
        } else {
            0
        }
    }
}

/// The position of the first `=` in a text, if there is one.
pub open spec fn first_equals(s: Seq<char>, i: nat) -> Option<nat>
    decreases s.len() - i,
{
    if i >= s.len() {
        None
    } else if s[i as int] == '=' {
        Some(i)
    } else {
        first_equals(s, i + 1)
    }
}

/// A `key=value` argument split at its first `=`; `None` without one.
pub open spec fn spec_split_arg(s: Seq<char>) -> Option<(Seq<char>, Seq<char>)> {
    match first_equals(s, 0) {
        Some(k) => Some((s.take(k as int), s.skip(k as int + 1))),
        None => None,
    }
}

/// The UTF-8 encoding of a character other than `=` holds no `=` byte.
proof fn lemma_scalar_no_equals(c: char)
    requires
        c != '=',
    ensures
        forall|j: int| 0 <= j < encode_scalar(c as u32).len() ==> #[trigger] encode_scalar(c as u32)[j] != 61u8,
{
    let v = c as u32;
    assert(v <= 0x7F ==> (v & 0x7F) as u8 != 61u8) by (bit_vector)
        requires
            v != 61,
    ;
    assert((0xC0u8 | ((v >> 6) & 0x1F) as u8) != 61u8) by (bit_vector);
    assert((0xE0u8 | ((v >> 12) & 0x0F) as u8) != 61u8) by (bit_vector);
    assert((0xF0u8 | ((v >> 18) & 0x7) as u8) != 61u8) by (bit_vector);
    assert((0x80u8 | (v & 0x3F) as u8) != 61u8) by (bit_vector);
    assert((0x80u8 | ((v >> 6) & 0x3F) as u8) != 61u8) by (bit_vector);
    assert((0x80u8 | ((v >> 12) & 0x3F) as u8) != 61u8) by (bit_vector);
}

/// A text without `=` encodes to bytes without `=`.
proof fn lemma_no_equals_bytes(s: Seq<char>)
    requires
        forall|i: int| 0 <= i < s.len() ==> s[i] != '=',
    ensures
        forall|j: int| 0 <= j < utf8(s).len() ==> #[trigger] utf8(s)[j] != 61u8,
    decreases s.len(),
{
    if s.len() > 0 {
        lemma_scalar_no_equals(s[0]);
        assert forall|i: int| 0 <= i < s.drop_first().len() implies s.drop_first()[i] != '=' by {
            assert(s.drop_first()[i] == s[i + 1]);
        }
        lemma_no_equals_bytes(s.drop_first());
        let a = encode_scalar(s[0] as u32);
        let b = encode_utf8(s.drop_first());
        assert(utf8(s) == a + b);
        assert forall|j: int| 0 <= j < utf8(s).len() implies #[trigger] utf8(s)[j] != 61u8 by {
            if j < a.len() {
                assert(utf8(s)[j] == a[j]);
            } else {
                assert(utf8(s)[j] == b[j - a.len()]);
                assert(b[j - a.len()] == utf8(s.drop_first())[j - a.len()]);
            }
        }
    }
}

/// Where the first `=` of a text lies in its UTF-8 bytes: the bytes are
/// those of the key, the `=` byte, then those of the value, and the key's
/// bytes hold no `=`. Without `=` in the text there is none in the bytes.
proof fn lemma_split_bytes(s: Seq<char>)
    ensures
        match first_equals(s, 0) {
            Some(k) => {
                &&& utf8(s) == utf8(s.take(k as int)) + seq![61u8] + utf8(s.skip(k as int + 1))
                &&& forall|j: int| 0 <= j < utf8(s.take(k as int)).len() ==> #[trigger] utf8(s.take(k as int))[j] != 61u8
            },
            None => forall|j: int| 0 <= j < utf8(s).len() ==> #[trigger] utf8(s)[j] != 61u8,
        },
{
    lemma_first_equals(s, 0);
    match first_equals(s, 0) {
        Some(k) => {
            let key = s.take(k as int);
            let rest = s.skip(k as int + 1);
            assert(s == key + (seq!['='] + rest));
            lemma_utf8_append(key, seq!['='] + rest);
            lemma_utf8_append(seq!['='], rest);
            assert(utf8(seq!['=']) == seq![61u8]) by {
                let e = seq!['='];
                assert(e.drop_first() == Seq::<char>::empty());
                assert((e[0] as u32) == 61u32);
                assert((61u32 & 0x7Fu32) as u8 == 61u8) by (bit_vector);
                assert(encode_scalar(61u32) == seq![61u8]);
                assert(encode_utf8(e) == encode_scalar(e[0] as u32) + encode_utf8(e.drop_first()));
            }
            lemma_no_equals_bytes(key);
        },
        None => {
            lemma_no_equals_bytes(s);
        },
    }
}

/// The first `=` from position `i` on: no `=` before it, and `=` there.
proof fn lemma_first_equals(s: Seq<char>, i: nat)
    requires
        i <= s.len(),
    ensures
        match first_equals(s, i) {
            Some(k) => i <= k < s.len() && s[k as int] == '=' && forall|j: int|
                i <= j < k ==> s[j] != '=',
            None => forall|j: int| i <= j < s.len() ==> s[j] != '=',
        },
    decreases s.len() - i,
{
    if i < s.len() && s[i as int] != '=' {
        lemma_first_equals(s, i + 1);
    }
}

/// Splits a `key=value` argument at its first `=`; `None` when it has none.
pub fn split_arg(arg: &str) -> (r: Option<(String, String)>)
    ensures
        match spec_split_arg(arg@) {
            Some((k, v)) => r matches Some((a, b)) && a@ == k && b@ == v,
            None => r is None,
        },
{
    let bytes = arg.as_bytes();
    proof {
        lemma_split_bytes(arg@);
    }
    let mut i: usize = 0;
    while i < bytes.len() && bytes[i] != 61u8
        invariant
            i <= bytes@.len(),
            bytes@ == utf8(arg@),
            forall|j: int| 0 <= j < i ==> bytes@[j] != 61u8,
        decreases bytes@.len() - i,
    {
        i = i + 1;
    }
    if i == bytes.len() {
        proof {
            if let Some(k) = first_equals(arg@, 0) {
                let n = utf8(arg@.take(k as int)).len();
                assert(bytes@[n as int] == 61u8);
            }
        }
        return None;
    }
    let ghost k = first_equals(arg@, 0)->0;
    proof {
        let n = utf8(arg@.take(k as int)).len();
        if first_equals(arg@, 0) is None {
            assert(bytes@[i as int] != 61u8);
        }
        if i < n {
            assert(bytes@[i as int] == utf8(arg@.take(k as int))[i as int]);
        }
        if i > n {
            assert(bytes@[n as int] == 61u8);
        }
        assert(i == n);
        assert(bytes@.subrange(0, i as int) == utf8(arg@.take(k as int)));
        assert(bytes@.subrange(i + 1, bytes@.len() as int) == utf8(arg@.skip(k as int + 1)));
    }
    let key_bytes = vstd::slice::slice_to_vec(vstd::slice::slice_subrange(bytes, 0, i));
    let value_bytes = vstd::slice::slice_to_vec(
        vstd::slice::slice_subrange(bytes, i + 1, bytes.len()),
    );
    let key = text_from_utf8(key_bytes, Ghost(arg@.take(k as int)));
    let value = text_from_utf8(value_bytes, Ghost(arg@.skip(k as int + 1)));
    Some((key, value))
}

/// Why the script arguments could not be turned into script variables.
#[derive(Debug, Clone, PartialEq, Eq)]
pub enum ScriptArgError {
    /// An argument has no `=`.
    InvalidFormat(String),
    /// A variable could not be set under its name.
    SetVariable(String, MapError),
}

/// The first argument without `=`, from position `i` on.
pub open spec fn first_unsplit(args: Seq<Seq<char>>, i: nat) -> Option<nat>
    decreases args.len() - i,
{
    if i >= args.len() {
        None
    } else if spec_split_arg(args[i as int]) is None {
        Some(i)
    } else {
        first_unsplit(args, i + 1)
    }
}

/// The variables of the first `n` arguments, set one after the other as
/// strings under their names; the error of the first name that cannot be set.
pub open spec fn script_entries(args: Seq<Seq<char>>, n: nat) -> Result<Entries, (Seq<char>, MapError)>
    decreases n,
{
    if n == 0 {
        Ok(Seq::empty())
    } else {
        match script_entries(args, (n - 1) as nat) {
            Err(e) => Err(e),
            Ok(m) => {
                let (k, v) = spec_split_arg(args[n - 1])->0;
                match key_result(k) {
                    Err(e) => Err((k, e)),
                    Ok(_) => Ok(
                        with_entry(
                            m,
                            k,
                            Property::Datas(seq![DataItem { bytes: utf8(v), hint: DataType::Unknown }]),
                        ),
                    ),
                }
            },
        }
    }
}

/// The pair is the argument split at its first `=`.
pub open spec fn split_as(arg: Seq<char>, p: (String, String)) -> bool {
    match spec_split_arg(arg) {
        Some((k, v)) => p.0@ == k && p.1@ == v,
        None => false,
    }
}

/// Once setting the variables fails, it fails the same way with more arguments.
proof fn lemma_script_entries_err_stays(args: Seq<Seq<char>>, n: nat, m: nat)
    requires
        n <= m,
        script_entries(args, n) is Err,
    ensures
        script_entries(args, m) == script_entries(args, n),
    decreases m - n,
{
    if n < m {
        lemma_script_entries_err_stays(args, n, (m - 1) as nat);
    }
}

/// The script variables given as `key=value` arguments: each value is set as
/// a string under its key, a later value replacing an earlier one. Fails on
/// the first argument without `=`, else on the first key that is not valid.
pub fn script_variables(args: &Vec<String>) -> (r: Result<OwnedMap, ScriptArgError>)
    ensures
        ({
            let texts = args@.map_values(|a: String| a@);
            match first_unsplit(texts, 0) {
                Some(i) => r matches Err(ScriptArgError::InvalidFormat(a)) && a@ == texts[i as int],
                None => match script_entries(texts, texts.len()) {
                    Ok(m) => r matches Ok(map) && map.wf() && map@ == m,
                    Err((k, e)) => r matches Err(ScriptArgError::SetVariable(a, e2)) && a@ == k
                        && e2 == e,
                },
            }
        }),
{
    let ghost texts = args@.map_values(|a: String| a@);
    let mut pairs: Vec<(String, String)> = Vec::new();
    let mut i: usize = 0;
    while i < args.len()
        invariant
            i <= args@.len(),
            texts == args@.map_values(|a: String| a@),
            pairs@.len() == i,
            first_unsplit(texts, 0) == first_unsplit(texts, i as nat),
            forall|j: int|
                0 <= j < i ==> split_as(texts[j], #[trigger] pairs@[j]),
        decreases args@.len() - i,
    {
        assert(texts[i as int] == args@[i as int]@);
        match split_arg(args[i].as_str()) {
            Some(p) => {
                let ghost before = pairs@;
                pairs.push(p);
                assert forall|t: int| 0 <= t < i + 1 implies split_as(texts[t], #[trigger] pairs@[t]) by {
                    if t < i {
                        assert(pairs@[t] == before[t]);
                    }
                }
            },
            None => {
                assert(first_unsplit(texts, i as nat) == Some(i as nat));
                return Err(ScriptArgError::InvalidFormat(args[i].clone()));
            },
        }
        i = i + 1;
    }
    assert(first_unsplit(texts, i as nat) is None);
    assert(texts.len() == args@.len());
    let mut map = OwnedMap::new();
    let mut j: usize = 0;
    while j < pairs.len()
        invariant
            j <= pairs@.len(),
            pairs@.len() == texts.len(),
            texts == args@.map_values(|a: String| a@),
            first_unsplit(texts, 0) is None,
            forall|t: int|
                0 <= t < pairs@.len() ==> split_as(texts[t], #[trigger] pairs@[t]),
            map.wf(),
            script_entries(texts, j as nat) == Ok::<Entries, (Seq<char>, MapError)>(map@),
        decreases pairs@.len() - j,
    {
        let key = pairs[j].0.as_str();
        let value = pairs[j].1.as_str();
        match map.set_data(key, value.as_bytes()) {
            Ok(()) => {},
            Err(e) => {
                proof {
                    assert(split_as(texts[j as int], pairs@[j as int]));
                    assert(script_entries(texts, (j + 1) as nat) == Err::<Entries, (Seq<char>, MapError)>((pairs@[j as int].0@, e)));
                    lemma_script_entries_err_stays(texts, (j + 1) as nat, texts.len());
                }
                return Err(ScriptArgError::SetVariable(pairs[j].0.clone(), e));
            },
        }
        j = j + 1;
    }
    Ok(map)
}

/// The name shown for a format: the one given, or `Unknown`.
pub open spec fn shown_name(name: Option<Seq<char>>) -> Seq<char> {
    match name {
        Some(n) => n,
        None => "Unknown"@,
    }
}

/// The text of an optional name.
pub open spec fn name_view(name: Option<&String>) -> Option<Seq<char>> {
    match name {
        Some(n) => Some(n@),
        None => None,
    }
}

/// The lines describing a video clip.
pub open spec fn video_info_text(vi: VideoInfo, name: Option<Seq<char>>) -> Seq<char> {
    "Width: "@ + decimal_text(vi.width as int) + "\n"@ + "Height: "@ + decimal_text(vi.height as int)
        + "\n"@ + "Frames: "@ + decimal_text(vi.num_frames as int) + "\n"@ + "FPS: "@
        + decimal_text(vi.fps_num as int) + "/"@ + decimal_text(vi.fps_den as int) + "\n"@
        + "Format Name: "@ + shown_name(name) + "\n"@ + "Color Family: "@
        + vi.format.color_family.spec_name() + "\n"@ + "Sample Type: "@
        + vi.format.sample_type.spec_name() + "\n"@ + "Bits Per Sample: "@ + decimal_text(
        vi.format.bits_per_sample as int,
    ) + "\n"@ + "Bytes Per Sample: "@ + decimal_text(vi.format.bytes_per_sample as int) + "\n"@
        + "Subsampling W: "@ + decimal_text(vi.format.sub_sampling_w as int) + "\n"@
        + "Subsampling H: "@ + decimal_text(vi.format.sub_sampling_h as int) + "\n"@
        + "Num Planes: "@ + decimal_text(vi.format.num_planes as int) + "\n"@
}

/// The lines describing an audio clip.
pub open spec fn audio_info_text(ai: AudioInfo, name: Option<Seq<char>>) -> Seq<char> {
    "Sample Rate: "@ + decimal_text(ai.sample_rate as int) + "\n"@ + "Num Samples: "@
        + decimal_text(ai.num_samples as int) + "\n"@ + "Num Channels: "@ + decimal_text(
        ai.format.num_channels as int,
    ) + "\n"@ + "Channel Layout: "@ + channel_layout_text(ai.format.channel_layout@) + "\n"@
        + "Format Name: "@ + shown_name(name) + "\n"@ + "Sample Type: "@
        + ai.format.sample_type.spec_name() + "\n"@ + "Bits Per Sample: "@ + decimal_text(
        ai.format.bits_per_sample as int,
    ) + "\n"@ + "Bytes Per Sample: "@ + decimal_text(ai.format.bytes_per_sample as int) + "\n"@
}

/// The description of an output node: its video information if it has
/// some, else its audio information, else nothing. `format_name` is the name
/// of the clip's format, when one can be had.
pub fn node_info_text(video: Option<&VideoInfo>, audio: Option<&AudioInfo>, format_name: Option<&String>) -> (r: String)
    ensures
        r@ == match (video, audio) {
            (Some(vi), _) => video_info_text(*vi, name_view(format_name)),
            (None, Some(ai)) => audio_info_text(*ai, name_view(format_name)),
            (None, None) => Seq::<char>::empty(),
        },
{
    let mut t = TextBuf::new();
    let name: &str = match format_name {
        Some(n) => n.as_str(),
        None => "Unknown",
    };
    match video {
        Some(vi) => {
            t.push_str("Width: ");
            t.push_i64(vi.width as i64);
            t.push_str("\n");
            t.push_str("Height: ");
            t.push_i64(vi.height as i64);
            t.push_str("\n");
            t.push_str("Frames: ");
            t.push_i64(vi.num_frames as i64);
            t.push_str("\n");
            t.push_str("FPS: ");
            t.push_i64(vi.fps_num);
            t.push_str("/");
            t.push_i64(vi.fps_den);
            t.push_str("\n");
            t.push_str("Format Name: ");
            t.push_str(name);
            t.push_str("\n");
            t.push_str("Color Family: ");
            t.push_str(vi.format.color_family.name());
            t.push_str("\n");
            t.push_str("Sample Type: ");
            t.push_str(vi.format.sample_type.name());
            t.push_str("\n");
            t.push_str("Bits Per Sample: ");
            t.push_i64(vi.format.bits_per_sample as i64);
            t.push_str("\n");
            t.push_str("Bytes Per Sample: ");
            t.push_i64(vi.format.bytes_per_sample as i64);
            t.push_str("\n");
            t.push_str("Subsampling W: ");
            t.push_i64(vi.format.sub_sampling_w as i64);
            t.push_str("\n");
            t.push_str("Subsampling H: ");
            t.push_i64(vi.format.sub_sampling_h as i64);
            t.push_str("\n");
            t.push_str("Num Planes: ");
            t.push_i64(vi.format.num_planes as i64);
            t.push_str("\n");
        },
        None => match audio {
            Some(ai) => {
                t.push_str("Sample Rate: ");
                t.push_i64(ai.sample_rate as i64);
                t.push_str("\n");
                t.push_str("Num Samples: ");
                t.push_i64(ai.num_samples);
                t.push_str("\n");
                t.push_str("Num Channels: ");
                t.push_i64(ai.format.num_channels as i64);
                t.push_str("\n");
                t.push_str("Channel Layout: ");
                let layout = ai.format.channel_layout.to_text();
                t.push_str(layout.as_str());
                t.push_str("\n");
                t.push_str("Format Name: ");
                t.push_str(name);
                t.push_str("\n");
                t.push_str("Sample Type: ");
                t.push_str(ai.format.sample_type.name());
                t.push_str("\n");
                t.push_str("Bits Per Sample: ");
                t.push_i64(ai.format.bits_per_sample as i64);
                t.push_str("\n");
                t.push_str("Bytes Per Sample: ");
                t.push_i64(ai.format.bytes_per_sample as i64);
                t.push_str("\n");
            },
            None => {},
        },
    }
    t.into_string()
}

} // verus!

verus! {

/// One line of a node description: the label, the value it names, a newline.
pub open spec fn info_line(label: Seq<char>, value: Seq<char>) -> Seq<char> {
    label + value + "\n"@
}

/// Appending a label, a value and a newline appends their line.
proof fn lemma_line_step(x: Seq<char>, label: Seq<char>, value: Seq<char>)
    ensures
        x + label + value + "\n"@ == x + info_line(label, value),
{
    assert(x + label + value + "\n"@ =~= x + info_line(label, value));
}

/// Appending a label, a value in three parts and a newline appends their line.
proof fn lemma_line_step3(x: Seq<char>, label: Seq<char>, a: Seq<char>, b: Seq<char>, c: Seq<char>)
    ensures
        x + label + a + b + c + "\n"@ == x + info_line(label, a + b + c),
{
    assert(x + label + a + b + c + "\n"@ =~= x + info_line(label, a + b + c));
}

/// The video description is its lines in order, each a label and the field
/// it names: size, frame count, frame rate, format name, then the format's
/// colour family, sample type, bits and bytes per sample, subsampling and
/// plane count.
pub proof fn lemma_video_info_lines(vi: VideoInfo, name: Option<Seq<char>>)
    ensures
        video_info_text(vi, name) == info_line("Width: "@, decimal_text(vi.width as int))
            + info_line("Height: "@, decimal_text(vi.height as int)) + info_line(
            "Frames: "@,
            decimal_text(vi.num_frames as int),
        ) + info_line("FPS: "@, decimal_text(vi.fps_num as int) + "/"@ + decimal_text(vi.fps_den as int))
            + info_line("Format Name: "@, shown_name(name)) + info_line(
            "Color Family: "@,
            vi.format.color_family.spec_name(),
        ) + info_line("Sample Type: "@, vi.format.sample_type.spec_name()) + info_line(
            "Bits Per Sample: "@,
            decimal_text(vi.format.bits_per_sample as int),
        ) + info_line("Bytes Per Sample: "@, decimal_text(vi.format.bytes_per_sample as int))
            + info_line("Subsampling W: "@, decimal_text(vi.format.sub_sampling_w as int))
            + info_line("Subsampling H: "@, decimal_text(vi.format.sub_sampling_h as int))
            + info_line("Num Planes: "@, decimal_text(vi.format.num_planes as int)),
{
    let nl = "\n"@;
    let l0 = info_line("Width: "@, decimal_text(vi.width as int));
    let p1 = l0 + "Height: "@ + decimal_text(vi.height as int) + nl;
    lemma_line_step(l0, "Height: "@, decimal_text(vi.height as int));
    let p2 = p1 + "Frames: "@ + decimal_text(vi.num_frames as int) + nl;
    lemma_line_step(p1, "Frames: "@, decimal_text(vi.num_frames as int));
    let p3 = p2 + "FPS: "@ + decimal_text(vi.fps_num as int) + "/"@ + decimal_text(vi.fps_den as int) + nl;
    lemma_line_step3(p2, "FPS: "@, decimal_text(vi.fps_num as int), "/"@, decimal_text(vi.fps_den as int));
    let p4 = p3 + "Format Name: "@ + shown_name(name) + nl;
    lemma_line_step(p3, "Format Name: "@, shown_name(name));
    let p5 = p4 + "Color Family: "@ + vi.format.color_family.spec_name() + nl;
    lemma_line_step(p4, "Color Family: "@, vi.format.color_family.spec_name());
    let p6 = p5 + "Sample Type: "@ + vi.format.sample_type.spec_name() + nl;
    lemma_line_step(p5, "Sample Type: "@, vi.format.sample_type.spec_name());
    let p7 = p6 + "Bits Per Sample: "@ + decimal_text(vi.format.bits_per_sample as int) + nl;
    lemma_line_step(p6, "Bits Per Sample: "@, decimal_text(vi.format.bits_per_sample as int));
    let p8 = p7 + "Bytes Per Sample: "@ + decimal_text(vi.format.bytes_per_sample as int) + nl;
    lemma_line_step(p7, "Bytes Per Sample: "@, decimal_text(vi.format.bytes_per_sample as int));
    let p9 = p8 + "Subsampling W: "@ + decimal_text(vi.format.sub_sampling_w as int) + nl;
    lemma_line_step(p8, "Subsampling W: "@, decimal_text(vi.format.sub_sampling_w as int));
    let p10 = p9 + "Subsampling H: "@ + decimal_text(vi.format.sub_sampling_h as int) + nl;
    lemma_line_step(p9, "Subsampling H: "@, decimal_text(vi.format.sub_sampling_h as int));
    let p11 = p10 + "Num Planes: "@ + decimal_text(vi.format.num_planes as int) + nl;
    lemma_line_step(p10, "Num Planes: "@, decimal_text(vi.format.num_planes as int));
    assert(video_info_text(vi, name) == p11);
}

/// The audio description is its lines in order, each a label and the field
/// it names: sample rate, sample count, channel count and layout, format
/// name, then the format's sample type and bits and bytes per sample.
pub proof fn lemma_audio_info_lines(ai: AudioInfo, name: Option<Seq<char>>)
    ensures
        audio_info_text(ai, name) == info_line("Sample Rate: "@, decimal_text(ai.sample_rate as int))
            + info_line("Num Samples: "@, decimal_text(ai.num_samples as int)) + info_line(
            "Num Channels: "@,
            decimal_text(ai.format.num_channels as int),
        ) + info_line("Channel Layout: "@, channel_layout_text(ai.format.channel_layout@))
            + info_line("Format Name: "@, shown_name(name)) + info_line(
            "Sample Type: "@,
            ai.format.sample_type.spec_name(),
        ) + info_line("Bits Per Sample: "@, decimal_text(ai.format.bits_per_sample as int))
            + info_line("Bytes Per Sample: "@, decimal_text(ai.format.bytes_per_sample as int)),
{
    let nl = "\n"@;
    let l0 = info_line("Sample Rate: "@, decimal_text(ai.sample_rate as int));
    let p1 = l0 + "Num Samples: "@ + decimal_text(ai.num_samples as int) + nl;
    lemma_line_step(l0, "Num Samples: "@, decimal_text(ai.num_samples as int));
    let p2 = p1 + "Num Channels: "@ + decimal_text(ai.format.num_channels as int) + nl;
    lemma_line_step(p1, "Num Channels: "@, decimal_text(ai.format.num_channels as int));
    let p3 = p2 + "Channel Layout: "@ + channel_layout_text(ai.format.channel_layout@) + nl;
    lemma_line_step(p2, "Channel Layout: "@, channel_layout_text(ai.format.channel_layout@));
    let p4 = p3 + "Format Name: "@ + shown_name(name) + nl;
    lemma_line_step(p3, "Format Name: "@, shown_name(name));
    let p5 = p4 + "Sample Type: "@ + ai.format.sample_type.spec_name() + nl;
    lemma_line_step(p4, "Sample Type: "@, ai.format.sample_type.spec_name());
    let p6 = p5 + "Bits Per Sample: "@ + decimal_text(ai.format.bits_per_sample as int) + nl;
    lemma_line_step(p5, "Bits Per Sample: "@, decimal_text(ai.format.bits_per_sample as int));
    let p7 = p6 + "Bytes Per Sample: "@ + decimal_text(ai.format.bytes_per_sample as int) + nl;
    lemma_line_step(p6, "Bytes Per Sample: "@, decimal_text(ai.format.bytes_per_sample as int));
    assert(audio_info_text(ai, name) == p7);
}

} // verus!
