//! ffmpeg: the command line it is started with and the progress lines it prints.
use vstd::prelude::*;
use crate::decimal::{parse_u64, parse_unsigned};
use crate::pattern::{regex_accepts, regex_captures_all, regex_captures_every};
use crate::text::text_equals;

verus! {

/// What ffmpeg is going to do next.
#[derive(Debug)]
pub enum Status {
    /// ffmpeg will continue emitting progress events.
    Continue,
    /// ffmpeg has finished processing; the stream ends after this event.
    End,
}

impl Default for Status {
    fn default() -> (r: Self)
        ensures
            r == Status::Continue,
    {
        Status::Continue
    }
}

/// The fields of one progress line of ffmpeg.
///
/// Integer fields are read here; the floating-point fields (`fps`, `speed`)
/// are kept as the texts that were found, in order, for the caller to read
/// as numbers. The text of `speed` has its unit (its last character) cut off.
#[derive(Debug)]
pub struct ProgressReport {
    /// What frame ffmpeg is on.
    pub frame: Option<u64>,
    /// Every `fps` value, in order.
    pub fps_texts: Vec<String>,
    /// How much data ffmpeg has output so far, in bytes.
    pub total_size: Option<u64>,
    /// How far ffmpeg has processed, in microseconds.
    pub out_time_us: Option<u64>,
    /// How many frames were duplicated.
    pub dup_frames: Option<u64>,
    /// How many frames were dropped.
    pub drop_frames: Option<u64>,
    /// Every `speed` value without its last character, in order.
    pub speed_texts: Vec<String>,
    /// What ffmpeg will do now.
    pub status: Status,
}

/// The mathematical content of a `ProgressReport`.
pub struct ProgressView {
    pub frame: Option<u64>,
    pub fps_texts: Seq<Seq<char>>,
    pub total_size: Option<u64>,
    pub out_time_us: Option<u64>,
    pub dup_frames: Option<u64>,
    pub drop_frames: Option<u64>,
    pub speed_texts: Seq<Seq<char>>,
    pub status: Status,
}

impl View for ProgressReport {
    type V = ProgressView;

    open spec fn view(&self) -> ProgressView {
        ProgressView {
            frame: self.frame,
            fps_texts: self.fps_texts.deep_view(),
            total_size: self.total_size,
            out_time_us: self.out_time_us,
            dup_frames: self.dup_frames,
            drop_frames: self.drop_frames,
            speed_texts: self.speed_texts.deep_view(),
            status: self.status,
        }
    }
}

/// A report with nothing read yet.
pub open spec fn empty_progress() -> ProgressView {
    ProgressView {
        frame: None,
        fps_texts: Seq::empty(),
        total_size: None,
        out_time_us: None,
        dup_frames: None,
        drop_frames: None,
        speed_texts: Seq::empty(),
        status: Status::Continue,
    }
}

/// A value read as `u64`, or the earlier value when it does not read.
pub open spec fn read_or_keep(earlier: Option<u64>, value: Seq<char>) -> Option<u64> {
    match parse_unsigned(value, u64::MAX as nat) {
        Some(v) => Some(v as u64),
        None => earlier,
    }
}

/// The report after one more `key=value` pair; unknown keys change nothing.
pub open spec fn apply_pair(p: ProgressView, key: Seq<char>, value: Seq<char>) -> ProgressView {
    if key == "frame"@ {
        ProgressView { frame: read_or_keep(p.frame, value), ..p }
    } else if key == "fps"@ {
        ProgressView { fps_texts: p.fps_texts.push(value), ..p }
    } else if key == "total_size"@ {
        ProgressView { total_size: read_or_keep(p.total_size, value), ..p }
    } else if key == "out_time_us"@ {
        ProgressView { out_time_us: read_or_keep(p.out_time_us, value), ..p }
    } else if key == "dup"@ || key == "dup_frames"@ {
        ProgressView { dup_frames: read_or_keep(p.dup_frames, value), ..p }
    } else if key == "drop"@ || key == "drop_frames"@ {
        ProgressView { drop_frames: read_or_keep(p.drop_frames, value), ..p }
    } else if key == "speed"@ {
        ProgressView { speed_texts: p.speed_texts.push(value.drop_last()), ..p }
    } else if key == "progress"@ {
        ProgressView {
            status: if value == "continue"@ {
                Status::Continue
            } else {
                Status::End
            },
            ..p
        }
    } else {
        p
    }
}

/// The report after all pairs, applied in order.
pub open spec fn progress_after(pairs: Seq<(Seq<char>, Seq<char>)>) -> ProgressView
    decreases pairs.len(),
{
    if pairs.len() == 0 {
        empty_progress()
    } else {
        let last = pairs.last();
        apply_pair(progress_after(pairs.drop_last()), last.0, last.1)
    }
}

/// A `speed` value can lose its last byte only when that byte is a whole
/// character: it is non-empty and ends in an ASCII character.
pub open spec fn speed_values_well_formed(pairs: Seq<(Seq<char>, Seq<char>)>) -> bool {
    forall|i: int|
        0 <= i < pairs.len() && (#[trigger] pairs[i]).0 == "speed"@ ==> pairs[i].1.len() > 0
            && (pairs[i].1.last() as int) < 128
}

fn read_or_keep_value(earlier: Option<u64>, value: &str) -> (r: Option<u64>)
    ensures
        r == read_or_keep(earlier, value@),
{
    match parse_u64(value) {
        Some(v) => Some(v),
        None => earlier,
    }
}

/// Reads `key=value` pairs into a progress report.
pub fn progress_from_pairs(pairs: &Vec<(String, String)>) -> (r: ProgressReport)
    requires
        speed_values_well_formed(pairs.deep_view()),
    ensures
        r@ == progress_after(pairs.deep_view()),
{
    let mut report = ProgressReport {
        frame: None,
        fps_texts: Vec::new(),
        total_size: None,
        out_time_us: None,
        dup_frames: None,
        drop_frames: None,
        speed_texts: Vec::new(),
        status: Status::default(),
    };
    assert(report@.fps_texts =~= Seq::<Seq<char>>::empty());
    assert(report@.speed_texts =~= Seq::<Seq<char>>::empty());
    assert(pairs.deep_view().take(0) =~= Seq::<(Seq<char>, Seq<char>)>::empty());
    let mut i: usize = 0;
    while i < pairs.len()
        invariant
            i <= pairs.len(),
            speed_values_well_formed(pairs.deep_view()),
            report@ == progress_after(pairs.deep_view().take(i as int)),
        decreases pairs.len() - i,
    {
        let pair = &pairs[i];
        let key = pair.0.as_str();
        let value = pair.1.as_str();
        let ghost before = report@;
        let ghost all = pairs.deep_view();
        assert(all[i as int] == (key@, value@));
        assert(all.take(i + 1).drop_last() =~= all.take(i as int));
        assert(all.take(i + 1).last() == (key@, value@));
        if text_equals(key, "frame") {
            report.frame = read_or_keep_value(report.frame, value);
        } else if text_equals(key, "fps") {
            report.fps_texts.push(value.to_owned());
            assert(report@.fps_texts =~= before.fps_texts.push(value@));
        } else if text_equals(key, "total_size") {
            report.total_size = read_or_keep_value(report.total_size, value);
        } else if text_equals(key, "out_time_us") {
            report.out_time_us = read_or_keep_value(report.out_time_us, value);
        } else if text_equals(key, "dup") || text_equals(key, "dup_frames") {
            report.dup_frames = read_or_keep_value(report.dup_frames, value);
        } else if text_equals(key, "drop") || text_equals(key, "drop_frames") {
            report.drop_frames = read_or_keep_value(report.drop_frames, value);
        } else if text_equals(key, "speed") {
            assert(all[i as int].0 == "speed"@);
            let n = value.unicode_len();
            let number = value.substring_char(0, n - 1);
            assert(number@ =~= value@.drop_last());
            report.speed_texts.push(number.to_owned());
            assert(report@.speed_texts =~= before.speed_texts.push(value@.drop_last()));
        } else if text_equals(key, "progress") {
            if text_equals(value, "continue") {
                report.status = Status::Continue;
            } else {
                report.status = Status::End;
            }
        }
        i = i + 1;
    }
    assert(pairs.deep_view().take(pairs.len() as int) =~= pairs.deep_view());
    report
}

/// `key=value` with a word as the key and the first run of non-space
/// characters after the `=` (and any spaces) as the value.
pub const PROGRESS_PATTERN: &'static str = r"(?P<key>\w+)=\s*(?P<value>\S+)";

/// The group names of `PROGRESS_PATTERN`.
pub open spec fn progress_group_names() -> Seq<Seq<char>> {
    seq!["key"@, "value"@]
}

/// The `(key, value)` pairs of the matches, when every match has both groups.
pub open spec fn captured_pairs(found: Seq<Seq<Option<Seq<char>>>>) -> Option<
    Seq<(Seq<char>, Seq<char>)>,
> {
    if forall|i: int|
        0 <= i < found.len() ==> (#[trigger] found[i]).len() == 2 && found[i][0] is Some
            && found[i][1] is Some {
        Some(Seq::new(found.len(), |i: int| (found[i][0]->Some_0, found[i][1]->Some_0)))
    } else {
        None
    }
}

/// The report read from one line of ffmpeg's output, if it can be read:
/// `None` when the pattern is rejected, when a match lacks a group, or when a
/// `speed` value does not end in an ASCII character.
pub open spec fn progress_of_line(line: Seq<char>) -> Option<ProgressView> {
    if !regex_accepts(PROGRESS_PATTERN@) {
        None
    } else {
        match captured_pairs(regex_captures_every(PROGRESS_PATTERN@, line, progress_group_names())) {
            Some(pairs) => if speed_values_well_formed(pairs) {
                Some(progress_after(pairs))
            } else {
                None
            },
            None => None,
        }
    }
}

/// Reads the `key=value` pairs of one line of ffmpeg's output.
pub fn parse_line(line: &str) -> (r: Option<ProgressReport>)
    ensures
        match progress_of_line(line@) {
            Some(p) => r matches Some(report) && report@ == p,
            None => r is None,
        },
{
    let names: [&str; 2] = ["key", "value"];
    assert(names.deep_view() =~= progress_group_names());
    let found = match regex_captures_all(PROGRESS_PATTERN, line, &names) {
        Some(found) => found,
        None => return None,
    };
    let ghost all = found.deep_view();
    assert(all == regex_captures_every(PROGRESS_PATTERN@, line@, progress_group_names()));
    let mut pairs: Vec<(String, String)> = Vec::new();
    let mut i: usize = 0;
    while i < found.len()
        invariant
            i <= found.len(),
            all == found.deep_view(),
            regex_accepts(PROGRESS_PATTERN@),
            all == regex_captures_every(PROGRESS_PATTERN@, line@, progress_group_names()),
            forall|j: int| 0 <= j < found.len() ==> (#[trigger] found[j]).len() == 2,
            pairs@.len() == i,
            forall|j: int|
                0 <= j < i ==> all[j][0] == Some((#[trigger] pairs@[j]).0@) && all[j][1] == Some(
                    pairs@[j].1@,
                ),
        decreases found.len() - i,
    {
        let groups = &found[i];
        assert(all[i as int] == groups.deep_view());
        let key = match &groups[0] {
            Some(k) => k.clone(),
            None => {
                assert(captured_pairs(all) is None);
                return None;
            },
        };
        let value = match &groups[1] {
            Some(v) => v.clone(),
            None => {
                assert(captured_pairs(all) is None);
                return None;
            },
        };
        pairs.push((key, value));
        i = i + 1;
    }
    assert forall|j: int| 0 <= j < all.len() implies (#[trigger] all[j]).len() == 2
        && all[j][0] is Some && all[j][1] is Some by {
        assert(all[j] == found[j].deep_view());
        assert(pairs@[j].0@ == pairs@[j].0@);
    }
    assert(pairs.deep_view() =~= Seq::new(
        all.len(),
        |j: int| (all[j][0]->Some_0, all[j][1]->Some_0),
    ));
    assert(captured_pairs(all) == Some(pairs.deep_view()));
    let mut k: usize = 0;
    while k < pairs.len()
        invariant
            k <= pairs.len(),
            regex_accepts(PROGRESS_PATTERN@),
            captured_pairs(regex_captures_every(PROGRESS_PATTERN@, line@, progress_group_names()))
                == Some(pairs.deep_view()),
            forall|j: int|
                0 <= j < k && (#[trigger] pairs.deep_view()[j]).0 == "speed"@ ==> pairs.deep_view()[j].1.len() > 0
                    && (pairs.deep_view()[j].1.last() as int) < 128,
        decreases pairs.len() - k,
    {
        let key = pairs[k].0.as_str();
        let value = pairs[k].1.as_str();
        assert(pairs.deep_view()[k as int] == (key@, value@));
        if text_equals(key, "speed") {
            let n = value.unicode_len();
            if n == 0 {
                return None;
            }
            let last = value.get_char(n - 1);
            if (last as u32) >= 128 {
                return None;
            }
        }
        k = k + 1;
    }
    Some(progress_from_pairs(&pairs))
}

/// Runs ffmpeg with its progress statistics on, overwriting outputs, quiet.
pub struct FfmpegCaller {}

/// The same caller under its other name.
pub type FFmpegCaller = FfmpegCaller;

/// The options every ffmpeg run starts with.
pub open spec fn ffmpeg_base_args() -> Seq<Seq<char>> {
    seq!["-stats"@, "-y"@, "-loglevel"@, "quiet"@]
}

impl FfmpegCaller {
    /// The full argument list of an ffmpeg run: the fixed options, then `args`.
    pub fn command_args(args: &[&str]) -> (r: Vec<String>)
        ensures
            r.deep_view() == ffmpeg_base_args() + args.deep_view(),
    {
        let mut out: Vec<String> = Vec::new();
        out.push("-stats".to_owned());
        out.push("-y".to_owned());
        out.push("-loglevel".to_owned());
        out.push("quiet".to_owned());
        let ghost base = ffmpeg_base_args();
        let mut i: usize = 0;
        while i < args.len()
            invariant
                i <= args.len(),
                out@.len() == 4 + i,
                forall|j: int| 0 <= j < 4 ==> (#[trigger] out@[j])@ == base[j],
                forall|j: int| 0 <= j < i ==> (#[trigger] out@[4 + j])@ == args@[j]@,
            decreases args.len() - i,
        {
            out.push(args[i].to_owned());
            i = i + 1;
        }
        assert(out.deep_view() =~= ffmpeg_base_args() + args.deep_view()) by {
            assert forall|j: int| 0 <= j < out@.len() implies out.deep_view()[j] == (
            ffmpeg_base_args() + args.deep_view())[j] by {
                if j >= 4 {
                    assert(out@[4 + (j - 4)]@ == args@[j - 4]@);
                }
            }
        }
        out
    }
}

} // verus!
