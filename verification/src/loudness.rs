//! Audio enhancement in two passes: a first ffmpeg run measures the loudness of
//! the speech after a high-pass at 80 Hz, a low-pass at 12 kHz and a gentle
//! presence lift of 1.5 dB around 1.5 kHz; the second run applies the same
//! filters and a linear loudness correction to the target from those measurements.

use vstd::prelude::*;
use crate::commands::FfmpegEditor;
use crate::config::views;
use crate::text::{chars_of, find, find_chars, float_literal_chars, index_of, is_float_literal,
    lemma_find_bound, lemma_index_of, occurs_at, string_of};

verus! {

/// The shaping filters applied before the loudness correction.
pub open spec fn shaping_filters() -> Seq<char> {
    "highpass=f=80,lowpass=f=12000,equalizer=f=1500:t=o:w=2:g=1.5"@
}

/// The measuring pass's filter chain for a target loudness (LUFS, as ffmpeg reads it).
pub open spec fn measure_filter(target: Seq<char>) -> Seq<char> {
    shaping_filters() + ",loudnorm=I="@ + target + ":TP=-1:LRA=11:print_format=json"@
}

/// The ffmpeg arguments of the measuring pass: the report goes to stderr, no output
/// file is written.
pub open spec fn measure_argv(input: Seq<char>, target: Seq<char>) -> Seq<Seq<char>> {
    seq!["-i"@, input, "-af"@, measure_filter(target), "-f"@, "null"@, "-"@]
}

/// What the measuring pass reports, each value as ffmpeg printed it.
pub struct LoudnessReport {
    pub input_i: String,
    pub input_tp: String,
    pub input_lra: String,
    pub input_thresh: String,
    pub target_offset: String,
}

/// The text between the first two double quotes of `s`, if it has two.
pub open spec fn first_quoted(s: Seq<char>) -> Option<Seq<char>> {
    match index_of(s, '"') {
        Some(a) => match index_of(s.skip(a + 1), '"') {
            Some(b) => Some(s.skip(a + 1).take(b)),
            None => None,
        },
        None => None,
    }
}

/// The value the report gives for `key`: the quoted text after the first quoted
/// `key`, when it is a number.
pub open spec fn report_value(report: Seq<char>, key: Seq<char>) -> Option<Seq<char>> {
    let pat = "\""@ + key + "\""@;
    match find(report, pat) {
        Some(p) => match first_quoted(report.skip(p + pat.len())) {
            Some(v) => if is_float_literal(v) {
                Some(v)
            } else {
                None
            },
            None => None,
        },
        None => None,
    }
}

/// The view of a report.
pub open spec fn report_view(r: LoudnessReport) -> Seq<Seq<char>> {
    seq![r.input_i@, r.input_tp@, r.input_lra@, r.input_thresh@, r.target_offset@]
}

/// The keys read from the report, in the order of `report_view`.
pub open spec fn report_keys() -> Seq<Seq<char>> {
    seq!["input_i"@, "input_tp"@, "input_lra"@, "input_thresh"@, "target_offset"@]
}

/// Whether every key has a value in the report.
pub open spec fn report_complete(report: Seq<char>) -> bool {
    forall|k: int| 0 <= k < 5 ==> #[trigger] report_value(report, report_keys()[k]) is Some
}

fn index_from(v: &Vec<char>, from: usize, c: char) -> (r: Option<usize>)
    requires
        from <= v.len(),
    ensures
        r matches Some(i) ==> from <= i < v.len() && index_of(v@.skip(from as int), c) == Some(
            i - from,
        ),
        r is None ==> index_of(v@.skip(from as int), c) is None,
{
    let mut i = from;
    while i < v.len() && v[i] != c
        invariant
            from <= i <= v.len(),
            forall|j: int| from <= j < i ==> v@[j] != c,
        decreases v.len() - i,
    {
        i = i + 1;
    }
    proof {
        lemma_index_of(v@.skip(from as int), c, i - from);
    }
    if i < v.len() {
        Some(i)
    } else {
        None
    }
}

fn value_for(v: &Vec<char>, key: &str) -> (r: Option<String>)
    ensures
        r matches Some(s) ==> report_value(v@, key@) == Some(s@),
        r is None ==> report_value(v@, key@) is None,
{
    let mut pat_text = "\"".to_string();
    pat_text.append(key);
    pat_text.append("\"");
    let pat = chars_of(pat_text.as_str());
    proof {
        assert(pat@ =~= "\""@ + key@ + "\""@);
    }
    match find_chars(v, &pat) {
        None => None,
        Some(p) => {
            proof {
                lemma_find_bound(v@, pat@);
                assert(occurs_at(v@, pat@, p as int));
                assert(p + pat.len() <= v.len());
            }
            let from = p + pat.len();
            let ghost rest = v@.skip(from as int);
            match index_from(v, from, '"') {
                None => None,
                Some(a) => {
                    proof {
                        assert(rest.skip(a - from + 1) =~= v@.skip(a + 1));
                    }
                    match index_from(v, a + 1, '"') {
                        None => None,
                        Some(b) => {
                            let mut value: Vec<char> = Vec::new();
                            let mut k = a + 1;
                            while k < b
                                invariant
                                    a + 1 <= k <= b < v.len(),
                                    value@ == v@.subrange(a + 1, k as int),
                                decreases b - k,
                            {
                                value.push(v[k]);
                                assert(v@.subrange(a + 1, k + 1) =~= v@.subrange(a + 1, k as int).push(v@[k as int]));
                                k = k + 1;
                            }
                            proof {
                                assert(v@.skip(a + 1).take(b - (a + 1)) =~= v@.subrange(a + 1, b as int));
                            }
                            if float_literal_chars(&value) {
                                Some(string_of(&value))
                            } else {
                                None
                            }
                        },
                    }
                },
            }
        },
    }
}

/// Reads the measurements from the measuring pass's output: `None` unless every
/// value is there and is a number.
pub fn parse_loudness_report(output: &str) -> (r: Option<LoudnessReport>)
    ensures
        r is Some <==> report_complete(output@),
        r matches Some(rep) ==> forall|k: int|
            0 <= k < 5 ==> report_value(output@, #[trigger] report_keys()[k]) == Some(report_view(rep)[k]),
{
    let v = chars_of(output);
    let i = value_for(&v, "input_i");
    let tp = value_for(&v, "input_tp");
    let lra = value_for(&v, "input_lra");
    let thresh = value_for(&v, "input_thresh");
    let offset = value_for(&v, "target_offset");
    proof {
        assert(report_keys()[0] == "input_i"@);
        assert(report_keys()[1] == "input_tp"@);
        assert(report_keys()[2] == "input_lra"@);
        assert(report_keys()[3] == "input_thresh"@);
        assert(report_keys()[4] == "target_offset"@);
    }
    match (i, tp, lra, thresh, offset) {
        (Some(i), Some(tp), Some(lra), Some(thresh), Some(offset)) => {
            let rep = LoudnessReport {
                input_i: i,
                input_tp: tp,
                input_lra: lra,
                input_thresh: thresh,
                target_offset: offset,
            };
            proof {
                assert forall|k: int| 0 <= k < 5 implies report_value(
                    output@,
                    #[trigger] report_keys()[k],
                ) == Some(report_view(rep)[k]) by {}
            }
            Some(rep)
        },
        _ => {
            proof {
                if report_complete(output@) {
                    assert(report_value(output@, report_keys()[0]) is Some);
                    assert(report_value(output@, report_keys()[1]) is Some);
                    assert(report_value(output@, report_keys()[2]) is Some);
                    assert(report_value(output@, report_keys()[3]) is Some);
                    assert(report_value(output@, report_keys()[4]) is Some);
                }
            }
            None
        },
    }
}

/// The correcting pass's filter chain: the shaping filters and a linear loudness
/// correction to `target` from the measurements.
pub open spec fn apply_filter(target: Seq<char>, rep: LoudnessReport) -> Seq<char> {
    shaping_filters() + ",loudnorm=I="@ + target + ":TP=-1:LRA=11:measured_I="@ + rep.input_i@
        + ":measured_TP="@ + rep.input_tp@ + ":measured_LRA="@ + rep.input_lra@
        + ":measured_thresh="@ + rep.input_thresh@ + ":offset="@ + rep.target_offset@
        + ":linear=true"@
}

/// The ffmpeg arguments of the correcting pass: the audio filtered, the video copied.
pub open spec fn apply_argv(input: Seq<char>, target: Seq<char>, rep: LoudnessReport, output: Seq<
    char,
>) -> Seq<Seq<char>> {
    seq!["-i"@, input, "-af"@, apply_filter(target, rep), "-c:v"@, "copy"@, "-y"@, output]
}

impl FfmpegEditor {
    /// The arguments of the measuring pass of audio enhancement (`measure_argv`);
    /// `target` is the loudness to reach in LUFS, written as a number.
    pub fn loudness_measure_args(&self, input: &str, target: &str) -> (r: Vec<String>)
        ensures
            views(r@) == measure_argv(input@, target@),
    {
        let mut filter = "highpass=f=80,lowpass=f=12000,equalizer=f=1500:t=o:w=2:g=1.5".to_string();
        filter.append(",loudnorm=I=");
        filter.append(target);
        filter.append(":TP=-1:LRA=11:print_format=json");
        let mut r: Vec<String> = Vec::new();
        r.push("-i".to_string());
        r.push(input.to_string());
        r.push("-af".to_string());
        r.push(filter);
        r.push("-f".to_string());
        r.push("null".to_string());
        r.push("-".to_string());
        assert(views(r@) =~= measure_argv(input@, target@));
        r
    }

    /// The arguments of the correcting pass of audio enhancement (`apply_argv`).
    pub fn loudness_apply_args(&self, input: &str, target: &str, rep: &LoudnessReport, output: &str) -> (r:
        Vec<String>)
        ensures
            views(r@) == apply_argv(input@, target@, *rep, output@),
    {
        let mut filter = "highpass=f=80,lowpass=f=12000,equalizer=f=1500:t=o:w=2:g=1.5".to_string();
        filter.append(",loudnorm=I=");
        filter.append(target);
        filter.append(":TP=-1:LRA=11:measured_I=");
        filter.append(rep.input_i.as_str());
        filter.append(":measured_TP=");
        filter.append(rep.input_tp.as_str());
        filter.append(":measured_LRA=");
        filter.append(rep.input_lra.as_str());
        filter.append(":measured_thresh=");
        filter.append(rep.input_thresh.as_str());
        filter.append(":offset=");
        filter.append(rep.target_offset.as_str());
        filter.append(":linear=true");
        let mut r: Vec<String> = Vec::new();
        r.push("-i".to_string());
        r.push(input.to_string());
        r.push("-af".to_string());
        r.push(filter);
        r.push("-c:v".to_string());
        r.push("copy".to_string());
        r.push("-y".to_string());
        r.push(output.to_string());
        assert(views(r@) =~= apply_argv(input@, target@, *rep, output@));
        r
    }
}

} // verus!
