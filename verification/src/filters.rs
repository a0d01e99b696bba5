//! ffmpeg filter graphs and work plans for editing: trimming and retiming the
//! kept segments, ducking background music under speech, splitting long edits
//! into chunks, and joining intro and outro clips.
//!
//! Time stamps and speeds are numbers that the caller renders as text; the
//! graphs here are built from that text.

use vstd::prelude::*;
use vstd::string::StringExecFns;
use crate::text::{decimal, decimal_string, escape_single_quotes, joined, lemma_joined_congruent,
    lemma_joined_split, push_decimal,
    push_escaped_quotes, push_padded, chars_of, zero_padded};

verus! {

/// How a kept segment is retimed when it plays at a speed other than 1.
pub struct Retime {
    /// The factor applied to video time stamps (the inverse of the speed), as text.
    pub pts_factor: String,
    /// The audio tempo (the speed), as text.
    pub tempo: String,
}

/// A kept segment as text: where it starts and ends in the source, and how it is
/// retimed (`None` when it plays at normal speed).
pub struct SegmentTexts {
    pub start: String,
    pub end: String,
    pub retime: Option<Retime>,
}

/// The video time stamp expression of a segment.
pub open spec fn setpts_of(seg: SegmentTexts) -> Seq<char> {
    match seg.retime {
        Some(r) => "setpts="@ + r.pts_factor@ + "*PTS"@,
        None => "setpts=PTS-STARTPTS"@,
    }
}

/// The audio time stamp expression of a segment.
pub open spec fn atempo_of(seg: SegmentTexts) -> Seq<char> {
    match seg.retime {
        Some(r) => "atempo="@ + r.tempo@,
        None => "asetpts=PTS-STARTPTS"@,
    }
}

/// The video trim filter of segment `i`, labelled `[v<i>]`.
pub open spec fn video_trim(seg: SegmentTexts, i: int) -> Seq<char> {
    "[0:v]trim=start="@ + seg.start@ + ":end="@ + seg.end@ + ", "@ + setpts_of(seg) + "[v"@
        + decimal(i as nat) + "];"@
}

/// The audio trim filter of segment `i`, labelled `[a<i>]`.
pub open spec fn audio_trim(seg: SegmentTexts, i: int) -> Seq<char> {
    "[0:a]atrim=start="@ + seg.start@ + ":end="@ + seg.end@ + ", "@ + atempo_of(seg) + "[a"@
        + decimal(i as nat) + "];"@
}

/// A stream label `[<kind><i>]`.
pub open spec fn label(kind: Seq<char>, i: int) -> Seq<char> {
    "["@ + kind + decimal(i as nat) + "]"@
}

/// The video half of the trim graph: each segment trimmed and retimed, then all
/// of them concatenated into `[outv]`.
pub open spec fn video_graph(segs: Seq<SegmentTexts>) -> Seq<char> {
    joined(segs.len() as int, |i: int| video_trim(segs[i], i)) + joined(
        segs.len() as int,
        |i: int| label("v"@, i),
    ) + "concat=n="@ + decimal(segs.len()) + ":v=1:a=0[outv];"@
}

/// The audio half of the trim graph, concatenated into `[outa]`.
pub open spec fn audio_graph(segs: Seq<SegmentTexts>) -> Seq<char> {
    joined(segs.len() as int, |i: int| audio_trim(segs[i], i)) + joined(
        segs.len() as int,
        |i: int| label("a"@, i),
    ) + "concat=n="@ + decimal(segs.len()) + ":v=0:a=1[outa]"@
}

/// Every kept segment is cut out by its own times: the video graph holds, for each
/// segment `i`, the trim `[0:v]trim=start=<start>:end=<end>, ` of segment `i`'s own
/// start and end, its time-stamp expression (reset, or the segment's factor when it
/// is retimed), and the label `[v<i>]` that the concatenation reads; before it
/// stand the trims of the segments before it, in their order.
#[verifier::rlimit(40)]
pub proof fn lemma_video_trim_of_each_segment(segs: Seq<SegmentTexts>, i: int) -> (r: (
    Seq<char>,
    Seq<char>,
))
    requires
        0 <= i < segs.len(),
    ensures
        video_graph(segs) == r.0 + "[0:v]trim=start="@ + segs[i].start@ + ":end="@ + segs[i].end@
            + ", "@ + (match segs[i].retime {
            Some(t) => "setpts="@ + t.pts_factor@ + "*PTS"@,
            None => "setpts=PTS-STARTPTS"@,
        }) + "[v"@ + decimal(i as nat) + "];"@ + r.1,
        r.0 == joined(i, |k: int| video_trim(segs[k], k)),
{
    let f = |k: int| video_trim(segs[k], k);
    let post = lemma_joined_split(segs.len() as int, i, f);
    let pre = joined(i, f);
    assert(pre == joined(i, |k: int| video_trim(segs[k], k)));
    let rest = post + joined(segs.len() as int, |k: int| label("v"@, k)) + "concat=n="@ + decimal(
        segs.len(),
    ) + ":v=1:a=0[outv];"@;
    assert(video_graph(segs) =~= pre + "[0:v]trim=start="@ + segs[i].start@ + ":end="@
        + segs[i].end@ + ", "@ + (match segs[i].retime {
        Some(t) => "setpts="@ + t.pts_factor@ + "*PTS"@,
        None => "setpts=PTS-STARTPTS"@,
    }) + "[v"@ + decimal(i as nat) + "];"@ + rest);
    (pre, rest)
}

/// Every kept segment's audio is cut out by its own times: the audio graph holds,
/// for each segment `i`, `[0:a]atrim=start=<start>:end=<end>, ` of segment `i`'s own
/// start and end, its tempo expression (reset, or the segment's tempo when it is
/// retimed), and the label `[a<i>]` that the concatenation reads; before it stand
/// the trims of the segments before it, in their order.
#[verifier::rlimit(40)]
pub proof fn lemma_audio_trim_of_each_segment(segs: Seq<SegmentTexts>, i: int) -> (r: (
    Seq<char>,
    Seq<char>,
))
    requires
        0 <= i < segs.len(),
    ensures
        audio_graph(segs) == r.0 + "[0:a]atrim=start="@ + segs[i].start@ + ":end="@ + segs[i].end@
            + ", "@ + (match segs[i].retime {
            Some(t) => "atempo="@ + t.tempo@,
            None => "asetpts=PTS-STARTPTS"@,
        }) + "[a"@ + decimal(i as nat) + "];"@ + r.1,
        r.0 == joined(i, |k: int| audio_trim(segs[k], k)),
{
    let f = |k: int| audio_trim(segs[k], k);
    let post = lemma_joined_split(segs.len() as int, i, f);
    let pre = joined(i, f);
    assert(pre == joined(i, |k: int| audio_trim(segs[k], k)));
    let rest = post + joined(segs.len() as int, |k: int| label("a"@, k)) + "concat=n="@ + decimal(
        segs.len(),
    ) + ":v=0:a=1[outa]"@;
    assert(audio_graph(segs) =~= pre + "[0:a]atrim=start="@ + segs[i].start@ + ":end="@
        + segs[i].end@ + ", "@ + (match segs[i].retime {
        Some(t) => "atempo="@ + t.tempo@,
        None => "asetpts=PTS-STARTPTS"@,
    }) + "[a"@ + decimal(i as nat) + "];"@ + rest);
    (pre, rest)
}

/// Both graphs join every kept segment, in order: after the trims come the labels
/// `[v0]`, `[v1]`, ... (`[a0]`, `[a1]`, ... for audio) of all the segments, then one
/// concatenation of as many inputs as there are segments, into `[outv]` (`[outa]`).
pub proof fn lemma_trim_graphs_join_all(segs: Seq<SegmentTexts>)
    ensures
        video_graph(segs) == joined(segs.len() as int, |k: int| video_trim(segs[k], k)) + joined(
            segs.len() as int,
            |k: int| "[v"@ + decimal(k as nat) + "]"@,
        ) + "concat=n="@ + decimal(segs.len()) + ":v=1:a=0[outv];"@,
        audio_graph(segs) == joined(segs.len() as int, |k: int| audio_trim(segs[k], k)) + joined(
            segs.len() as int,
            |k: int| "[a"@ + decimal(k as nat) + "]"@,
        ) + "concat=n="@ + decimal(segs.len()) + ":v=0:a=1[outa]"@,
{
    let n = segs.len() as int;
    assert forall|k: int| 0 <= k < n implies #[trigger] label("v"@, k) == "[v"@ + decimal(
        k as nat,
    ) + "]"@ by {
        reveal_strlit("[");
        reveal_strlit("v");
        reveal_strlit("[v");
        assert(label("v"@, k) =~= "[v"@ + decimal(k as nat) + "]"@);
    }
    assert forall|k: int| 0 <= k < n implies #[trigger] label("a"@, k) == "[a"@ + decimal(
        k as nat,
    ) + "]"@ by {
        reveal_strlit("[");
        reveal_strlit("a");
        reveal_strlit("[a");
        assert(label("a"@, k) =~= "[a"@ + decimal(k as nat) + "]"@);
    }
    lemma_joined_congruent(n, |k: int| label("v"@, k), |k: int| "[v"@ + decimal(k as nat) + "]"@);
    lemma_joined_congruent(n, |k: int| label("a"@, k), |k: int| "[a"@ + decimal(k as nat) + "]"@);
}

fn push_labels(out: &mut String, kind: &str, n: usize)
    ensures
        final(out)@ == old(out)@ + joined(n as int, |i: int| label(kind@, i)),
{
    let mut i: usize = 0;
    while i < n
        invariant
            i <= n,
            out@ == old(out)@ + joined(i as int, |i: int| label(kind@, i)),
        decreases n - i,
    {
        let ghost before = out@;
        out.append("[");
        out.append(kind);
        push_decimal(out, i as u64);
        out.append("]");
        proof {
            assert(joined(i + 1, |i: int| label(kind@, i)) == joined(i as int, |i: int| label(kind@, i))
                + label(kind@, i as int));
            assert(out@ =~= before + label(kind@, i as int));
        }
        i = i + 1;
    }
}

fn push_video_trim(v: &mut String, seg: &SegmentTexts, i: usize)
    ensures
        final(v)@ == old(v)@ + video_trim(*seg, i as int),
{
    v.append("[0:v]trim=start=");
    v.append(seg.start.as_str());
    v.append(":end=");
    v.append(seg.end.as_str());
    v.append(", ");
    match &seg.retime {
        Some(r) => {
            v.append("setpts=");
            v.append(r.pts_factor.as_str());
            v.append("*PTS");
        },
        None => {
            v.append("setpts=PTS-STARTPTS");
        },
    }
    v.append("[v");
    push_decimal(v, i as u64);
    v.append("];");
    assert(v@ =~= old(v)@ + video_trim(*seg, i as int));
}

fn push_audio_trim(a: &mut String, seg: &SegmentTexts, i: usize)
    ensures
        final(a)@ == old(a)@ + audio_trim(*seg, i as int),
{
    a.append("[0:a]atrim=start=");
    a.append(seg.start.as_str());
    a.append(":end=");
    a.append(seg.end.as_str());
    a.append(", ");
    match &seg.retime {
        Some(r) => {
            a.append("atempo=");
            a.append(r.tempo.as_str());
        },
        None => {
            a.append("asetpts=PTS-STARTPTS");
        },
    }
    a.append("[a");
    push_decimal(a, i as u64);
    a.append("];");
    assert(a@ =~= old(a)@ + audio_trim(*seg, i as int));
}

/// The video and audio filter graphs that cut the kept segments out of the source
/// and join them (`video_graph`, `audio_graph`).
pub fn generate_trim_filters(segs: &Vec<SegmentTexts>) -> (r: (String, String))
    ensures
        r.0@ == video_graph(segs@),
        r.1@ == audio_graph(segs@),
{
    let mut v = String::new();
    let mut a = String::new();
    let mut i: usize = 0;
    while i < segs.len()
        invariant
            i <= segs.len(),
            v@ == joined(i as int, |i: int| video_trim(segs@[i], i)),
            a@ == joined(i as int, |i: int| audio_trim(segs@[i], i)),
        decreases segs.len() - i,
    {
        let seg = &segs[i];
        let ghost vb = v@;
        let ghost ab = a@;
        push_video_trim(&mut v, seg, i);
        push_audio_trim(&mut a, seg, i);
        proof {
            assert(joined(i + 1, |i: int| video_trim(segs@[i], i)) == joined(
                i as int,
                |i: int| video_trim(segs@[i], i),
            ) + video_trim(segs@[i as int], i as int));
            assert(joined(i + 1, |i: int| audio_trim(segs@[i], i)) == joined(
                i as int,
                |i: int| audio_trim(segs@[i], i),
            ) + audio_trim(segs@[i as int], i as int));
            assert(v@ =~= vb + video_trim(segs@[i as int], i as int));
            assert(a@ =~= ab + audio_trim(segs@[i as int], i as int));
        }
        i = i + 1;
    }
    push_labels(&mut v, "v", segs.len());
    push_labels(&mut a, "a", segs.len());
    v.append("concat=n=");
    push_decimal(&mut v, segs.len() as u64);
    v.append(":v=1:a=0[outv];");
    a.append("concat=n=");
    push_decimal(&mut a, segs.len() as u64);
    a.append(":v=0:a=1[outa]");
    proof {
        assert(v@ =~= video_graph(segs@));
        assert(a@ =~= audio_graph(segs@));
    }
    (v, a)
}

/// The music volume expression after the first `k` speech spans: 0.2 inside any of
/// them (the latest span tested first), 1.0 elsewhere.
pub open spec fn duck_expr(spans: Seq<(String, String)>, k: int) -> Seq<char>
    decreases k,
{
    if k <= 0 {
        "1.0"@
    } else {
        "if(between(t,"@ + spans[k - 1].0@ + ","@ + spans[k - 1].1@ + "),0.2,"@ + duck_expr(
            spans,
            k - 1,
        ) + ")"@
    }
}

/// The filter graph that mixes background music (input 1) under the speech of
/// input 0, lowering the music during each speech span.
pub open spec fn duck_graph(spans: Seq<(String, String)>) -> Seq<char> {
    "[1:a]volume=volume='"@ + duck_expr(spans, spans.len() as int)
        + "'[ducked];[0:a][ducked]amix=inputs=2:duration=first[outa]"@
}

/// The music ducking graph for the given speech spans (start and end times as text).
pub fn generate_duck_filter(spans: &Vec<(String, String)>) -> (r: String)
    ensures
        r@ == duck_graph(spans@),
{
    let mut expr = "1.0".to_string();
    let mut k: usize = 0;
    while k < spans.len()
        invariant
            k <= spans.len(),
            expr@ == duck_expr(spans@, k as int),
        decreases spans.len() - k,
    {
        let mut next = "if(between(t,".to_string();
        next.append(spans[k].0.as_str());
        next.append(",");
        next.append(spans[k].1.as_str());
        next.append("),0.2,");
        next.append(expr.as_str());
        next.append(")");
        assert(next@ =~= duck_expr(spans@, k + 1));
        expr = next;
        k = k + 1;
    }
    let mut r = "[1:a]volume=volume='".to_string();
    r.append(expr.as_str());
    r.append("'[ducked];[0:a][ducked]amix=inputs=2:duration=first[outa]");
    assert(r@ =~= duck_graph(spans@));
    r
}

/// The most segments one ffmpeg trim job handles.
pub const TRIM_SEGMENTS_PER_CHUNK: usize = 48;

/// How a trim is carried out.
pub enum TrimPlan {
    /// There is nothing to keep: the trim fails.
    NoSegments,
    /// One ffmpeg job handles all segments.
    SingleJob,
    /// One job per chunk of segments `[start, end)`, whose outputs are then joined.
    Chunked(Vec<(usize, usize)>),
}

/// Whether `chunks` splits `0..n` into consecutive chunks of `TRIM_SEGMENTS_PER_CHUNK`
/// segments, the last one possibly shorter.
pub open spec fn is_chunking(chunks: Seq<(usize, usize)>, n: nat) -> bool {
    &&& chunks.len() == (n + 47) / 48
    &&& forall|k: int|
        0 <= k < chunks.len() ==> #[trigger] chunks[k] == (
            (48 * k) as usize,
            if 48 * k + 48 <= n {
                (48 * k + 48) as usize
            } else {
                n as usize
            },
        )
}

/// The chunks of a chunking cover `0..n` without gaps or overlap, and none is empty
/// or longer than `TRIM_SEGMENTS_PER_CHUNK`.
pub proof fn lemma_chunking_partitions(chunks: Seq<(usize, usize)>, n: nat)
    requires
        n <= usize::MAX,
        is_chunking(chunks, n),
    ensures
        n > 0 ==> chunks[0].0 == 0 && chunks[chunks.len() - 1].1 == n,
        forall|k: int|
            0 <= k < chunks.len() ==> (#[trigger] chunks[k]).0 < chunks[k].1 <= chunks[k].0 + 48,
        forall|k: int|
            0 <= k < chunks.len() - 1 ==> (#[trigger] chunks[k]).1 == chunks[k + 1].0,
{
    assert forall|k: int| 0 <= k < chunks.len() implies (#[trigger] chunks[k]).0 < chunks[k].1
        <= chunks[k].0 + 48 by {
        lemma_chunk_start(n, k);
    }
    assert forall|k: int| 0 <= k < chunks.len() - 1 implies (#[trigger] chunks[k]).1 == chunks[k
        + 1].0 by {
        lemma_chunk_start(n, k);
        lemma_chunk_start(n, k + 1);
        assert(48 * k + 48 <= n) by (nonlinear_arith)
            requires
                0 <= k < (n + 47) / 48 - 1,
        ;
    }
    if n > 0 {
        let last = chunks.len() - 1;
        lemma_chunk_start(n, last);
        assert(48 * last + 48 >= n) by (nonlinear_arith)
            requires
                last == (n + 47) / 48 - 1,
                n > 0,
        ;
        lemma_chunk_start(n, 0);
    }
}

proof fn lemma_chunk_start(n: nat, k: int)
    requires
        n <= usize::MAX,
        0 <= k < (n + 47) / 48,
    ensures
        48 * k < n,
        (48 * k) as usize == 48 * k,
        48 * k + 48 <= n ==> (48 * k + 48) as usize == 48 * k + 48,
        (n as usize) == n,
{
    assert(48 * k < n) by (nonlinear_arith)
        requires
            0 <= k < (n + 47) / 48,
    ;
}

/// How to trim `n` segments: fail when there are none, one job for up to
/// `TRIM_SEGMENTS_PER_CHUNK`, otherwise one job per chunk.
pub fn plan_trim(n: usize) -> (r: TrimPlan)
    ensures
        n == 0 ==> r is NoSegments,
        0 < n <= 48 ==> r is SingleJob,
        n > 48 ==> (r matches TrimPlan::Chunked(chunks) && is_chunking(chunks@, n as nat)),
{
    if n == 0 {
        return TrimPlan::NoSegments;
    }
    if n <= TRIM_SEGMENTS_PER_CHUNK {
        return TrimPlan::SingleJob;
    }
    let count = n / 48 + if n % 48 == 0 { 0 } else { 1 };
    assert(count == (n + 47) / 48);
    let mut chunks: Vec<(usize, usize)> = Vec::new();
    let mut k: usize = 0;
    while k < count
        invariant
            count == (n + 47) / 48,
            n > 48,
            k <= count,
            chunks.len() == k,
            forall|j: int|
                0 <= j < k ==> #[trigger] chunks@[j] == (
                    (48 * j) as usize,
                    if 48 * j + 48 <= n {
                        (48 * j + 48) as usize
                    } else {
                        n as usize
                    },
                ),
        decreases count - k,
    {
        assert(48 * k < n) by (nonlinear_arith)
            requires
                k < count,
                count == (n + 47) / 48,
        ;
        let start = 48 * k;
        let end = if n - start >= 48 {
            start + 48
        } else {
            n
        };
        chunks.push((start, end));
        k = k + 1;
    }
    TrimPlan::Chunked(chunks)
}

/// `chunk_<idx>.mp4`, the index zero-padded to four digits.
pub open spec fn chunk_file_name_of(idx: nat) -> Seq<char> {
    "chunk_"@ + zero_padded(idx, 4) + ".mp4"@
}

/// The file name of the output of trim chunk `idx`.
pub fn chunk_file_name(idx: usize) -> (r: String)
    ensures
        r@ == chunk_file_name_of(idx as nat),
{
    let mut r = "chunk_".to_string();
    push_padded(&mut r, idx as u64, 4);
    r.append(".mp4");
    assert(r@ =~= chunk_file_name_of(idx as nat));
    r
}

/// `.ai-vid-editor-<stem>-<pid>`, with `trim` for a missing stem.
pub open spec fn chunk_dir_name_of(stem: Option<Seq<char>>, pid: nat) -> Seq<char> {
    ".ai-vid-editor-"@ + match stem {
        Some(s) => s,
        None => "trim"@,
    } + "-"@ + decimal(pid)
}

/// The name of the scratch directory for the chunks of one output, made unique by
/// the output's stem and the process id.
pub fn chunk_dir_name(stem: Option<&str>, pid: u32) -> (r: String)
    ensures
        r@ == chunk_dir_name_of(
            match stem {
                Some(s) => Some(s@),
                None => None,
            },
            pid as nat,
        ),
{
    let mut r = ".ai-vid-editor-".to_string();
    match stem {
        Some(s) => r.append(s),
        None => r.append("trim"),
    }
    r.append("-");
    push_decimal(&mut r, pid as u64);
    assert(r@ =~= chunk_dir_name_of(
        match stem {
            Some(s) => Some(s@),
            None => None,
        },
        pid as nat,
    ));
    r
}

/// The entry of one file in an ffmpeg concat list.
pub open spec fn concat_entry(path: Seq<char>) -> Seq<char> {
    "file '"@ + escape_single_quotes(path) + "'\n"@
}

/// The ffmpeg concat list naming the given files in order, each quoted.
pub fn concat_list(paths: &Vec<String>) -> (r: String)
    ensures
        r@ == joined(paths.len() as int, |i: int| concat_entry(paths@[i]@)),
{
    let mut r = String::new();
    let mut i: usize = 0;
    while i < paths.len()
        invariant
            i <= paths.len(),
            r@ == joined(i as int, |i: int| concat_entry(paths@[i]@)),
        decreases paths.len() - i,
    {
        let ghost before = r@;
        r.append("file '");
        let v = chars_of(paths[i].as_str());
        push_escaped_quotes(&mut r, &v);
        r.append("'\n");
        proof {
            assert(joined(i + 1, |i: int| concat_entry(paths@[i]@)) == joined(
                i as int,
                |i: int| concat_entry(paths@[i]@),
            ) + concat_entry(paths@[i as int]@));
            assert(r@ =~= before + concat_entry(paths@[i as int]@));
        }
        i = i + 1;
    }
    r
}

} // verus!
