//! Documents written next to an edited video: an edit decision list, a Final
//! Cut Pro XML timeline, SRT subtitles and YouTube chapter markers.
//!
//! Times reach this module already broken into clock components or rendered as
//! text by the caller.

use vstd::prelude::*;
use vstd::string::StringExecFns;
use crate::text::{
    byte_prefix, chars_in_bytes, chars_of, decimal, flatten_line_breaks, is_boundary, joined,
    lemma_flatten_not_longer, lemma_joined_congruent, lemma_joined_split, lemma_prefix_fits,
    push_decimal, push_flattened, push_padded, trim, trim_bounds, utf8_len, utf8_length,
    zero_padded,
};

verus! {

// ---------------------------------------------------------------------------
// Edit decision list
// ---------------------------------------------------------------------------

/// The file name a document gives the source clip: its own name, or `video.mp4`.
pub open spec fn clip_name_of(file_name: Option<Seq<char>>) -> Seq<char> {
    match file_name {
        Some(n) => n,
        None => "video.mp4"@,
    }
}

/// The clip name for a source whose file name is `file_name` (`None` when it has
/// none or it is not text).
pub fn clip_name(file_name: Option<&str>) -> (r: String)
    ensures
        r@ == clip_name_of(
            match file_name {
                Some(n) => Some(n@),
                None => None,
            },
        ),
{
    match file_name {
        Some(n) => n.to_string(),
        None => "video.mp4".to_string(),
    }
}

/// The EDL event of the `k`-th kept segment (counting from 1).
pub open spec fn edl_event(k: nat, clip: Seq<char>) -> Seq<char> {
    zero_padded(k, 3) + "  AX       V     C        00:00:00:00 00:00:00:00\n"@
        + "* FROM CLIP NAME: "@ + clip + "\n\n"@
}

/// The edit decision list of `count` kept segments of `clip`: a title, the frame
/// code mode, and one event per segment.
pub open spec fn edl_document(clip: Seq<char>, count: nat) -> Seq<char> {
    "TITLE: Edited Timeline\n"@ + "FCM: NON-DROP FRAME\n\n"@ + joined(
        count as int,
        |i: int| edl_event((i + 1) as nat, clip),
    )
}

/// The edit decision list numbers its events from 1: with no kept segment it is the
/// title and frame code mode alone, and one more kept segment appends one event,
/// numbered with the new count in three digits, that names the clip.
pub proof fn lemma_edl_events_numbered(clip: Seq<char>, count: nat)
    ensures
        edl_document(clip, 0) == "TITLE: Edited Timeline\n"@ + "FCM: NON-DROP FRAME\n\n"@,
        edl_document(clip, count + 1) == edl_document(clip, count) + zero_padded(count + 1, 3)
            + "  AX       V     C        00:00:00:00 00:00:00:00\n"@ + "* FROM CLIP NAME: "@
            + clip + "\n\n"@,
{
    let head = "TITLE: Edited Timeline\n"@ + "FCM: NON-DROP FRAME\n\n"@;
    let f = |i: int| edl_event((i + 1) as nat, clip);
    assert(head + joined(0, f) =~= head);
    assert(joined(count + 1int, f) == joined(count as int, f) + f(count as int));
    assert(edl_document(clip, count + 1) =~= head + joined(count as int, f) + edl_event(
        count + 1,
        clip,
    ));
}

/// The edit decision list for `count` kept segments of the clip named `clip`.
pub fn export_edl(clip: &str, count: usize) -> (r: String)
    ensures
        r@ == edl_document(clip@, count as nat),
{
    let mut r = "TITLE: Edited Timeline\n".to_string();
    r.append("FCM: NON-DROP FRAME\n\n");
    let ghost head = r@;
    let mut i: usize = 0;
    while i < count
        invariant
            i <= count,
            head == "TITLE: Edited Timeline\n"@ + "FCM: NON-DROP FRAME\n\n"@,
            r@ == head + joined(i as int, |i: int| edl_event((i + 1) as nat, clip@)),
        decreases count - i,
    {
        let ghost before = r@;
        push_padded(&mut r, (i as u64) + 1, 3);
        r.append("  AX       V     C        00:00:00:00 00:00:00:00\n");
        r.append("* FROM CLIP NAME: ");
        r.append(clip);
        r.append("\n\n");
        proof {
            assert(joined(i + 1, |i: int| edl_event((i + 1) as nat, clip@)) == joined(
                i as int,
                |i: int| edl_event((i + 1) as nat, clip@),
            ) + edl_event((i + 1) as nat, clip@));
            assert(r@ =~= before + edl_event((i + 1) as nat, clip@));
        }
        i = i + 1;
    }
    r
}

// ---------------------------------------------------------------------------
// Final Cut Pro XML
// ---------------------------------------------------------------------------

/// Where a kept segment lands on the timeline and which part of the source it
/// shows, as the caller rendered the numbers (seconds).
pub struct ClipTiming {
    /// Position on the timeline.
    pub offset: String,
    /// Position in the source.
    pub start: String,
    /// Length.
    pub duration: String,
}

/// The timeline entry of one kept segment.
pub open spec fn fcpxml_clip(clip: Seq<char>, t: ClipTiming) -> Seq<char> {
    "            <video name=\""@ + clip + "\" offset=\""@ + t.offset@ + "s\" ref=\"r1\" start=\""@
        + t.start@ + "s\" duration=\""@ + t.duration@ + "s\" role=\"video\" />\n"@
}

/// Everything before the timeline entries.
pub open spec fn fcpxml_head(clip: Seq<char>, source: Seq<char>) -> Seq<char> {
    "<?xml version=\"1.0\" encoding=\"UTF-8\"?>\n"@ + "<!DOCTYPE fcpxml>\n"@
        + "<fcpxml version=\"1.8\">\n"@ + "  <resources>\n"@ + "    <asset id=\"r1\" name=\""@
        + clip + "\" src=\"file://"@ + source + "\" />\n"@ + "  </resources>\n"@
        + "  <library>\n"@ + "    <event name=\"Automated Cuts\">\n"@
        + "      <project name=\"Edited Timeline\">\n"@
        + "        <sequence duration=\"3600/1s\" format=\"r1\">\n"@ + "          <spine>\n"@
}

/// Everything after the timeline entries.
pub open spec fn fcpxml_tail() -> Seq<char> {
    "          </spine>\n"@ + "        </sequence>\n"@ + "      </project>\n"@
        + "    </event>\n"@ + "  </library>\n"@ + "</fcpxml>\n"@
}

/// The FCPXML timeline placing the kept segments one after another.
pub open spec fn fcpxml_document(clip: Seq<char>, source: Seq<char>, clips: Seq<ClipTiming>) -> Seq<
    char,
> {
    fcpxml_head(clip, source) + joined(clips.len() as int, |i: int| fcpxml_clip(clip, clips[i]))
        + fcpxml_tail()
}

/// With no kept segment the timeline is empty: the document declares the source
/// as asset `r1` and holds an empty spine.
pub proof fn lemma_fcpxml_no_clips(clip: Seq<char>, source: Seq<char>)
    ensures
        fcpxml_document(clip, source, Seq::<ClipTiming>::empty())
            == "<?xml version=\"1.0\" encoding=\"UTF-8\"?>\n"@ + "<!DOCTYPE fcpxml>\n"@
            + "<fcpxml version=\"1.8\">\n"@ + "  <resources>\n"@
            + "    <asset id=\"r1\" name=\""@ + clip + "\" src=\"file://"@ + source
            + "\" />\n"@ + "  </resources>\n"@ + "  <library>\n"@
            + "    <event name=\"Automated Cuts\">\n"@ + "      <project name=\"Edited Timeline\">\n"@
            + "        <sequence duration=\"3600/1s\" format=\"r1\">\n"@ + "          <spine>\n"@
            + "          </spine>\n"@ + "        </sequence>\n"@ + "      </project>\n"@
            + "    </event>\n"@ + "  </library>\n"@ + "</fcpxml>\n"@,
{
    assert(fcpxml_head(clip, source) + Seq::<char>::empty() =~= fcpxml_head(clip, source));
    assert(fcpxml_document(clip, source, Seq::<ClipTiming>::empty()) =~= fcpxml_head(clip, source)
        + fcpxml_tail());
}

/// One more kept segment adds one timeline entry, its own, after the entries of
/// the segments before it: the document for `clips` followed by `t` is the
/// document for `clips` with the entry
/// `<video name="<clip>" offset="<offset>s" ref="r1" start="<start>s" duration="<duration>s" role="video" />`
/// of `t` inserted just before the closing tail.
pub proof fn lemma_fcpxml_appended_clip(
    clip: Seq<char>,
    source: Seq<char>,
    clips: Seq<ClipTiming>,
    t: ClipTiming,
)
    ensures
        ({
            let d = fcpxml_document(clip, source, clips);
            let tail = "          </spine>\n"@ + "        </sequence>\n"@ + "      </project>\n"@
                + "    </event>\n"@ + "  </library>\n"@ + "</fcpxml>\n"@;
            &&& d.len() >= tail.len()
            &&& d.subrange(d.len() - tail.len(), d.len() as int) == tail
            &&& fcpxml_document(clip, source, clips.push(t)) == d.subrange(
                0,
                d.len() - tail.len(),
            ) + "            <video name=\""@ + clip + "\" offset=\""@ + t.offset@
                + "s\" ref=\"r1\" start=\""@ + t.start@ + "s\" duration=\""@ + t.duration@
                + "s\" role=\"video\" />\n"@ + tail
        }),
{
    let n = clips.len() as int;
    let f = |i: int| fcpxml_clip(clip, clips[i]);
    let g = |i: int| fcpxml_clip(clip, clips.push(t)[i]);
    lemma_joined_congruent(n, g, f);
    assert(joined(n + 1, g) == joined(n, g) + g(n));
    let body = fcpxml_head(clip, source) + joined(n, f);
    let d = fcpxml_document(clip, source, clips);
    assert(d =~= body + fcpxml_tail());
    assert(d.subrange(0, d.len() - fcpxml_tail().len()) =~= body);
    assert(d.subrange(d.len() - fcpxml_tail().len(), d.len() as int) =~= fcpxml_tail());
    assert(fcpxml_document(clip, source, clips.push(t)) =~= body + fcpxml_clip(clip, t)
        + fcpxml_tail());
}

/// The timeline lists the kept segments in their order: the entry of segment `k`
/// comes right after the head and the entries of the segments before it, and is
/// built from segment `k`'s own offset, start and duration.
pub proof fn lemma_fcpxml_entry_of_each_clip(
    clip: Seq<char>,
    source: Seq<char>,
    clips: Seq<ClipTiming>,
    k: int,
) -> (after: Seq<char>)
    requires
        0 <= k < clips.len(),
    ensures
        ({
            let d = fcpxml_document(clip, source, clips.take(k));
            let tail = fcpxml_tail();
            fcpxml_document(clip, source, clips) == d.subrange(0, d.len() - tail.len())
                + "            <video name=\""@ + clip + "\" offset=\""@ + clips[k].offset@
                + "s\" ref=\"r1\" start=\""@ + clips[k].start@ + "s\" duration=\""@
                + clips[k].duration@ + "s\" role=\"video\" />\n"@ + after
        }),
{
    let n = clips.len() as int;
    let f = |i: int| fcpxml_clip(clip, clips[i]);
    let h = |i: int| fcpxml_clip(clip, clips.take(k)[i]);
    let post = lemma_joined_split(n, k, f);
    lemma_joined_congruent(k, h, f);
    let d = fcpxml_document(clip, source, clips.take(k));
    assert(d =~= fcpxml_head(clip, source) + joined(k, f) + fcpxml_tail());
    assert(d.subrange(0, d.len() - fcpxml_tail().len()) =~= fcpxml_head(clip, source) + joined(
        k,
        f,
    ));
    let after = post + fcpxml_tail();
    assert(fcpxml_document(clip, source, clips) =~= d.subrange(0, d.len() - fcpxml_tail().len())
        + fcpxml_clip(clip, clips[k]) + after);
    after
}

fn push_fcpxml_head(r: &mut String, clip: &str, source: &str)
    ensures
        final(r)@ == old(r)@ + fcpxml_head(clip@, source@),
{
    r.append("<?xml version=\"1.0\" encoding=\"UTF-8\"?>\n");
    r.append("<!DOCTYPE fcpxml>\n");
    r.append("<fcpxml version=\"1.8\">\n");
    r.append("  <resources>\n");
    r.append("    <asset id=\"r1\" name=\"");
    r.append(clip);
    r.append("\" src=\"file://");
    r.append(source);
    r.append("\" />\n");
    r.append("  </resources>\n");
    r.append("  <library>\n");
    r.append("    <event name=\"Automated Cuts\">\n");
    r.append("      <project name=\"Edited Timeline\">\n");
    r.append("        <sequence duration=\"3600/1s\" format=\"r1\">\n");
    r.append("          <spine>\n");
    assert(r@ =~= old(r)@ + fcpxml_head(clip@, source@));
}

fn push_fcpxml_clip(r: &mut String, clip: &str, t: &ClipTiming)
    ensures
        final(r)@ == old(r)@ + fcpxml_clip(clip@, *t),
{
    r.append("            <video name=\"");
    r.append(clip);
    r.append("\" offset=\"");
    r.append(t.offset.as_str());
    r.append("s\" ref=\"r1\" start=\"");
    r.append(t.start.as_str());
    r.append("s\" duration=\"");
    r.append(t.duration.as_str());
    r.append("s\" role=\"video\" />\n");
    assert(r@ =~= old(r)@ + fcpxml_clip(clip@, *t));
}

/// The FCPXML timeline for the clip named `clip` at path `source`.
pub fn export_fcpxml(clip: &str, source: &str, clips: &Vec<ClipTiming>) -> (r: String)
    ensures
        r@ == fcpxml_document(clip@, source@, clips@),
{
    let mut r = String::new();
    push_fcpxml_head(&mut r, clip, source);
    let ghost head = r@;
    let mut i: usize = 0;
    while i < clips.len()
        invariant
            i <= clips.len(),
            head == fcpxml_head(clip@, source@),
            r@ == head + joined(i as int, |i: int| fcpxml_clip(clip@, clips@[i])),
        decreases clips.len() - i,
    {
        let ghost before = r@;
        push_fcpxml_clip(&mut r, clip, &clips[i]);
        proof {
            assert(joined(i + 1, |i: int| fcpxml_clip(clip@, clips@[i])) == joined(
                i as int,
                |i: int| fcpxml_clip(clip@, clips@[i]),
            ) + fcpxml_clip(clip@, clips@[i as int]));
            assert(r@ =~= before + fcpxml_clip(clip@, clips@[i as int]));
        }
        i = i + 1;
    }
    let ghost body = r@;
    r.append("          </spine>\n");
    r.append("        </sequence>\n");
    r.append("      </project>\n");
    r.append("    </event>\n");
    r.append("  </library>\n");
    r.append("</fcpxml>\n");
    assert(r@ =~= body + fcpxml_tail());
    r
}

// ---------------------------------------------------------------------------
// SRT subtitles
// ---------------------------------------------------------------------------

/// A subtitle time broken into clock components.
#[derive(Clone, Copy, Debug, PartialEq, Eq, Structural)]
pub struct SrtTime {
    pub hours: u32,
    pub minutes: u32,
    pub seconds: u32,
    pub millis: u32,
}

/// `HH:MM:SS,mmm`, each component zero-padded.
pub open spec fn srt_time_text(t: SrtTime) -> Seq<char> {
    zero_padded(t.hours as nat, 2) + ":"@ + zero_padded(t.minutes as nat, 2) + ":"@ + zero_padded(
        t.seconds as nat,
        2,
    ) + ","@ + zero_padded(t.millis as nat, 3)
}

/// A subtitle time as SRT writes it.
pub fn format_srt_time(t: SrtTime) -> (r: String)
    ensures
        r@ == srt_time_text(t),
{
    let mut r = String::new();
    push_padded(&mut r, t.hours as u64, 2);
    r.append(":");
    push_padded(&mut r, t.minutes as u64, 2);
    r.append(":");
    push_padded(&mut r, t.seconds as u64, 2);
    r.append(",");
    push_padded(&mut r, t.millis as u64, 3);
    assert(r@ =~= srt_time_text(t));
    r
}

/// One subtitle: when it shows, when it goes, and its text.
pub struct SrtCue {
    pub start: SrtTime,
    pub end: SrtTime,
    pub text: String,
}

/// The SRT block of the `k`-th cue (counting from 1): its number, its times and
/// its trimmed text, followed by a blank line.
pub open spec fn srt_block(k: nat, cue: SrtCue) -> Seq<char> {
    decimal(k) + "\n"@ + srt_time_text(cue.start) + " --> "@ + srt_time_text(cue.end) + "\n"@
        + trim(cue.text@) + "\n\n"@
}

/// The subtitles of a transcript.
pub open spec fn srt_document(cues: Seq<SrtCue>) -> Seq<char> {
    joined(cues.len() as int, |i: int| srt_block((i + 1) as nat, cues[i]))
}

fn push_trimmed(r: &mut String, s: &str)
    ensures
        final(r)@ == old(r)@ + trim(s@),
{
    let v = chars_of(s);
    let (a, b) = trim_bounds(&v, 0, v.len());
    assert(v@.subrange(0, v.len() as int) =~= v@);
    crate::text::push_char_range(r, &v, a, b);
}

fn push_srt_block(r: &mut String, k: u64, cue: &SrtCue)
    ensures
        final(r)@ == old(r)@ + srt_block(k as nat, *cue),
{
    push_decimal(r, k);
    r.append("\n");
    let start = format_srt_time(cue.start);
    r.append(start.as_str());
    r.append(" --> ");
    let end = format_srt_time(cue.end);
    r.append(end.as_str());
    r.append("\n");
    push_trimmed(r, cue.text.as_str());
    r.append("\n\n");
    assert(r@ =~= old(r)@ + srt_block(k as nat, *cue));
}

/// The SRT subtitles of the given cues.
pub fn export_srt(cues: &Vec<SrtCue>) -> (r: String)
    requires
        cues.len() < u64::MAX,
    ensures
        r@ == srt_document(cues@),
{
    let mut r = String::new();
    let mut i: usize = 0;
    while i < cues.len()
        invariant
            i <= cues.len() < u64::MAX,
            r@ == joined(i as int, |i: int| srt_block((i + 1) as nat, cues@[i])),
        decreases cues.len() - i,
    {
        let ghost before = r@;
        push_srt_block(&mut r, (i as u64) + 1, &cues[i]);
        proof {
            assert(joined(i + 1, |i: int| srt_block((i + 1) as nat, cues@[i])) == joined(
                i as int,
                |i: int| srt_block((i + 1) as nat, cues@[i]),
            ) + srt_block((i + 1) as nat, cues@[i as int]));
            assert(r@ =~= before + srt_block((i + 1) as nat, cues@[i as int]));
        }
        i = i + 1;
    }
    r
}

// ---------------------------------------------------------------------------
// YouTube chapters
// ---------------------------------------------------------------------------

/// A chapter start broken into clock components.
#[derive(Clone, Copy, Debug, PartialEq, Eq, Structural)]
pub struct ClockTime {
    pub hours: u32,
    pub minutes: u32,
    pub seconds: u32,
}

/// `HH:MM:SS` when there are hours, `MM:SS` otherwise, each component zero-padded.
pub open spec fn youtube_time_text(t: ClockTime) -> Seq<char> {
    if t.hours > 0 {
        zero_padded(t.hours as nat, 2) + ":"@ + zero_padded(t.minutes as nat, 2) + ":"@
            + zero_padded(t.seconds as nat, 2)
    } else {
        zero_padded(t.minutes as nat, 2) + ":"@ + zero_padded(t.seconds as nat, 2)
    }
}

/// A chapter start as YouTube reads it.
pub fn format_youtube_time(t: ClockTime) -> (r: String)
    ensures
        r@ == youtube_time_text(t),
{
    let mut r = String::new();
    if t.hours > 0 {
        push_padded(&mut r, t.hours as u64, 2);
        r.append(":");
    }
    push_padded(&mut r, t.minutes as u64, 2);
    r.append(":");
    push_padded(&mut r, t.seconds as u64, 2);
    assert(r@ =~= youtube_time_text(t));
    r
}

/// The text "[No speech detected]" that stands for a transcript without speech.
pub open spec fn no_speech_marker() -> Seq<char> {
    "[No speech detected]"@
}

/// Whether a transcript text, once trimmed, counts towards a chapter title: it is
/// neither empty nor the no-speech marker.
pub open spec fn counts_for_title(text: Seq<char>) -> bool {
    trim(text).len() > 0 && trim(text) != no_speech_marker()
}

/// The trimmed texts of a chapter that count towards its title, in order.
pub open spec fn title_texts(texts: Seq<Seq<char>>) -> Seq<Seq<char>>
    decreases texts.len(),
{
    if texts.len() == 0 {
        seq![]
    } else {
        title_texts(texts.drop_last()) + if counts_for_title(texts.last()) {
            seq![trim(texts.last())]
        } else {
            seq![]
        }
    }
}

/// `parts` joined with single spaces.
pub open spec fn join_spaced(parts: Seq<Seq<char>>) -> Seq<char>
    decreases parts.len(),
{
    if parts.len() == 0 {
        seq![]
    } else if parts.len() == 1 {
        parts[0]
    } else {
        join_spaced(parts.drop_last()) + " "@ + parts.last()
    }
}

/// The characters of `t` held in its first `max` bytes of UTF-8 when it is longer;
/// `t` itself otherwise.
pub open spec fn cut_to_bytes(t: Seq<char>, max: nat) -> Seq<char> {
    if utf8_len(t) > max {
        t.take(chars_in_bytes(t, max) as int)
    } else {
        t
    }
}

/// Whether a title can be cut to 50 bytes: it is no longer, or byte 50 starts a character.
pub open spec fn cuttable(t: Seq<char>) -> bool {
    utf8_len(t) > 50 ==> is_boundary(t, 50)
}

/// The untrimmed title of a chapter: its counted texts joined with spaces, trimmed.
pub open spec fn raw_title(texts: Seq<Seq<char>>) -> Seq<char> {
    trim(join_spaced(title_texts(texts)))
}

/// The title of a chapter: the joined texts cut to 50 bytes, line feeds made spaces,
/// carriage returns dropped.
pub open spec fn chapter_title_of(texts: Seq<Seq<char>>) -> Seq<char> {
    flatten_line_breaks(cut_to_bytes(raw_title(texts), 50))
}

/// A chapter: where it starts and the transcript texts that fall in it.
pub struct ChapterGroup {
    pub start: ClockTime,
    pub texts: Vec<String>,
}

/// The views of a chapter's texts.
pub open spec fn group_texts(g: ChapterGroup) -> Seq<Seq<char>> {
    g.texts@.map_values(|s: String| s@)
}

/// The chapter line of a group: its start and title, or nothing when no text counts.
pub open spec fn chapter_line(g: ChapterGroup) -> Seq<char> {
    if title_texts(group_texts(g)).len() > 0 {
        youtube_time_text(g.start) + " "@ + chapter_title_of(group_texts(g)) + "\n"@
    } else {
        seq![]
    }
}

/// The chapter list: an intro marker at 00:00, then one line per chapter with text.
pub open spec fn chapters_document(groups: Seq<ChapterGroup>) -> Seq<char> {
    "00:00 Intro\n"@ + joined(groups.len() as int, |i: int| chapter_line(groups[i]))
}

/// Whether every chapter's title can be cut to 50 bytes.
pub open spec fn all_cuttable(groups: Seq<ChapterGroup>) -> bool {
    forall|i: int| 0 <= i < groups.len() ==> cuttable(raw_title(group_texts(#[trigger] groups[i])))
}

fn joined_title(texts: &Vec<String>) -> (r: (String, usize))
    ensures
        r.0@ == join_spaced(title_texts(texts@.map_values(|s: String| s@))),
        r.1 == title_texts(texts@.map_values(|s: String| s@)).len(),
{
    let ghost tv = texts@.map_values(|s: String| s@);
    let mut out = String::new();
    let mut count: usize = 0;
    let mut i: usize = 0;
    let marker = chars_of("[No speech detected]");
    while i < texts.len()
        invariant
            i <= texts.len(),
            tv == texts@.map_values(|s: String| s@),
            marker@ == no_speech_marker(),
            out@ == join_spaced(title_texts(tv.take(i as int))),
            count == title_texts(tv.take(i as int)).len(),
            count <= i,
        decreases texts.len() - i,
    {
        let v = chars_of(texts[i].as_str());
        let (a, b) = trim_bounds(&v, 0, v.len());
        assert(v@.subrange(0, v.len() as int) =~= v@);
        let mut t: Vec<char> = Vec::new();
        let mut k = a;
        while k < b
            invariant
                a <= k <= b <= v.len(),
                t@ == v@.subrange(a as int, k as int),
            decreases b - k,
        {
            t.push(v[k]);
            assert(v@.subrange(a as int, k + 1) =~= v@.subrange(a as int, k as int).push(v@[k as int]));
            k = k + 1;
        }
        let ghost prev = title_texts(tv.take(i as int));
        proof {
            assert(tv.take(i + 1).drop_last() =~= tv.take(i as int));
            assert(tv.take(i + 1).last() == tv[i as int]);
            assert(tv[i as int] == texts@[i as int]@);
        }
        if t.len() > 0 && !crate::text::chars_eq(&t, &marker) {
            let ghost before = out@;
            if count > 0 {
                out.append(" ");
            }
            crate::text::push_chars(&mut out, &t);
            proof {
                let next = title_texts(tv.take(i + 1));
                assert(next =~= prev.push(t@));
                if prev.len() == 0 {
                    assert(out@ =~= join_spaced(next));
                } else {
                    assert(next.drop_last() =~= prev);
                    assert(out@ =~= join_spaced(next));
                }
            }
            count = count + 1;
        } else {
            proof {
                assert(title_texts(tv.take(i + 1)) =~= prev);
            }
        }
        i = i + 1;
    }
    assert(tv.take(texts.len() as int) =~= tv);
    (out, count)
}

/// Whether the title of a chapter with these texts can be cut to 50 bytes, as the
/// chapter list needs.
pub fn chapter_title_cuttable(texts: &Vec<String>) -> (r: bool)
    ensures
        r == cuttable(raw_title(texts@.map_values(|s: String| s@))),
{
    let (joined_text, _) = joined_title(texts);
    let title = crate::text::trimmed(joined_text.as_str());
    let v = chars_of(title.as_str());
    let len = utf8_length(&v);
    let (_, boundary) = byte_prefix(&v, 50);
    len <= 50 || boundary
}

/// The title of a chapter with these texts (`chapter_title_of`).
pub fn chapter_title(texts: &Vec<String>) -> (r: String)
    requires
        cuttable(raw_title(texts@.map_values(|s: String| s@))),
    ensures
        r@ == chapter_title_of(texts@.map_values(|s: String| s@)),
{
    let (joined_text, _) = joined_title(texts);
    let title = crate::text::trimmed(joined_text.as_str());
    let w = chars_of(title.as_str());
    let ghost t = raw_title(texts@.map_values(|s: String| s@));
    let len = utf8_length(&w);
    let end = if len > 50 {
        let (k, _) = byte_prefix(&w, 50);
        k
    } else {
        w.len()
    };
    let mut v: Vec<char> = Vec::new();
    let mut j: usize = 0;
    while j < end
        invariant
            end <= w.len(),
            j <= end,
            v@ == w@.take(j as int),
        decreases end - j,
    {
        v.push(w[j]);
        assert(w@.take(j + 1) =~= w@.take(j as int).push(w@[j as int]));
        j = j + 1;
    }
    assert(v@ == cut_to_bytes(t, 50)) by {
        if len <= 50 {
            assert(w@.take(w.len() as int) =~= w@);
        }
    }
    let mut r = String::new();
    push_flattened(&mut r, &v, 0, v.len());
    assert(v@.subrange(0, v.len() as int) =~= v@);
    assert(r@ =~= chapter_title_of(texts@.map_values(|s: String| s@)));
    r
}

/// The chapter list for the given chapters (`chapters_document`).
pub fn export_youtube_chapters(groups: &Vec<ChapterGroup>) -> (r: String)
    requires
        all_cuttable(groups@),
    ensures
        r@ == chapters_document(groups@),
{
    let mut r = "00:00 Intro\n".to_string();
    let ghost head = r@;
    let mut i: usize = 0;
    while i < groups.len()
        invariant
            i <= groups.len(),
            all_cuttable(groups@),
            head == "00:00 Intro\n"@,
            r@ == head + joined(i as int, |i: int| chapter_line(groups@[i])),
        decreases groups.len() - i,
    {
        let ghost before = r@;
        let g = &groups[i];
        let (_, count) = joined_title(&g.texts);
        if count > 0 {
            proof {
                assert(cuttable(raw_title(group_texts(groups@[i as int]))));
            }
            let time = format_youtube_time(g.start);
            r.append(time.as_str());
            r.append(" ");
            let title = chapter_title(&g.texts);
            r.append(title.as_str());
            r.append("\n");
        }
        proof {
            assert(joined(i + 1, |i: int| chapter_line(groups@[i])) == joined(
                i as int,
                |i: int| chapter_line(groups@[i]),
            ) + chapter_line(groups@[i as int]));
            assert(r@ =~= before + chapter_line(groups@[i as int]));
        }
        i = i + 1;
    }
    r
}

/// A chapter title is at most 50 bytes of UTF-8.
pub proof fn lemma_chapter_title_fits(texts: Seq<Seq<char>>)
    ensures
        utf8_len(chapter_title_of(texts)) <= 50,
{
    let t = raw_title(texts);
    let cut = cut_to_bytes(t, 50);
    lemma_flatten_not_longer(cut);
    if utf8_len(t) > 50 {
        lemma_prefix_fits(t, 50);
    }
}

} // verus!
