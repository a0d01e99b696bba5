//! Reading the report that ffmpeg's `silencedetect` filter writes to stderr.
//!
//! Each `silence_start: <t>` line opens an interval and the next
//! `silence_end: <t> | silence_duration: <d>` line closes it. The library keeps
//! the text of each time stamp; the caller converts it to a number.

use vstd::prelude::*;
use crate::text::{
    chars_of, contains, find, find_chars, float_literal_chars, index_of,
    is_float_literal, lemma_find_bound, lemma_index_of, lines, split_lines, string_of, trim,
    trim_bounds,
};

verus! {

/// The text of one detected silent interval: where it starts and where it ends,
/// in seconds, as ffmpeg printed them.
pub struct SilenceText {
    pub start: String,
    pub end: String,
}

/// The marker of a line that opens a silent interval.
pub open spec fn start_key() -> Seq<char> {
    "silence_start:"@
}

/// The marker of a line that closes a silent interval.
pub open spec fn end_key() -> Seq<char> {
    "silence_end:"@
}

/// Scanner state: the start of an open interval, if any, and the intervals found.
pub type ScanState = (Option<Seq<char>>, Seq<(Seq<char>, Seq<char>)>);

/// The time text that follows `key` on `line` (where `key` occurs), trimmed.
pub open spec fn value_after(line: Seq<char>, key: Seq<char>) -> Seq<char> {
    trim(line.skip(find(line, key).unwrap() + key.len()))
}

/// The end time text of a closing line: what follows the marker, up to a `|` if any, trimmed.
pub open spec fn end_value(line: Seq<char>) -> Seq<char> {
    let part = line.skip(find(line, end_key()).unwrap() + end_key().len());
    match index_of(part, '|') {
        Some(p) => trim(part.take(p)),
        None => trim(part),
    }
}

/// One line of the report applied to the scanner state. A start whose text is not
/// a number is ignored; an end closes the open interval, and the interval is kept
/// only when its end text is a number.
pub open spec fn scan_line(st: ScanState, line: Seq<char>) -> ScanState {
    if contains(line, start_key()) {
        let v = value_after(line, start_key());
        if is_float_literal(v) {
            (Some(v), st.1)
        } else {
            st
        }
    } else if contains(line, end_key()) && st.0 is Some {
        let v = end_value(line);
        (None, if is_float_literal(v) { st.1.push((st.0.unwrap(), v)) } else { st.1 })
    } else {
        st
    }
}

/// The lines of a report applied in order.
pub open spec fn scan_lines(ls: Seq<Seq<char>>, st: ScanState) -> ScanState
    decreases ls.len(),
{
    if ls.len() == 0 {
        st
    } else {
        scan_lines(ls.drop_first(), scan_line(st, ls[0]))
    }
}

/// The silent intervals of a report, as (start text, end text) pairs.
pub open spec fn silence_report(output: Seq<char>) -> Seq<(Seq<char>, Seq<char>)> {
    scan_lines(lines(output), (None, seq![])).1
}

/// The view of the scanner's open start.
pub open spec fn pending_view(p: Option<Vec<char>>) -> Option<Seq<char>> {
    match p {
        Some(v) => Some(v@),
        None => None,
    }
}

/// The view of a found interval.
pub open spec fn interval_view(t: SilenceText) -> (Seq<char>, Seq<char>) {
    (t.start@, t.end@)
}

fn trimmed_tail(v: &Vec<char>, from: usize, to: usize) -> (r: Vec<char>)
    requires
        from <= to <= v.len(),
    ensures
        r@ == trim(v@.subrange(from as int, to as int)),
{
    let (a, b) = trim_bounds(v, from, to);
    let mut r: Vec<char> = Vec::new();
    let mut k = a;
    while k < b
        invariant
            a <= k <= b <= v.len(),
            r@ == v@.subrange(a as int, k as int),
        decreases b - k,
    {
        r.push(v[k]);
        assert(v@.subrange(a as int, k + 1) =~= v@.subrange(a as int, k as int).push(v@[k as int]));
        k = k + 1;
    }
    r
}

fn first_bar(v: &Vec<char>, from: usize) -> (r: Option<usize>)
    requires
        from <= v.len(),
    ensures
        r matches Some(i) ==> from <= i < v.len() && index_of(v@.skip(from as int), '|') == Some(
            i - from,
        ),
        r is None ==> index_of(v@.skip(from as int), '|') is None,
{
    let mut i = from;
    while i < v.len() && v[i] != '|'
        invariant
            from <= i <= v.len(),
            forall|j: int| from <= j < i ==> v@[j] != '|',
        decreases v.len() - i,
    {
        i = i + 1;
    }
    proof {
        lemma_index_of(v@.skip(from as int), '|', i - from);
    }
    if i < v.len() {
        Some(i)
    } else {
        None
    }
}

/// The silent intervals that a `silencedetect` report lists, in order, with the
/// text of their start and end times (`silence_report`).
pub fn parse_ffmpeg_silence(output: &str) -> (r: Vec<SilenceText>)
    ensures
        r@.map_values(|t: SilenceText| interval_view(t)) == silence_report(output@),
{
    let text = chars_of(output);
    let ls = split_lines(&text);
    let start_marker = chars_of("silence_start:");
    let end_marker = chars_of("silence_end:");
    let ghost all = lines(output@);
    let mut pending: Option<Vec<char>> = None;
    let mut found: Vec<SilenceText> = Vec::new();
    let mut i: usize = 0;
    proof {
        assert(all.skip(0) =~= all);
        assert(found@.map_values(|t: SilenceText| interval_view(t)) =~= Seq::<
            (Seq<char>, Seq<char>),
        >::empty());
    }
    while i < ls.len()
        invariant
            i <= ls.len(),
            ls@.map_values(|l: Vec<char>| l@) == all,
            start_marker@ == start_key(),
            end_marker@ == end_key(),
            scan_lines(all, (None, seq![])) == scan_lines(
                all.skip(i as int),
                (
                    pending_view(pending),
                    found@.map_values(|t: SilenceText| interval_view(t)),
                ),
            ),
        decreases ls.len() - i,
    {
        let line = &ls[i];
        proof {
            assert(all[i as int] == line@);
            assert(all.skip(i as int).drop_first() =~= all.skip(i + 1));
            assert(all.skip(i as int)[0] == line@);
        }
        let at_start = find_chars(line, &start_marker);
        match at_start {
            Some(pos) => {
                proof {
                    lemma_find_bound(line@, start_key());
                }
                let from = pos + start_marker.len();
                let v = trimmed_tail(line, from, line.len());
                assert(v@ == value_after(line@, start_key())) by {
                    assert(line@.subrange(from as int, line.len() as int) =~= line@.skip(from as int));
                }
                if float_literal_chars(&v) {
                    pending = Some(v);
                }
            },
            None => {
                let at_end = find_chars(line, &end_marker);
                match at_end {
                    Some(pos) => {
                        if pending.is_some() {
                            proof {
                                lemma_find_bound(line@, end_key());
                            }
                            let from = pos + end_marker.len();
                            let ghost part = line@.skip(from as int);
                            let bar = first_bar(line, from);
                            let v = match bar {
                                Some(b) => {
                                    assert(part.take(b - from) =~= line@.subrange(
                                        from as int,
                                        b as int,
                                    ));
                                    trimmed_tail(line, from, b)
                                },
                                None => {
                                    assert(part =~= line@.subrange(
                                        from as int,
                                        line.len() as int,
                                    ));
                                    trimmed_tail(line, from, line.len())
                                },
                            };
                            assert(v@ == end_value(line@));
                            let start = match pending {
                                Some(p) => p,
                                None => Vec::new(),
                            };
                            pending = None;
                            if float_literal_chars(&v) {
                                let item = SilenceText { start: string_of(&start), end: string_of(&v) };
                                let ghost before = found@.map_values(
                                    |t: SilenceText| interval_view(t),
                                );
                                found.push(item);
                                assert(found@.map_values(|t: SilenceText| interval_view(t))
                                    =~= before.push((start@, v@)));
                            }
                        }
                    },
                    None => {},
                }
            },
        }
        i = i + 1;
    }
    proof {
        assert(all.skip(i as int) =~= Seq::<Seq<char>>::empty());
    }
    found
}

} // verus!
