//! Watching folders for new videos: which files count as videos or music, which
//! files have been handled, the heartbeat message, the clock shown in logs, the
//! log level, and picking a background track.

use vstd::prelude::*;
use vstd::string::StringExecFns;
use rand::seq::IndexedRandom;
use crate::config::{views, WatchFolder};
use crate::text::{
    ascii_lowered, is_ascii_text, lowercase_of, push_padded, str_eq, to_lowercase, zero_padded,
};

verus! {

/// A kind of file recognised by its extension.
#[derive(Clone, Copy, Debug, PartialEq, Eq, Structural)]
pub enum FileKind {
    /// Videos picked up in watch mode: mp4, mov, avi, mkv, webm.
    WatchedVideo,
    /// Videos picked up in batch mode: mp4, mov, avi.
    BatchVideo,
    /// Background music: mp3, wav, m4a, aac, ogg, flac.
    Music,
}

/// Whether a lowercase extension belongs to a kind of file.
pub open spec fn kind_has_extension(kind: FileKind, ext: Seq<char>) -> bool {
    match kind {
        FileKind::WatchedVideo => ext == "mp4"@ || ext == "mov"@ || ext == "avi"@ || ext == "mkv"@
            || ext == "webm"@,
        FileKind::BatchVideo => ext == "mp4"@ || ext == "mov"@ || ext == "avi"@,
        FileKind::Music => ext == "mp3"@ || ext == "wav"@ || ext == "m4a"@ || ext == "aac"@ || ext
            == "ogg"@ || ext == "flac"@,
    }
}

/// Whether a file with extension `ext` (if it has one) is of a kind, letter case ignored.
pub open spec fn is_of_kind(kind: FileKind, ext: Option<Seq<char>>) -> bool {
    match ext {
        Some(e) => kind_has_extension(kind, lowercase_of(e)),
        None => false,
    }
}

impl FileKind {
    /// Whether a lowercase extension belongs to this kind (`kind_has_extension`).
    pub fn has_lowercase_extension(&self, ext: &str) -> (r: bool)
        ensures
            r == kind_has_extension(*self, ext@),
    {
        match self {
            FileKind::WatchedVideo => str_eq(ext, "mp4") || str_eq(ext, "mov") || str_eq(ext, "avi")
                || str_eq(ext, "mkv") || str_eq(ext, "webm"),
            FileKind::BatchVideo => str_eq(ext, "mp4") || str_eq(ext, "mov") || str_eq(ext, "avi"),
            FileKind::Music => str_eq(ext, "mp3") || str_eq(ext, "wav") || str_eq(ext, "m4a")
                || str_eq(ext, "aac") || str_eq(ext, "ogg") || str_eq(ext, "flac"),
        }
    }

    /// Whether a file whose extension is `ext` is of this kind, letter case ignored;
    /// a file without an extension is of no kind.
    pub fn matches(&self, ext: Option<&str>) -> (r: bool)
        ensures
            r == is_of_kind(
                *self,
                match ext {
                    Some(e) => Some(e@),
                    None => None,
                },
            ),
            (ext matches Some(e) && is_ascii_text(e@)) ==> r == kind_has_extension(
                *self,
                ascii_lowered(ext.unwrap()@),
            ),
    {
        match ext {
            Some(e) => {
                let lower = to_lowercase(e);
                self.has_lowercase_extension(lower.as_str())
            },
            None => false,
        }
    }
}

/// The files handled so far in one watched folder, and the poll counter.
pub struct WatchTracker {
    processed: Vec<String>,
    heartbeat: u32,
}

impl WatchTracker {
    /// The paths handled so far.
    pub closed spec fn seen(&self) -> Set<Seq<char>> {
        views(self.processed@).to_set()
    }

    /// How many polls have passed.
    pub closed spec fn polls(&self) -> nat {
        self.heartbeat as nat
    }

    /// Each handled path is recorded once.
    pub closed spec fn wf(&self) -> bool {
        views(self.processed@).no_duplicates()
    }

    /// A tracker that has handled nothing.
    pub fn new() -> (r: Self)
        ensures
            r.wf(),
            r.seen() == Set::<Seq<char>>::empty(),
            r.polls() == 0,
    {
        let r = WatchTracker { processed: Vec::new(), heartbeat: 0 };
        assert(views(r.processed@).to_set() =~= Set::<Seq<char>>::empty());
        r
    }

    /// Whether `path` has been handled.
    pub fn is_processed(&self, path: &str) -> (r: bool)
        ensures
            r == self.seen().contains(path@),
    {
        let mut i: usize = 0;
        while i < self.processed.len()
            invariant
                i <= self.processed.len(),
                forall|j: int| 0 <= j < i ==> self.processed@[j]@ != path@,
            decreases self.processed.len() - i,
        {
            if str_eq(self.processed[i].as_str(), path) {
                assert(views(self.processed@)[i as int] == path@);
                return true;
            }
            i = i + 1;
        }
        proof {
            if views(self.processed@).contains(path@) {
                let j = choose|j: int|
                    0 <= j < views(self.processed@).len() && views(self.processed@)[j] == path@;
                assert(self.processed@[j]@ == path@);
            }
        }
        false
    }

    /// Records `path` as handled; a path once recorded stays recorded.
    pub fn mark_processed(&mut self, path: &str)
        requires
            old(self).wf(),
        ensures
            final(self).wf(),
            final(self).seen() == old(self).seen().insert(path@),
            final(self).polls() == old(self).polls(),
    {
        if !self.is_processed(path) {
            let ghost before = views(self.processed@);
            self.processed.push(path.to_string());
            proof {
                assert(views(self.processed@) =~= before.push(path@));
                assert(!before.contains(path@));
                before.lemma_push_to_set_commute(path@);
                assert(views(self.processed@).to_set() =~= before.to_set().insert(path@));
            }
        } else {
            assert(self.seen().insert(path@) =~= self.seen());
        }
    }

    /// Records every watched video among the entries of the folder (path and
    /// extension) as handled: the files present when watching starts are skipped.
    pub fn skip_existing(&mut self, entries: &Vec<(String, Option<String>)>)
        requires
            old(self).wf(),
        ensures
            final(self).wf(),
            final(self).seen() == old(self).seen().union(
                paths_of_kind(FileKind::WatchedVideo, entries@).to_set(),
            ),
            final(self).polls() == old(self).polls(),
    {
        let videos = files_of_kind(FileKind::WatchedVideo, entries);
        let mut i: usize = 0;
        while i < videos.len()
            invariant
                i <= videos.len(),
                self.wf(),
                self.polls() == old(self).polls(),
                views(videos@) == paths_of_kind(FileKind::WatchedVideo, entries@),
                self.seen() == old(self).seen().union(views(videos@).take(i as int).to_set()),
            decreases videos.len() - i,
        {
            self.mark_processed(videos[i].as_str());
            proof {
                let t = views(videos@).take(i + 1);
                assert(t =~= views(videos@).take(i as int).push(videos@[i as int]@));
                views(videos@).take(i as int).lemma_push_to_set_commute(videos@[i as int]@);
                assert(self.seen() =~= old(self).seen().union(t.to_set()));
            }
            i = i + 1;
        }
        assert(views(videos@).take(videos.len() as int) =~= views(videos@));
    }

    /// Number of paths handled.
    pub fn processed_count(&self) -> (r: usize)
        requires
            self.wf(),
        ensures
            r == self.seen().len(),
    {
        proof {
            views(self.processed@).unique_seq_to_set();
        }
        self.processed.len()
    }

    /// Whether a file found in the folder is to be processed now: it is a watched
    /// video and has not been handled.
    pub fn should_process(&self, path: &str, ext: Option<&str>) -> (r: bool)
        ensures
            r == (is_of_kind(
                FileKind::WatchedVideo,
                match ext {
                    Some(e) => Some(e@),
                    None => None,
                },
            ) && !self.seen().contains(path@)),
    {
        FileKind::WatchedVideo.matches(ext) && !self.is_processed(path)
    }

    /// Counts one more poll; returns whether the heartbeat message is due (every
    /// sixth poll).
    pub fn tick(&mut self) -> (r: bool)
        requires
            old(self).polls() < u32::MAX,
        ensures
            final(self).polls() == old(self).polls() + 1,
            final(self).seen() == old(self).seen(),
            final(self).wf() == old(self).wf(),
            r == (final(self).polls() % 6 == 0),
    {
        self.heartbeat = self.heartbeat + 1;
        self.heartbeat % 6 == 0
    }

    /// Whether another poll can be counted.
    pub fn can_tick(&self) -> (r: bool)
        ensures
            r == (self.polls() < u32::MAX),
    {
        self.heartbeat < u32::MAX
    }
}

/// `HH:MM:SS` of the time of day of `secs` seconds since midnight of day 0.
pub open spec fn clock_text(secs: nat) -> Seq<char> {
    zero_padded((secs / 3600) % 24, 2) + ":"@ + zero_padded((secs / 60) % 60, 2) + ":"@
        + zero_padded(secs % 60, 2)
}

/// The time of day of a time stamp in seconds, as log lines show it (`clock_text`).
pub fn clock_time(secs: u64) -> (r: String)
    ensures
        r@ == clock_text(secs as nat),
{
    let mut r = String::new();
    push_padded(&mut r, (secs / 3600) % 24, 2);
    r.append(":");
    push_padded(&mut r, (secs / 60) % 60, 2);
    r.append(":");
    push_padded(&mut r, secs % 60, 2);
    assert(r@ =~= clock_text(secs as nat));
    r
}

/// The log filter for a verbosity count and the quiet switch.
pub open spec fn log_filter_of(verbose: u8, quiet: bool) -> Seq<char> {
    if quiet {
        "error"@
    } else if verbose == 0 {
        "warn"@
    } else if verbose == 1 {
        "info"@
    } else if verbose == 2 {
        "debug"@
    } else {
        "trace"@
    }
}

/// The log filter: errors only when quiet, otherwise warnings, and more with each `-v`.
pub fn log_filter(verbose: u8, quiet: bool) -> (r: &'static str)
    ensures
        r@ == log_filter_of(verbose, quiet),
{
    if quiet {
        "error"
    } else if verbose == 0 {
        "warn"
    } else if verbose == 1 {
        "info"
    } else if verbose == 2 {
        "debug"
    } else {
        "trace"
    }
}

/// Whether any of the folders is switched on.
pub fn has_enabled_folder(folders: &Vec<WatchFolder>) -> (r: bool)
    ensures
        r == exists|i: int| 0 <= i < folders.len() && (#[trigger] folders@[i]).enabled,
{
    let mut i: usize = 0;
    while i < folders.len()
        invariant
            i <= folders.len(),
            forall|j: int| 0 <= j < i ==> !(#[trigger] folders@[j]).enabled,
        decreases folders.len() - i,
    {
        if folders[i].enabled {
            return true;
        }
        i = i + 1;
    }
    false
}

/// The positions of the folders that are switched on, in order.
pub fn enabled_folders(folders: &Vec<WatchFolder>) -> (r: Vec<usize>)
    ensures
        forall|k: int| 0 <= k < r.len() ==> r@[k] < folders.len() && folders@[r@[k] as int].enabled,
        forall|k: int, l: int| 0 <= k < l < r.len() ==> r@[k] < r@[l],
        forall|i: int| 0 <= i < folders.len() && (#[trigger] folders@[i]).enabled ==> r@.contains(
            i as usize,
        ),
{
    let mut r: Vec<usize> = Vec::new();
    let mut i: usize = 0;
    while i < folders.len()
        invariant
            i <= folders.len(),
            forall|k: int| 0 <= k < r.len() ==> r@[k] < i && folders@[r@[k] as int].enabled,
            forall|k: int, l: int| 0 <= k < l < r.len() ==> r@[k] < r@[l],
            forall|j: int| 0 <= j < i && (#[trigger] folders@[j]).enabled ==> r@.contains(
                j as usize,
            ),
        decreases folders.len() - i,
    {
        if folders[i].enabled {
            let ghost before = r@;
            r.push(i);
            assert forall|j: int| 0 <= j < i + 1 && (#[trigger] folders@[j]).enabled implies r@.contains(
                j as usize,
            ) by {
                if j < i {
                    let k = choose|k: int| 0 <= k < before.len() && before[k] == j as usize;
                    assert(r@[k] == j as usize);
                } else {
                    assert(r@[r.len() - 1] == j as usize);
                }
            }
        }
        i = i + 1;
    }
    r
}

/// One of the items, chosen at random (`IndexedRandom::choose` with the thread's
/// generator): `None` exactly when there are none; which item comes back is left open.
#[verifier::external_body]
fn choose_random(items: &Vec<String>) -> (r: Option<String>)
    ensures
        r is None <==> items.len() == 0,
        r matches Some(x) ==> exists|i: int| 0 <= i < items.len() && items@[i]@ == x@,
{
    items.choose(&mut rand::rng()).cloned()
}

/// The paths of the entries of a folder (path and extension) that are of a kind, in order.
pub open spec fn paths_of_kind(kind: FileKind, entries: Seq<(String, Option<String>)>) -> Seq<
    Seq<char>,
>
    decreases entries.len(),
{
    if entries.len() == 0 {
        seq![]
    } else {
        let last = entries.last();
        paths_of_kind(kind, entries.drop_last()) + if is_of_kind(
            kind,
            match last.1 {
                Some(e) => Some(e@),
                None => None,
            },
        ) {
            seq![last.0@]
        } else {
            seq![]
        }
    }
}

/// The entries of a folder (path and extension) that are of a kind, in order: the
/// videos of a batch directory, or the music files to pick a background track from.
pub fn files_of_kind(kind: FileKind, entries: &Vec<(String, Option<String>)>) -> (r: Vec<String>)
    ensures
        views(r@) == paths_of_kind(kind, entries@),
{
    let mut r: Vec<String> = Vec::new();
    let mut i: usize = 0;
    while i < entries.len()
        invariant
            i <= entries.len(),
            views(r@) == paths_of_kind(kind, entries@.take(i as int)),
        decreases entries.len() - i,
    {
        let ext = match &entries[i].1 {
            Some(e) => Some(e.as_str()),
            None => None,
        };
        if kind.matches(ext) {
            r.push(entries[i].0.clone());
        }
        proof {
            assert(entries@.take(i + 1).drop_last() =~= entries@.take(i as int));
            assert(entries@.take(i + 1).last() == entries@[i as int]);
            assert(views(r@) =~= paths_of_kind(kind, entries@.take(i + 1)));
        }
        i = i + 1;
    }
    assert(entries@.take(entries.len() as int) =~= entries@);
    r
}

/// A background track chosen at random among the music files of a folder; `None`
/// when it has none.
pub fn pick_music(entries: &Vec<(String, Option<String>)>) -> (r: Option<String>)
    ensures
        r is None <==> paths_of_kind(FileKind::Music, entries@).len() == 0,
        r matches Some(p) ==> paths_of_kind(FileKind::Music, entries@).contains(p@),
{
    let files = files_of_kind(FileKind::Music, entries);
    let r = choose_random(&files);
    proof {
        if r is Some {
            let p = r->0;
            let i = choose|i: int| 0 <= i < files.len() && files@[i]@ == p@;
            assert(views(files@)[i] == p@);
        }
    }
    r
}

/// A desktop notification: its title and its text.
pub struct Notice {
    pub summary: String,
    pub body: String,
}

fn notice(summary: &str, body: String) -> (r: Notice)
    ensures
        r.summary@ == summary@,
        r.body@ == body@,
{
    Notice { summary: summary.to_string(), body }
}

/// The notice that processing of `input` has started.
pub fn processing_notice(input: &str) -> (r: Notice)
    ensures
        r.summary@ == "Processing Started"@,
        r.body@ == input@,
{
    notice("Processing Started", input.to_string())
}

/// The notice that `input` was processed into `output`.
pub fn complete_notice(input: &str, output: &str) -> (r: Notice)
    ensures
        r.summary@ == "Processing Complete"@,
        r.body@ == input@ + "\n→ "@ + output@,
{
    let mut body = input.to_string();
    body.append("\n→ ");
    body.append(output);
    notice("Processing Complete", body)
}

/// The notice that processing `input` failed with `error`.
pub fn error_notice(input: &str, error: &str) -> (r: Notice)
    ensures
        r.summary@ == "Processing Error"@,
        r.body@ == input@ + "\nError: "@ + error@,
{
    let mut body = input.to_string();
    body.append("\nError: ");
    body.append(error);
    notice("Processing Error", body)
}

/// The desktop window's notice that the file `name` was processed.
pub fn processed_file_notice(name: &str) -> (r: Notice)
    ensures
        r.summary@ == "Processing Complete"@,
        r.body@ == name@ + " has been processed"@,
{
    let mut body = name.to_string();
    body.append(" has been processed");
    notice("Processing Complete", body)
}

/// The desktop window's notice that processing the file `name` failed with `error`.
pub fn failed_file_notice(name: &str, error: &str) -> (r: Notice)
    ensures
        r.summary@ == "Processing Error"@,
        r.body@ == "Failed to process "@ + name@ + ": "@ + error@,
{
    let mut body = "Failed to process ".to_string();
    body.append(name);
    body.append(": ");
    body.append(error);
    notice("Processing Error", body)
}

/// The name of the output of a watched file: the file's own name, or `output.mp4`
/// for a path without one.
pub fn output_file_name(file_name: Option<&str>) -> (r: String)
    ensures
        r@ == match file_name {
            Some(n) => n@,
            None => "output.mp4"@,
        },
{
    match file_name {
        Some(n) => n.to_string(),
        None => "output.mp4".to_string(),
    }
}

} // verus!
