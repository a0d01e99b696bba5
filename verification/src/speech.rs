//! The bookkeeping of speech-to-text around the model: the audio extraction
//! arguments, the layout of the mel spectrogram the model reads, and the
//! 30-second windows the transcript is decoded in.

use vstd::prelude::*;
use crate::commands::CandleSttAnalyzer;
use crate::config::views;
use crate::text::{chars_of, contains, find_chars, lowercase_of, to_lowercase};

verus! {

/// The ffmpeg arguments that write the audio of `input` to stdout as 16 kHz mono
/// little-endian 32-bit float samples.
pub open spec fn audio_argv(input: Seq<char>) -> Seq<Seq<char>> {
    seq!["-i"@, input, "-ar"@, "16000"@, "-ac"@, "1"@, "-f"@, "f32le"@, "-"@]
}

impl CandleSttAnalyzer {
    /// The ffmpeg arguments that extract the audio the model listens to (`audio_argv`).
    pub fn audio_args(&self, input: &str) -> (r: Vec<String>)
        ensures
            views(r@) == audio_argv(input@),
    {
        let mut r: Vec<String> = Vec::new();
        r.push("-i".to_string());
        r.push(input.to_string());
        r.push("-ar".to_string());
        r.push("16000".to_string());
        r.push("-ac".to_string());
        r.push("1".to_string());
        r.push("-f".to_string());
        r.push("f32le".to_string());
        r.push("-".to_string());
        assert(views(r@) =~= audio_argv(input@));
        r
    }
}

/// Samples per analysis window (25 ms at 16 kHz).
pub const MEL_WINDOW: usize = 400;

/// Samples between windows (10 ms at 16 kHz).
pub const MEL_HOP: usize = 160;

/// Spectrogram frames per decoding window (30 s at 100 frames a second).
pub const DECODE_WINDOW: usize = 3000;

/// Decoding windows shorter than this many frames (1 s) are skipped.
pub const MIN_DECODE_FRAMES: usize = 100;

/// The number of spectrogram frames of `samples` samples padded by half a window on
/// each side: one per hop that leaves a whole window.
pub open spec fn frame_count(samples: nat) -> nat {
    samples / 160 + 1
}

/// The number of spectrogram frames for `samples` samples of audio (`frame_count`).
pub fn mel_frame_count(samples: usize) -> (r: usize)
    requires
        samples + 400 <= usize::MAX,
    ensures
        r == frame_count(samples as nat),
{
    let padded = samples + MEL_WINDOW / 2 * 2;
    (padded - MEL_WINDOW) / MEL_HOP + 1
}

/// The window bins `[low, high)` that mel band `band` of `bands` sums: the band's
/// share of 0-8 kHz on a linear scale, as bins of a 400-sample window at 16 kHz.
pub open spec fn band_bins(band: nat, bands: nat) -> (nat, nat) {
    let freq_low = band * 8000 / bands;
    let freq_high = (band + 1) * 8000 / bands;
    let low = freq_low * 400 / 16000;
    let high = freq_high * 400 / 16000;
    (low, if high < 400 {
        high
    } else {
        400
    })
}

/// The window bins that mel band `band` of `bands` sums (`band_bins`).
pub fn mel_band_bins(band: usize, bands: usize) -> (r: (usize, usize))
    requires
        0 < bands,
        band < bands,
        bands * 8000 <= usize::MAX,
    ensures
        r.0 == band_bins(band as nat, bands as nat).0,
        r.1 == band_bins(band as nat, bands as nat).1,
        r.0 <= r.1 <= 400,
{
    let freq_low = band * 8000 / bands;
    let freq_high = (band + 1) * 8000 / bands;
    assert(freq_low <= freq_high <= 8000) by (nonlinear_arith)
        requires
            freq_low == (band * 8000) as int / bands as int,
            freq_high == ((band + 1) * 8000) as int / bands as int,
            band < bands,
            0 < bands,
    ;
    let low = freq_low * 400 / 16000;
    let high = freq_high * 400 / 16000;
    assert(low <= high <= 200) by (nonlinear_arith)
        requires
            low == freq_low * 400 / 16000,
            high == freq_high * 400 / 16000,
            freq_low <= freq_high <= 8000,
    ;
    (low, if high < MEL_WINDOW { high } else { MEL_WINDOW })
}

/// Whether `windows` are the decoding windows of `frames` frames: consecutive
/// stretches of `DECODE_WINDOW` frames from the start (the last one possibly
/// shorter), leaving out a last stretch under `MIN_DECODE_FRAMES` frames.
pub open spec fn is_decode_windows(windows: Seq<(usize, usize)>, frames: nat) -> bool {
    let full = frames / 3000;
    let rest = frames % 3000;
    &&& windows.len() == if rest >= 100 {
        full + 1
    } else {
        full
    }
    &&& forall|k: int|
        0 <= k < windows.len() ==> #[trigger] windows[k] == (
            (3000 * k) as usize,
            if 3000 * k + 3000 <= frames {
                (3000 * k + 3000) as usize
            } else {
                frames as usize
            },
        )
}

/// The windows of `frames` spectrogram frames that the transcript is decoded in
/// (`is_decode_windows`).
pub fn decode_windows(frames: usize) -> (r: Vec<(usize, usize)>)
    ensures
        is_decode_windows(r@, frames as nat),
{
    let full = frames / DECODE_WINDOW;
    let rest = frames % DECODE_WINDOW;
    let count = if rest >= MIN_DECODE_FRAMES { full + 1 } else { full };
    let mut r: Vec<(usize, usize)> = Vec::new();
    let mut k: usize = 0;
    while k < count
        invariant
            full == frames / 3000,
            rest == frames % 3000,
            count == (if rest >= 100 { full + 1 } else { full as int }),
            k <= count,
            r.len() == k,
            forall|j: int|
                0 <= j < k ==> #[trigger] r@[j] == (
                    (3000 * j) as usize,
                    if 3000 * j + 3000 <= frames {
                        (3000 * j + 3000) as usize
                    } else {
                        frames as usize
                    },
                ),
        decreases count - k,
    {
        assert(3000 * k < frames) by (nonlinear_arith)
            requires
                k < count,
                count == (if rest >= 100 { full + 1 } else { full as int }),
                full == frames / 3000,
                rest == frames % 3000,
        ;
        let start = DECODE_WINDOW * k;
        let end = if frames - start >= DECODE_WINDOW {
            start + DECODE_WINDOW
        } else {
            frames
        };
        r.push((start, end));
        k = k + 1;
    }
    r
}

/// The decoding windows follow one another from frame 0, each holds at least
/// `MIN_DECODE_FRAMES` and at most `DECODE_WINDOW` frames, and together they cover
/// every frame but a short tail.
pub proof fn lemma_decode_windows_cover(windows: Seq<(usize, usize)>, frames: nat)
    requires
        frames <= usize::MAX,
        is_decode_windows(windows, frames),
    ensures
        windows.len() > 0 ==> windows[0].0 == 0,
        forall|k: int|
            0 <= k < windows.len() ==> (#[trigger] windows[k]).0 + 100 <= windows[k].1 <= windows[k].0
                + 3000,
        forall|k: int|
            0 <= k < windows.len() - 1 ==> (#[trigger] windows[k]).1 == windows[k + 1].0,
        windows.len() > 0 ==> frames - windows[windows.len() - 1].1 < 100,
        windows.len() == 0 ==> frames < 100,
{
    let full: int = (frames / 3000) as int;
    let rest: int = (frames % 3000) as int;
    assert(frames == 3000 * full + rest) by (nonlinear_arith)
        requires
            full == frames / 3000,
            rest == frames % 3000,
    ;
    assert forall|k: int|
        0 <= k < windows.len() implies (#[trigger] windows[k]).0 + 100 <= windows[k].1
        <= windows[k].0 + 3000 by {
        assert(3000 * k + 3000 <= frames || (k == full && rest >= 100)) by (nonlinear_arith)
            requires
                0 <= k < (if rest >= 100 { full + 1 } else { full }),
                frames == 3000 * full + rest,
                0 <= rest < 3000,
        ;
        assert(3000 * k < frames) by (nonlinear_arith)
            requires
                0 <= k < (if rest >= 100 { full + 1 } else { full }),
                frames == 3000 * full + rest,
                0 <= rest < 3000,
        ;
    }
    assert forall|k: int| 0 <= k < windows.len() - 1 implies (#[trigger] windows[k]).1 == windows[k
        + 1].0 by {
        assert(3000 * k + 3000 <= frames) by (nonlinear_arith)
            requires
                0 <= k < (if rest >= 100 { full + 1 } else { full }) - 1,
                frames == 3000 * full + rest,
                0 <= rest < 3000,
        ;
        assert(3000 * (k + 1) < frames) by (nonlinear_arith)
            requires
                0 <= k < (if rest >= 100 { full + 1 } else { full }) - 1,
                frames == 3000 * full + rest,
                0 <= rest < 3000,
        ;
    }
    if windows.len() > 0 {
        let last = windows.len() - 1;
        if rest >= 100 {
            assert(3000 * last + 3000 > frames) by (nonlinear_arith)
                requires
                    last == full,
                    frames == 3000 * full + rest,
                    rest < 3000,
            ;
        } else {
            assert(3000 * last + 3000 == 3000 * full) by (nonlinear_arith)
                requires
                    last == full - 1,
            ;
        }
    }
}

/// Whether a transcript text holds one of the filler words, letter case of the
/// text ignored (the words are matched as given).
pub open spec fn has_filler(text: Seq<char>, words: Seq<String>) -> bool {
    exists|i: int| 0 <= i < words.len() && contains(lowercase_of(text), #[trigger] words[i]@)
}

/// Whether a transcript text holds one of the filler words (`has_filler`).
pub fn is_filler(text: &str, words: &Vec<String>) -> (r: bool)
    ensures
        r == has_filler(text@, words@),
{
    let lower = chars_of(to_lowercase(text).as_str());
    let mut i: usize = 0;
    while i < words.len()
        invariant
            i <= words.len(),
            lower@ == lowercase_of(text@),
            forall|j: int| 0 <= j < i ==> !contains(lowercase_of(text@), #[trigger] words@[j]@),
        decreases words.len() - i,
    {
        let w = chars_of(words[i].as_str());
        if find_chars(&lower, &w).is_some() {
            assert(contains(lowercase_of(text@), words@[i as int]@));
            return true;
        }
        i = i + 1;
    }
    false
}

} // verus!
