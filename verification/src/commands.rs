//! The external tools the processing steps run, and the argument lists handed to
//! them: ffmpeg for silence detection, trimming, filtering and concatenation,
//! ffprobe for durations, and the speech-to-text model.

use vstd::prelude::*;
use crate::config::views;

verus! {

/// Silence detection through ffmpeg's `silencedetect` filter.
pub struct FfmpegAnalyzer;

/// Media durations through ffprobe.
pub struct FfmpegDurationGetter;

/// Trimming, filtering and mixing through ffmpeg.
pub struct FfmpegEditor;

/// Speech-to-text through a Whisper model.
pub struct CandleSttAnalyzer;

/// Appends one argument.
fn push_arg(args: &mut Vec<String>, a: &str)
    ensures
        views(final(args)@) == views(old(args)@).push(a@),
{
    args.push(a.to_string());
    assert(views(args@) =~= views(old(args)@).push(a@));
}

/// Appends one argument that was built in place.
fn push_owned(args: &mut Vec<String>, a: String)
    ensures
        views(final(args)@) == views(old(args)@).push(a@),
{
    let ghost v = a@;
    args.push(a);
    assert(views(args@) =~= views(old(args)@).push(v));
}

/// Appends the arguments that tell ffmpeg to overwrite `output`.
fn push_overwrite(args: &mut Vec<String>, output: &str)
    ensures
        views(final(args)@) == views(old(args)@) + seq!["-y"@, output@],
{
    push_arg(args, "-y");
    push_arg(args, output);
    assert(views(args@) =~= views(old(args)@) + seq!["-y"@, output@]);
}

/// The `silencedetect` filter for a noise floor and a minimum length, both as ffmpeg reads them.
pub open spec fn silence_filter(threshold: Seq<char>, duration: Seq<char>) -> Seq<char> {
    "silencedetect=noise="@ + threshold + "dB:d="@ + duration
}

/// The ffmpeg arguments that report the silences of `input` without writing any output.
pub open spec fn silence_detect_argv(input: Seq<char>, threshold: Seq<char>, duration: Seq<char>) -> Seq<
    Seq<char>,
> {
    seq!["-i"@, input, "-af"@, silence_filter(threshold, duration), "-f"@, "null"@, "-"@]
}

impl FfmpegAnalyzer {
    /// The ffmpeg arguments for silence detection on `input` (`silence_detect_argv`);
    /// `threshold` and `duration` are the noise floor in dB and the minimum length in
    /// seconds, written as numbers.
    pub fn silence_detect_args(&self, input: &str, threshold: &str, duration: &str) -> (r: Vec<
        String,
    >)
        ensures
            views(r@) == silence_detect_argv(input@, threshold@, duration@),
    {
        let mut filter = "silencedetect=noise=".to_string();
        filter.append(threshold);
        filter.append("dB:d=");
        filter.append(duration);
        let mut r: Vec<String> = Vec::new();
        push_arg(&mut r, "-i");
        push_arg(&mut r, input);
        push_arg(&mut r, "-af");
        push_owned(&mut r, filter);
        push_arg(&mut r, "-f");
        push_arg(&mut r, "null");
        push_arg(&mut r, "-");
        assert(views(r@) =~= silence_detect_argv(input@, threshold@, duration@));
        r
    }
}

/// The ffprobe arguments that print the duration of `input` in seconds and nothing else.
pub open spec fn probe_argv(input: Seq<char>) -> Seq<Seq<char>> {
    seq![
        "-v"@,
        "error"@,
        "-show_entries"@,
        "format=duration"@,
        "-of"@,
        "default=noprint_wrappers=1:nokey=1"@,
        input,
    ]
}

impl FfmpegDurationGetter {
    /// The ffprobe arguments for the duration of `input` (`probe_argv`).
    pub fn probe_args(&self, input: &str) -> (r: Vec<String>)
        ensures
            views(r@) == probe_argv(input@),
    {
        let mut r: Vec<String> = Vec::new();
        push_arg(&mut r, "-v");
        push_arg(&mut r, "error");
        push_arg(&mut r, "-show_entries");
        push_arg(&mut r, "format=duration");
        push_arg(&mut r, "-of");
        push_arg(&mut r, "default=noprint_wrappers=1:nokey=1");
        push_arg(&mut r, input);
        assert(views(r@) =~= probe_argv(input@));
        r
    }
}

/// FFT noise reduction for steady background noise.
pub open spec fn noise_filter() -> Seq<char> {
    "afftdn=nf=-25:tn=1"@
}

/// Contrast, brightness and saturation lift with light sharpening.
pub open spec fn color_filter() -> Seq<char> {
    "eq=contrast=1.1:brightness=0.05:saturation=1.1,unsharp=5:5:0.5:5:5:0.0"@
}

/// The graph that blurs the background and keeps the speaker sharp: input 0 is the
/// video, input 1 a person mask of the same size and length (white where the
/// speaker is). The video is split; one copy is box-blurred as the background, the
/// other takes the mask as its alpha channel, so only the speaker's pixels are
/// opaque, and is laid over the blurred copy. Where the mask is white the output
/// shows the input's own pixels.
pub open spec fn masked_blur_graph() -> Seq<char> {
    "[0:v]split[a][b];[a]boxblur=20:5[bg];[1:v]format=gray[mask];[b][mask]alphamerge[fg];[bg][fg]overlay=format=auto[outv]"@
}

/// Arguments that blur the background of `input` behind the speaker that `mask`
/// marks, keeping the audio if there is any.
pub open spec fn masked_blur_argv(input: Seq<char>, mask: Seq<char>, output: Seq<char>) -> Seq<
    Seq<char>,
> {
    seq![
        "-i"@,
        input,
        "-i"@,
        mask,
        "-filter_complex"@,
        masked_blur_graph(),
        "-map"@,
        "[outv]"@,
        "-map"@,
        "0:a?"@,
        "-c:a"@,
        "copy"@,
        "-y"@,
        output,
    ]
}

/// A centred 9:16 crop scaled to 1080x1920, used when no face track is available.
pub open spec fn center_crop_filter() -> Seq<char> {
    "crop=ih*9/16:ih,scale=1080:1920"@
}

/// The file the first stabilisation pass writes its transforms to.
pub open spec fn transforms_file() -> Seq<char> {
    "/tmp/transforms.trf"@
}

/// Arguments that run an audio filter and copy the video stream.
pub open spec fn audio_filter_argv(input: Seq<char>, filter: Seq<char>, output: Seq<char>) -> Seq<
    Seq<char>,
> {
    seq!["-i"@, input, "-af"@, filter, "-c:v"@, "copy"@, "-y"@, output]
}

/// Arguments that run a video filter and copy the audio stream.
pub open spec fn video_filter_argv(input: Seq<char>, filter: Seq<char>, output: Seq<char>) -> Seq<
    Seq<char>,
> {
    seq!["-i"@, input, "-vf"@, filter, "-c:a"@, "copy"@, "-y"@, output]
}

/// Arguments of the first stabilisation pass: motion analysis into the transforms file.
pub open spec fn stabilize_detect_argv(input: Seq<char>) -> Seq<Seq<char>> {
    seq![
        "-i"@,
        input,
        "-vf"@,
        "vidstabdetect=stepsize=6:shakiness=5:accuracy=15:result="@ + transforms_file(),
        "-f"@,
        "null"@,
        "-"@,
    ]
}

/// The filter of the second stabilisation pass.
pub open spec fn stabilize_transform_filter() -> Seq<char> {
    "vidstabtransform=input="@ + transforms_file() + ":smoothing=10:optzoom=1:interpol=bicubic"@
}

/// Arguments that mix `music` under `input` through the ducking graph and keep the video.
pub open spec fn mix_argv(input: Seq<char>, music: Seq<char>, graph: Seq<char>, output: Seq<char>) -> Seq<
    Seq<char>,
> {
    seq![
        "-i"@,
        input,
        "-i"@,
        music,
        "-filter_complex"@,
        graph,
        "-map"@,
        "0:v"@,
        "-map"@,
        "[outa]"@,
        "-y"@,
        output,
    ]
}

/// Arguments of one trim job: the video and audio graphs run together and the result
/// re-encoded with x264 and AAC, ready for streaming.
pub open spec fn trim_argv(input: Seq<char>, video_graph: Seq<char>, audio_graph: Seq<char>, output: Seq<
    char,
>) -> Seq<Seq<char>> {
    seq![
        "-i"@,
        input,
        "-filter_complex"@,
        video_graph + audio_graph,
        "-map"@,
        "[outv]"@,
        "-map"@,
        "[outa]"@,
        "-c:v"@,
        "libx264"@,
        "-preset"@,
        "veryfast"@,
        "-crf"@,
        "20"@,
        "-c:a"@,
        "aac"@,
        "-b:a"@,
        "192k"@,
        "-movflags"@,
        "+faststart"@,
        "-y"@,
        output,
    ]
}

/// Arguments that join the files of a concat list without re-encoding.
pub open spec fn concat_argv(list: Seq<char>, output: Seq<char>) -> Seq<Seq<char>> {
    seq!["-f"@, "concat"@, "-safe"@, "0"@, "-i"@, list, "-c"@, "copy"@, "-y"@, output]
}

/// Builds `audio_filter_argv`.
fn audio_filter_args(input: &str, filter: &str, output: &str) -> (r: Vec<String>)
    ensures
        views(r@) == audio_filter_argv(input@, filter@, output@),
{
    let mut r: Vec<String> = Vec::new();
    push_arg(&mut r, "-i");
    push_arg(&mut r, input);
    push_arg(&mut r, "-af");
    push_arg(&mut r, filter);
    push_arg(&mut r, "-c:v");
    push_arg(&mut r, "copy");
    push_overwrite(&mut r, output);
    assert(views(r@) =~= audio_filter_argv(input@, filter@, output@));
    r
}

/// Builds `video_filter_argv`.
fn video_filter_args(input: &str, filter: &str, output: &str) -> (r: Vec<String>)
    ensures
        views(r@) == video_filter_argv(input@, filter@, output@),
{
    let mut r: Vec<String> = Vec::new();
    push_arg(&mut r, "-i");
    push_arg(&mut r, input);
    push_arg(&mut r, "-vf");
    push_arg(&mut r, filter);
    push_arg(&mut r, "-c:a");
    push_arg(&mut r, "copy");
    push_overwrite(&mut r, output);
    assert(views(r@) =~= video_filter_argv(input@, filter@, output@));
    r
}

impl FfmpegEditor {
    /// Arguments that reduce steady background noise (`noise_filter`).
    pub fn reduce_noise_args(&self, input: &str, output: &str) -> (r: Vec<String>)
        ensures
            views(r@) == audio_filter_argv(input@, noise_filter(), output@),
    {
        audio_filter_args(input, "afftdn=nf=-25:tn=1", output)
    }

    /// Arguments of the motion analysis pass of stabilisation (`stabilize_detect_argv`).
    pub fn stabilize_detect_args(&self, input: &str) -> (r: Vec<String>)
        ensures
            views(r@) == stabilize_detect_argv(input@),
    {
        let mut r: Vec<String> = Vec::new();
        push_arg(&mut r, "-i");
        push_arg(&mut r, input);
        push_arg(&mut r, "-vf");
        push_arg(&mut r, "vidstabdetect=stepsize=6:shakiness=5:accuracy=15:result=/tmp/transforms.trf");
        push_arg(&mut r, "-f");
        push_arg(&mut r, "null");
        push_arg(&mut r, "-");
        proof {
            reveal_strlit("vidstabdetect=stepsize=6:shakiness=5:accuracy=15:result=/tmp/transforms.trf");
            reveal_strlit("vidstabdetect=stepsize=6:shakiness=5:accuracy=15:result=");
            reveal_strlit("/tmp/transforms.trf");
            assert("vidstabdetect=stepsize=6:shakiness=5:accuracy=15:result=/tmp/transforms.trf"@
                =~= "vidstabdetect=stepsize=6:shakiness=5:accuracy=15:result="@ + transforms_file());
        }
        assert(views(r@) =~= stabilize_detect_argv(input@));
        r
    }

    /// Arguments of the pass that applies the stabilising transforms.
    pub fn stabilize_transform_args(&self, input: &str, output: &str) -> (r: Vec<String>)
        ensures
            views(r@) == video_filter_argv(input@, stabilize_transform_filter(), output@),
    {
        let filter = "vidstabtransform=input=/tmp/transforms.trf:smoothing=10:optzoom=1:interpol=bicubic";
        proof {
            reveal_strlit("vidstabtransform=input=/tmp/transforms.trf:smoothing=10:optzoom=1:interpol=bicubic");
            reveal_strlit("vidstabtransform=input=");
            reveal_strlit("/tmp/transforms.trf");
            reveal_strlit(":smoothing=10:optzoom=1:interpol=bicubic");
            assert(filter@ =~= stabilize_transform_filter());
        }
        video_filter_args(input, filter, output)
    }

    /// The file the stabilisation passes share (`transforms_file`).
    pub fn transforms_file(&self) -> (r: &'static str)
        ensures
            r@ == transforms_file(),
    {
        "/tmp/transforms.trf"
    }

    /// Arguments that correct colour (`color_filter`).
    pub fn color_correct_args(&self, input: &str, output: &str) -> (r: Vec<String>)
        ensures
            views(r@) == video_filter_argv(input@, color_filter(), output@),
    {
        video_filter_args(input, "eq=contrast=1.1:brightness=0.05:saturation=1.1,unsharp=5:5:0.5:5:5:0.0", output)
    }

    /// Arguments that blur the background and keep the speaker sharp, given the
    /// speaker's mask video (`masked_blur_argv`).
    pub fn blur_background_args(&self, input: &str, mask: &str, output: &str) -> (r: Vec<String>)
        ensures
            views(r@) == masked_blur_argv(input@, mask@, output@),
    {
        let mut r: Vec<String> = Vec::new();
        push_arg(&mut r, "-i");
        push_arg(&mut r, input);
        push_arg(&mut r, "-i");
        push_arg(&mut r, mask);
        push_arg(&mut r, "-filter_complex");
        push_arg(
            &mut r,
            "[0:v]split[a][b];[a]boxblur=20:5[bg];[1:v]format=gray[mask];[b][mask]alphamerge[fg];[bg][fg]overlay=format=auto[outv]",
        );
        push_arg(&mut r, "-map");
        push_arg(&mut r, "[outv]");
        push_arg(&mut r, "-map");
        push_arg(&mut r, "0:a?");
        push_arg(&mut r, "-c:a");
        push_arg(&mut r, "copy");
        push_overwrite(&mut r, output);
        assert(views(r@) =~= masked_blur_argv(input@, mask@, output@));
        r
    }

    /// The crop used for reframing when no face track is available (`center_crop_filter`).
    pub fn center_crop(&self) -> (r: &'static str)
        ensures
            r@ == center_crop_filter(),
    {
        "crop=ih*9/16:ih,scale=1080:1920"
    }

    /// Arguments that reframe to vertical with a crop filter: the face-tracking one, or
    /// `center_crop` when tracking is unavailable.
    pub fn reframe_args(&self, input: &str, crop: &str, output: &str) -> (r: Vec<String>)
        ensures
            views(r@) == video_filter_argv(input@, crop@, output@),
    {
        video_filter_args(input, crop, output)
    }

    /// Arguments that mix background music under the speech with a ducking graph
    /// (`mix_argv`).
    pub fn mix_with_music_args(&self, input: &str, music: &str, graph: &str, output: &str) -> (r:
        Vec<String>)
        ensures
            views(r@) == mix_argv(input@, music@, graph@, output@),
    {
        let mut r: Vec<String> = Vec::new();
        push_arg(&mut r, "-i");
        push_arg(&mut r, input);
        push_arg(&mut r, "-i");
        push_arg(&mut r, music);
        push_arg(&mut r, "-filter_complex");
        push_arg(&mut r, graph);
        push_arg(&mut r, "-map");
        push_arg(&mut r, "0:v");
        push_arg(&mut r, "-map");
        push_arg(&mut r, "[outa]");
        push_overwrite(&mut r, output);
        assert(views(r@) =~= mix_argv(input@, music@, graph@, output@));
        r
    }

    /// Arguments of one trim job over the graphs that `generate_trim_filters` builds
    /// (`trim_argv`).
    pub fn trim_job_args(&self, input: &str, video_graph: &str, audio_graph: &str, output: &str) -> (r:
        Vec<String>)
        ensures
            views(r@) == trim_argv(input@, video_graph@, audio_graph@, output@),
    {
        let mut graph = video_graph.to_string();
        graph.append(audio_graph);
        let mut r: Vec<String> = Vec::new();
        push_arg(&mut r, "-i");
        push_arg(&mut r, input);
        push_arg(&mut r, "-filter_complex");
        push_owned(&mut r, graph);
        push_arg(&mut r, "-map");
        push_arg(&mut r, "[outv]");
        push_arg(&mut r, "-map");
        push_arg(&mut r, "[outa]");
        push_arg(&mut r, "-c:v");
        push_arg(&mut r, "libx264");
        push_arg(&mut r, "-preset");
        push_arg(&mut r, "veryfast");
        push_arg(&mut r, "-crf");
        push_arg(&mut r, "20");
        push_arg(&mut r, "-c:a");
        push_arg(&mut r, "aac");
        push_arg(&mut r, "-b:a");
        push_arg(&mut r, "192k");
        push_arg(&mut r, "-movflags");
        push_arg(&mut r, "+faststart");
        push_overwrite(&mut r, output);
        assert(views(r@) =~= trim_argv(input@, video_graph@, audio_graph@, output@));
        r
    }

    /// Arguments that join trimmed chunks listed in a concat file (`concat_argv`).
    pub fn concat_args(&self, list: &str, output: &str) -> (r: Vec<String>)
        ensures
            views(r@) == concat_argv(list@, output@),
    {
        let mut r: Vec<String> = Vec::new();
        push_arg(&mut r, "-f");
        push_arg(&mut r, "concat");
        push_arg(&mut r, "-safe");
        push_arg(&mut r, "0");
        push_arg(&mut r, "-i");
        push_arg(&mut r, list);
        push_arg(&mut r, "-c");
        push_arg(&mut r, "copy");
        push_overwrite(&mut r, output);
        assert(views(r@) =~= concat_argv(list@, output@));
        r
    }
}

} // verus!
