//! The processing pipeline of one video as a plan of steps, the intro/outro join,
//! the side files exported after processing and what they hold, and the tally of a
//! batch run.
//!
//! The caller carries out each step (running ffmpeg, removing and renaming
//! files) and reports nothing back: the plan depends only on the configuration.

use vstd::prelude::*;
use vstd::string::StringExecFns;
use crate::config::{Config, ExportConfig, views};
use crate::export::{
    all_cuttable, chapters_document, edl_document, export_edl, export_fcpxml, export_srt,
    export_youtube_chapters, fcpxml_document, srt_document, ChapterGroup, ClipTiming, SrtCue,
};
use crate::text::{decimal, joined, push_decimal};

verus! {

/// A processing stage that writes a new version of the video.
#[derive(Clone, Copy, Debug, PartialEq, Eq, Structural)]
pub enum Stage {
    Trim,
    ReduceNoise,
    EnhanceAudio,
    MixMusic,
    AddIntroOutro,
    Stabilize,
    ColorCorrect,
    Reframe,
    BlurBackground,
}

/// A file the pipeline reads or writes: the input video, the requested output, or
/// the scratch file of a stage (the output path with the stage's extension).
#[derive(Clone, Copy, Debug, PartialEq, Eq, Structural)]
pub enum FileRef {
    Source,
    Output,
    Scratch(Stage),
}

/// One step of the pipeline.
#[derive(Clone, Copy, Debug, PartialEq, Eq, Structural)]
pub enum Step {
    /// Run a stage from one file into another.
    Run(Stage, FileRef, FileRef),
    /// Remove a file, unless it is the output; a failure to remove it is ignored.
    DiscardUnlessOutput(FileRef),
    /// Rename a file to the output, unless it is the output.
    PublishUnlessOutput(FileRef),
}

/// The extension that the scratch file of a stage gets in place of the output's;
/// adding the intro and outro writes straight into the output and has none.
pub open spec fn scratch_extension(s: Stage) -> Option<Seq<char>> {
    match s {
        Stage::Trim => Some("trimmed.mp4"@),
        Stage::ReduceNoise => Some("denoised.mp4"@),
        Stage::EnhanceAudio => Some("enhanced.mp4"@),
        Stage::MixMusic => Some("music.mp4"@),
        Stage::AddIntroOutro => None,
        Stage::Stabilize => Some("stabilized.mp4"@),
        Stage::ColorCorrect => Some("corrected.mp4"@),
        Stage::Reframe => Some("reframed.mp4"@),
        Stage::BlurBackground => Some("blurred.mp4"@),
    }
}

impl Stage {
    /// The extension of this stage's scratch file.
    pub fn scratch_extension(&self) -> (r: Option<&'static str>)
        ensures
            r is Some <==> scratch_extension(*self) is Some,
            r matches Some(e) ==> e@ == scratch_extension(*self).unwrap(),
    {
        match self {
            Stage::Trim => Some("trimmed.mp4"),
            Stage::ReduceNoise => Some("denoised.mp4"),
            Stage::EnhanceAudio => Some("enhanced.mp4"),
            Stage::MixMusic => Some("music.mp4"),
            Stage::AddIntroOutro => None,
            Stage::Stabilize => Some("stabilized.mp4"),
            Stage::ColorCorrect => Some("corrected.mp4"),
            Stage::Reframe => Some("reframed.mp4"),
            Stage::BlurBackground => Some("blurred.mp4"),
        }
    }

    /// The progress message shown while this stage runs.
    pub fn label(&self) -> (r: &'static str)
        ensures
            r@ == stage_label(*self),
    {
        match self {
            Stage::Trim => "Trimming video",
            Stage::ReduceNoise => "Reducing noise",
            Stage::EnhanceAudio => "Enhancing audio",
            Stage::MixMusic => "Mixing background music",
            Stage::AddIntroOutro => "Adding intro/outro",
            Stage::Stabilize => "Stabilizing video",
            Stage::ColorCorrect => "Color correcting",
            Stage::Reframe => "Auto-reframing",
            Stage::BlurBackground => "Blurring background",
        }
    }
}

/// The progress message of a stage.
pub open spec fn stage_label(s: Stage) -> Seq<char> {
    match s {
        Stage::Trim => "Trimming video"@,
        Stage::ReduceNoise => "Reducing noise"@,
        Stage::EnhanceAudio => "Enhancing audio"@,
        Stage::MixMusic => "Mixing background music"@,
        Stage::AddIntroOutro => "Adding intro/outro"@,
        Stage::Stabilize => "Stabilizing video"@,
        Stage::ColorCorrect => "Color correcting"@,
        Stage::Reframe => "Auto-reframing"@,
        Stage::BlurBackground => "Blurring background"@,
    }
}

/// The choices that shape the pipeline.
#[derive(Clone, Copy, Debug, PartialEq, Eq, Structural)]
pub struct PipelineFlags {
    pub noise_reduction: bool,
    pub enhance: bool,
    pub music: bool,
    pub intro_or_outro: bool,
    pub stabilize: bool,
    pub color_correct: bool,
    pub reframe: bool,
    pub blur_background: bool,
}

/// The choices that a configuration and the presence of an intro or outro make.
pub open spec fn flags_of(config: Config, has_intro: bool, has_outro: bool) -> PipelineFlags {
    PipelineFlags {
        noise_reduction: config.audio.noise_reduction,
        enhance: config.audio.enhance,
        music: config.audio.music_file is Some,
        intro_or_outro: has_intro || has_outro,
        stabilize: config.video.stabilize,
        color_correct: config.video.color_correct,
        reframe: config.video.reframe,
        blur_background: config.video.blur_background,
    }
}

/// What the pipeline has done so far: the file holding the latest version, the
/// scratch files written and not yet removed or renamed, and whether every stage
/// read the latest version.
pub type PipelineState = (FileRef, Set<FileRef>, bool);

/// Whether the scratch files a step names are ones that have an extension.
pub open spec fn names_real_files(s: Step) -> bool {
    match s {
        Step::Run(_, i, o) => has_path(i) && has_path(o),
        Step::DiscardUnlessOutput(f) => has_path(f),
        Step::PublishUnlessOutput(f) => has_path(f),
    }
}

/// Whether every step of a plan names only files that stand for paths.
pub open spec fn all_name_real_files(plan: Seq<Step>) -> bool {
    forall|i: int| 0 <= i < plan.len() ==> names_real_files(#[trigger] plan[i])
}

/// Whether a file reference stands for a path: scratch files only of stages that have one.
pub open spec fn has_path(f: FileRef) -> bool {
    match f {
        FileRef::Scratch(st) => scratch_extension(st) is Some,
        _ => true,
    }
}

/// The effect of one step.
pub open spec fn apply_step(st: PipelineState, s: Step) -> PipelineState {
    match s {
        Step::Run(_, input, output) => (
            output,
            if output is Scratch {
                st.1.insert(output)
            } else {
                st.1
            },
            st.2 && input == st.0,
        ),
        Step::DiscardUnlessOutput(f) => (st.0, st.1.remove(f), st.2 && f != st.0),
        Step::PublishUnlessOutput(f) => (FileRef::Output, st.1.remove(f), st.2 && f == st.0),
    }
}

/// The effect of a sequence of steps, starting from the source video.
pub open spec fn run_steps(plan: Seq<Step>) -> PipelineState
    decreases plan.len(),
{
    if plan.len() == 0 {
        (FileRef::Source, Set::empty(), true)
    } else {
        apply_step(run_steps(plan.drop_last()), plan.last())
    }
}

/// The steps that move the latest version `cur` into `next` with `stage`, then remove
/// `cur` unless it is the output.
pub open spec fn stage_steps(stage: Stage, cur: FileRef, next: FileRef) -> Seq<Step> {
    seq![Step::Run(stage, cur, next)] + if cur != FileRef::Output {
        seq![Step::DiscardUnlessOutput(cur)]
    } else {
        seq![]
    }
}

/// A stage applied when `on`: the steps, and the file then holding the latest version.
pub open spec fn optional_stage(on: bool, stage: Stage, cur: FileRef, next: FileRef) -> (
    Seq<Step>,
    FileRef,
) {
    if on {
        (stage_steps(stage, cur, next), next)
    } else {
        (seq![], cur)
    }
}

/// Renaming the latest version to the output unless it already is the output.
pub open spec fn publish_steps(cur: FileRef) -> Seq<Step> {
    if cur != FileRef::Output {
        seq![Step::PublishUnlessOutput(cur)]
    } else {
        seq![]
    }
}

/// The pipeline: trim (straight into the output when nothing follows that needs a
/// separate file), reduce noise, enhance audio, mix music, add intro and outro (into the output)
/// or move the result to the output, then stabilize, color correct, reframe and
/// blur, each into its own scratch file, and move the last version to the output.
pub open spec fn pipeline(f: PipelineFlags) -> Seq<Step> {
    let trimmed = if f.noise_reduction || f.enhance || f.music || f.intro_or_outro {
        FileRef::Scratch(Stage::Trim)
    } else {
        FileRef::Output
    };
    let p1 = seq![Step::Run(Stage::Trim, FileRef::Source, trimmed)];
    let (p1b, c1) = optional_stage(
        f.noise_reduction,
        Stage::ReduceNoise,
        trimmed,
        FileRef::Scratch(Stage::ReduceNoise),
    );
    let (p2, c2) = optional_stage(
        f.enhance,
        Stage::EnhanceAudio,
        c1,
        FileRef::Scratch(Stage::EnhanceAudio),
    );
    let (p3, c3) = optional_stage(f.music, Stage::MixMusic, c2, FileRef::Scratch(Stage::MixMusic));
    let p4 = if f.intro_or_outro {
        stage_steps(Stage::AddIntroOutro, c3, FileRef::Output)
    } else {
        publish_steps(c3)
    };
    let (p5, c5) = optional_stage(
        f.stabilize,
        Stage::Stabilize,
        FileRef::Output,
        FileRef::Scratch(Stage::Stabilize),
    );
    let (p6, c6) = optional_stage(
        f.color_correct,
        Stage::ColorCorrect,
        c5,
        FileRef::Scratch(Stage::ColorCorrect),
    );
    let (p7, c7) = optional_stage(f.reframe, Stage::Reframe, c6, FileRef::Scratch(Stage::Reframe));
    let (p8, c8) = optional_stage(
        f.blur_background,
        Stage::BlurBackground,
        c7,
        FileRef::Scratch(Stage::BlurBackground),
    );
    p1 + p1b + p2 + p3 + p4 + p5 + p6 + p7 + p8 + publish_steps(c8)
}

/// The stages that a plan runs, in the order of its steps.
pub open spec fn stages_run(plan: Seq<Step>) -> Seq<Stage>
    decreases plan.len(),
{
    if plan.len() == 0 {
        seq![]
    } else {
        let before = stages_run(plan.drop_last());
        match plan.last() {
            Step::Run(stage, _, _) => before.push(stage),
            _ => before,
        }
    }
}

/// The one stage `stage` where `on` holds, else none.
pub open spec fn stage_if(on: bool, stage: Stage) -> Seq<Stage> {
    if on {
        seq![stage]
    } else {
        seq![]
    }
}

proof fn lemma_stages_run_concat(a: Seq<Step>, b: Seq<Step>)
    ensures
        stages_run(a + b) == stages_run(a) + stages_run(b),
    decreases b.len(),
{
    if b.len() == 0 {
        assert(a + b =~= a);
        assert(stages_run(a) + stages_run(b) =~= stages_run(a));
    } else {
        lemma_stages_run_concat(a, b.drop_last());
        assert((a + b).drop_last() =~= a + b.drop_last());
        assert((a + b).last() == b.last());
        match b.last() {
            Step::Run(stage, _, _) => {
                assert(stages_run(a) + stages_run(b.drop_last()).push(stage) =~= (stages_run(a)
                    + stages_run(b.drop_last())).push(stage));
            },
            _ => {},
        }
    }
}

proof fn lemma_stages_run_single(s: Step)
    ensures
        stages_run(seq![s]) == match s {
            Step::Run(stage, _, _) => seq![stage],
            _ => Seq::<Stage>::empty(),
        },
{
    assert(seq![s].drop_last() =~= Seq::<Step>::empty());
    assert(stages_run(Seq::<Step>::empty()) == Seq::<Stage>::empty());
    assert(seq![s].last() == s);
    if let Step::Run(stage, _, _) = s {
        assert(Seq::<Stage>::empty().push(stage) =~= seq![stage]);
    }
}

proof fn lemma_stages_run_stage(on: bool, stage: Stage, cur: FileRef, next: FileRef)
    ensures
        stages_run(optional_stage(on, stage, cur, next).0) == stage_if(on, stage),
        stages_run(stage_steps(stage, cur, next)) == seq![stage],
        stages_run(publish_steps(cur)) == Seq::<Stage>::empty(),
{
    lemma_stages_run_single(Step::Run(stage, cur, next));
    lemma_stages_run_single(Step::DiscardUnlessOutput(cur));
    lemma_stages_run_single(Step::PublishUnlessOutput(cur));
    assert(stages_run(Seq::<Step>::empty()) == Seq::<Stage>::empty());
    if cur != FileRef::Output {
        lemma_stages_run_concat(
            seq![Step::Run(stage, cur, next)],
            seq![Step::DiscardUnlessOutput(cur)],
        );
        assert(seq![stage] + Seq::<Stage>::empty() =~= seq![stage]);
    } else {
        assert(stage_steps(stage, cur, next) =~= seq![Step::Run(stage, cur, next)]);
    }
}

/// Every stage that the flags switch on runs, exactly once, and no other: trimming
/// first, then noise reduction, audio enhancement, music, intro and outro,
/// stabilization, color correction, reframing and background blur, each exactly
/// when its flag is on, in that order.
pub proof fn lemma_pipeline_stages(f: PipelineFlags)
    ensures
        stages_run(pipeline(f)) == seq![Stage::Trim] + stage_if(
            f.noise_reduction,
            Stage::ReduceNoise,
        ) + stage_if(f.enhance, Stage::EnhanceAudio) + stage_if(f.music, Stage::MixMusic)
            + stage_if(f.intro_or_outro, Stage::AddIntroOutro) + stage_if(
            f.stabilize,
            Stage::Stabilize,
        ) + stage_if(f.color_correct, Stage::ColorCorrect) + stage_if(f.reframe, Stage::Reframe)
            + stage_if(f.blur_background, Stage::BlurBackground),
{
    let trimmed = if f.noise_reduction || f.enhance || f.music || f.intro_or_outro {
        FileRef::Scratch(Stage::Trim)
    } else {
        FileRef::Output
    };
    let p1 = seq![Step::Run(Stage::Trim, FileRef::Source, trimmed)];
    let (p1b, c1) = optional_stage(
        f.noise_reduction,
        Stage::ReduceNoise,
        trimmed,
        FileRef::Scratch(Stage::ReduceNoise),
    );
    let (p2, c2) = optional_stage(
        f.enhance,
        Stage::EnhanceAudio,
        c1,
        FileRef::Scratch(Stage::EnhanceAudio),
    );
    let (p3, c3) = optional_stage(f.music, Stage::MixMusic, c2, FileRef::Scratch(Stage::MixMusic));
    let p4 = if f.intro_or_outro {
        stage_steps(Stage::AddIntroOutro, c3, FileRef::Output)
    } else {
        publish_steps(c3)
    };
    let (p5, c5) = optional_stage(
        f.stabilize,
        Stage::Stabilize,
        FileRef::Output,
        FileRef::Scratch(Stage::Stabilize),
    );
    let (p6, c6) = optional_stage(
        f.color_correct,
        Stage::ColorCorrect,
        c5,
        FileRef::Scratch(Stage::ColorCorrect),
    );
    let (p7, c7) = optional_stage(f.reframe, Stage::Reframe, c6, FileRef::Scratch(Stage::Reframe));
    let (p8, c8) = optional_stage(
        f.blur_background,
        Stage::BlurBackground,
        c7,
        FileRef::Scratch(Stage::BlurBackground),
    );
    let p9 = publish_steps(c8);
    lemma_stages_run_single(Step::Run(Stage::Trim, FileRef::Source, trimmed));
    lemma_stages_run_stage(
        f.noise_reduction,
        Stage::ReduceNoise,
        trimmed,
        FileRef::Scratch(Stage::ReduceNoise),
    );
    lemma_stages_run_stage(f.enhance, Stage::EnhanceAudio, c1, FileRef::Scratch(Stage::EnhanceAudio));
    lemma_stages_run_stage(f.music, Stage::MixMusic, c2, FileRef::Scratch(Stage::MixMusic));
    lemma_stages_run_stage(f.intro_or_outro, Stage::AddIntroOutro, c3, FileRef::Output);
    lemma_stages_run_stage(
        f.stabilize,
        Stage::Stabilize,
        FileRef::Output,
        FileRef::Scratch(Stage::Stabilize),
    );
    lemma_stages_run_stage(f.color_correct, Stage::ColorCorrect, c5, FileRef::Scratch(Stage::ColorCorrect));
    lemma_stages_run_stage(f.reframe, Stage::Reframe, c6, FileRef::Scratch(Stage::Reframe));
    lemma_stages_run_stage(
        f.blur_background,
        Stage::BlurBackground,
        c7,
        FileRef::Scratch(Stage::BlurBackground),
    );
    lemma_stages_run_stage(false, Stage::Trim, c8, c8);
    assert(stages_run(p4) == stage_if(f.intro_or_outro, Stage::AddIntroOutro));
    lemma_stages_run_concat(p1, p1b);
    lemma_stages_run_concat(p1 + p1b, p2);
    lemma_stages_run_concat(p1 + p1b + p2, p3);
    lemma_stages_run_concat(p1 + p1b + p2 + p3, p4);
    lemma_stages_run_concat(p1 + p1b + p2 + p3 + p4, p5);
    lemma_stages_run_concat(p1 + p1b + p2 + p3 + p4 + p5, p6);
    lemma_stages_run_concat(p1 + p1b + p2 + p3 + p4 + p5 + p6, p7);
    lemma_stages_run_concat(p1 + p1b + p2 + p3 + p4 + p5 + p6 + p7, p8);
    lemma_stages_run_concat(p1 + p1b + p2 + p3 + p4 + p5 + p6 + p7 + p8, p9);
    assert(stages_run(p9) + Seq::<Stage>::empty() =~= stages_run(p9));
}

/// Whether each step of `plan` touches only the files it should under `f`: every
/// stage writes its own scratch file, except that adding the intro and outro
/// writes the output, and so does trimming when no audio stage or intro/outro
/// follows; only scratch files are ever removed or renamed to the output, so the
/// source video is never touched.
pub open spec fn steps_well_aimed(plan: Seq<Step>, f: PipelineFlags) -> bool {
    forall|i: int|
        0 <= i < plan.len() ==> match #[trigger] plan[i] {
            Step::Run(stage, _, out) => out == if stage == Stage::AddIntroOutro || (stage
                == Stage::Trim && !(f.noise_reduction || f.enhance || f.music
                || f.intro_or_outro)) {
                FileRef::Output
            } else {
                FileRef::Scratch(stage)
            },
            Step::DiscardUnlessOutput(x) => x is Scratch,
            Step::PublishUnlessOutput(x) => x is Scratch,
        }
}

proof fn lemma_well_aimed_concat(a: Seq<Step>, b: Seq<Step>, f: PipelineFlags)
    requires
        steps_well_aimed(a, f),
        steps_well_aimed(b, f),
    ensures
        steps_well_aimed(a + b, f),
{
    assert forall|i: int| 0 <= i < (a + b).len() implies match #[trigger] (a + b)[i] {
        Step::Run(stage, _, out) => out == if stage == Stage::AddIntroOutro || (stage
            == Stage::Trim && !(f.noise_reduction || f.enhance || f.music || f.intro_or_outro)) {
            FileRef::Output
        } else {
            FileRef::Scratch(stage)
        },
        Step::DiscardUnlessOutput(x) => x is Scratch,
        Step::PublishUnlessOutput(x) => x is Scratch,
    } by {
        if i < a.len() {
            assert((a + b)[i] == a[i]);
        } else {
            assert((a + b)[i] == b[i - a.len()]);
        }
    }
}

proof fn lemma_stage_well_aimed(on: bool, stage: Stage, cur: FileRef, f: PipelineFlags)
    requires
        stage != Stage::Trim && stage != Stage::AddIntroOutro,
        cur is Scratch || cur == FileRef::Output,
    ensures
        steps_well_aimed(optional_stage(on, stage, cur, FileRef::Scratch(stage)).0, f),
        cur is Scratch ==> steps_well_aimed(publish_steps(cur), f),
{
}

/// The pipeline reads and writes only the files it should: each stage writes its
/// own scratch file (the intro/outro join, and trimming when nothing that needs a
/// separate file follows, write the output), and every file it removes or renames
/// to the output is a scratch file, never the source video.
pub proof fn lemma_pipeline_well_aimed(f: PipelineFlags)
    ensures
        steps_well_aimed(pipeline(f), f),
{
    let trimmed = if f.noise_reduction || f.enhance || f.music || f.intro_or_outro {
        FileRef::Scratch(Stage::Trim)
    } else {
        FileRef::Output
    };
    let p1 = seq![Step::Run(Stage::Trim, FileRef::Source, trimmed)];
    let (p1b, c1) = optional_stage(
        f.noise_reduction,
        Stage::ReduceNoise,
        trimmed,
        FileRef::Scratch(Stage::ReduceNoise),
    );
    let (p2, c2) = optional_stage(
        f.enhance,
        Stage::EnhanceAudio,
        c1,
        FileRef::Scratch(Stage::EnhanceAudio),
    );
    let (p3, c3) = optional_stage(f.music, Stage::MixMusic, c2, FileRef::Scratch(Stage::MixMusic));
    let p4 = if f.intro_or_outro {
        stage_steps(Stage::AddIntroOutro, c3, FileRef::Output)
    } else {
        publish_steps(c3)
    };
    let (p5, c5) = optional_stage(
        f.stabilize,
        Stage::Stabilize,
        FileRef::Output,
        FileRef::Scratch(Stage::Stabilize),
    );
    let (p6, c6) = optional_stage(
        f.color_correct,
        Stage::ColorCorrect,
        c5,
        FileRef::Scratch(Stage::ColorCorrect),
    );
    let (p7, c7) = optional_stage(f.reframe, Stage::Reframe, c6, FileRef::Scratch(Stage::Reframe));
    let (p8, c8) = optional_stage(
        f.blur_background,
        Stage::BlurBackground,
        c7,
        FileRef::Scratch(Stage::BlurBackground),
    );
    let p9 = publish_steps(c8);
    assert(steps_well_aimed(p1, f));
    lemma_stage_well_aimed(f.noise_reduction, Stage::ReduceNoise, trimmed, f);
    lemma_stage_well_aimed(f.enhance, Stage::EnhanceAudio, c1, f);
    lemma_stage_well_aimed(f.music, Stage::MixMusic, c2, f);
    assert(steps_well_aimed(p4, f));
    lemma_stage_well_aimed(f.stabilize, Stage::Stabilize, FileRef::Output, f);
    lemma_stage_well_aimed(f.color_correct, Stage::ColorCorrect, c5, f);
    lemma_stage_well_aimed(f.reframe, Stage::Reframe, c6, f);
    lemma_stage_well_aimed(f.blur_background, Stage::BlurBackground, c7, f);
    lemma_stage_well_aimed(false, Stage::BlurBackground, c8, f);
    assert(steps_well_aimed(p9, f));
    lemma_well_aimed_concat(p1, p1b, f);
    lemma_well_aimed_concat(p1 + p1b, p2, f);
    lemma_well_aimed_concat(p1 + p1b + p2, p3, f);
    lemma_well_aimed_concat(p1 + p1b + p2 + p3, p4, f);
    lemma_well_aimed_concat(p1 + p1b + p2 + p3 + p4, p5, f);
    lemma_well_aimed_concat(p1 + p1b + p2 + p3 + p4 + p5, p6, f);
    lemma_well_aimed_concat(p1 + p1b + p2 + p3 + p4 + p5 + p6, p7, f);
    lemma_well_aimed_concat(p1 + p1b + p2 + p3 + p4 + p5 + p6 + p7, p8, f);
    lemma_well_aimed_concat(p1 + p1b + p2 + p3 + p4 + p5 + p6 + p7 + p8, p9, f);
}

proof fn lemma_run_steps_push(plan: Seq<Step>, s: Step)
    ensures
        run_steps(plan.push(s)) == apply_step(run_steps(plan), s),
{
    assert(plan.push(s).drop_last() =~= plan);
}

fn push_step(plan: &mut Vec<Step>, s: Step)
    requires
        all_name_real_files(old(plan)@),
        names_real_files(s),
    ensures
        all_name_real_files(final(plan)@),
        final(plan)@ == old(plan)@.push(s),
        run_steps(final(plan)@) == apply_step(run_steps(old(plan)@), s),
{
    proof {
        lemma_run_steps_push(plan@, s);
    }
    plan.push(s);
}

fn push_stage(plan: &mut Vec<Step>, stage: Stage, cur: FileRef, next: FileRef)
    requires
        run_steps(old(plan)@).0 == cur,
        run_steps(old(plan)@).2,
        cur == FileRef::Output || run_steps(old(plan)@).1 == set![cur],
        cur == FileRef::Output ==> run_steps(old(plan)@).1 == Set::<FileRef>::empty(),
        next is Scratch || next == FileRef::Output,
        cur != next,
        all_name_real_files(old(plan)@),
        has_path(cur),
        has_path(next),
    ensures
        all_name_real_files(final(plan)@),
        final(plan)@ == old(plan)@ + stage_steps(stage, cur, next),
        run_steps(final(plan)@).0 == next,
        run_steps(final(plan)@).2,
        next == FileRef::Output ==> run_steps(final(plan)@).1 == Set::<FileRef>::empty(),
        next != FileRef::Output ==> run_steps(final(plan)@).1 == set![next],
{
    let ghost before = plan@;
    push_step(plan, Step::Run(stage, cur, next));
    if cur != FileRef::Output {
        push_step(plan, Step::DiscardUnlessOutput(cur));
        assert(run_steps(plan@).1 =~= if next == FileRef::Output {
            Set::<FileRef>::empty()
        } else {
            set![next]
        });
    } else {
        assert(run_steps(plan@).1 =~= if next == FileRef::Output {
            Set::<FileRef>::empty()
        } else {
            set![next]
        });
    }
    assert(plan@ =~= before + stage_steps(stage, cur, next));
}

fn push_publish(plan: &mut Vec<Step>, cur: FileRef)
    requires
        run_steps(old(plan)@).0 == cur,
        run_steps(old(plan)@).2,
        cur == FileRef::Output || run_steps(old(plan)@).1 == set![cur],
        cur == FileRef::Output ==> run_steps(old(plan)@).1 == Set::<FileRef>::empty(),
        all_name_real_files(old(plan)@),
        has_path(cur),
    ensures
        all_name_real_files(final(plan)@),
        final(plan)@ == old(plan)@ + publish_steps(cur),
        run_steps(final(plan)@) == (FileRef::Output, Set::<FileRef>::empty(), true),
{
    let ghost before = plan@;
    if cur != FileRef::Output {
        push_step(plan, Step::PublishUnlessOutput(cur));
        assert(run_steps(plan@).1 =~= Set::<FileRef>::empty());
    }
    assert(plan@ =~= before + publish_steps(cur));
}

/// The steps that turn the source video into the output (`pipeline`). Following
/// them, every stage reads the latest version, the result ends up in the output,
/// and no scratch file is left behind.
#[verifier::rlimit(40)]
pub fn plan_pipeline(config: &Config, has_intro: bool, has_outro: bool) -> (r: Vec<Step>)
    ensures
        r@ == pipeline(flags_of(*config, has_intro, has_outro)),
        stages_run(r@) == seq![Stage::Trim] + stage_if(
            config.audio.noise_reduction,
            Stage::ReduceNoise,
        ) + stage_if(config.audio.enhance, Stage::EnhanceAudio) + stage_if(
            config.audio.music_file is Some,
            Stage::MixMusic,
        ) + stage_if(has_intro || has_outro, Stage::AddIntroOutro) + stage_if(
            config.video.stabilize,
            Stage::Stabilize,
        ) + stage_if(config.video.color_correct, Stage::ColorCorrect) + stage_if(
            config.video.reframe,
            Stage::Reframe,
        ) + stage_if(config.video.blur_background, Stage::BlurBackground),
        run_steps(r@) == (FileRef::Output, Set::<FileRef>::empty(), true),
        all_name_real_files(r@),
        steps_well_aimed(r@, flags_of(*config, has_intro, has_outro)),
{
    let ghost f = flags_of(*config, has_intro, has_outro);
    let denoise = config.audio.noise_reduction;
    let enhance = config.audio.enhance;
    let music = config.audio.music_file.is_some();
    let joins = has_intro || has_outro;
    let mut plan: Vec<Step> = Vec::new();
    let trimmed = if denoise || enhance || music || joins {
        FileRef::Scratch(Stage::Trim)
    } else {
        FileRef::Output
    };
    push_step(&mut plan, Step::Run(Stage::Trim, FileRef::Source, trimmed));
    assert(run_steps(plan@).1 =~= if trimmed == FileRef::Output {
        Set::<FileRef>::empty()
    } else {
        set![trimmed]
    });
    let mut cur = trimmed;
    if denoise {
        push_stage(&mut plan, Stage::ReduceNoise, cur, FileRef::Scratch(Stage::ReduceNoise));
        cur = FileRef::Scratch(Stage::ReduceNoise);
    }
    if enhance {
        push_stage(&mut plan, Stage::EnhanceAudio, cur, FileRef::Scratch(Stage::EnhanceAudio));
        cur = FileRef::Scratch(Stage::EnhanceAudio);
    }
    if music {
        push_stage(&mut plan, Stage::MixMusic, cur, FileRef::Scratch(Stage::MixMusic));
        cur = FileRef::Scratch(Stage::MixMusic);
    }
    if joins {
        push_stage(&mut plan, Stage::AddIntroOutro, cur, FileRef::Output);
    } else {
        push_publish(&mut plan, cur);
    }
    cur = FileRef::Output;
    if config.video.stabilize {
        push_stage(&mut plan, Stage::Stabilize, cur, FileRef::Scratch(Stage::Stabilize));
        cur = FileRef::Scratch(Stage::Stabilize);
    }
    if config.video.color_correct {
        push_stage(&mut plan, Stage::ColorCorrect, cur, FileRef::Scratch(Stage::ColorCorrect));
        cur = FileRef::Scratch(Stage::ColorCorrect);
    }
    if config.video.reframe {
        push_stage(&mut plan, Stage::Reframe, cur, FileRef::Scratch(Stage::Reframe));
        cur = FileRef::Scratch(Stage::Reframe);
    }
    if config.video.blur_background {
        push_stage(&mut plan, Stage::BlurBackground, cur, FileRef::Scratch(Stage::BlurBackground));
        cur = FileRef::Scratch(Stage::BlurBackground);
    }
    push_publish(&mut plan, cur);
    assert(plan@ =~= pipeline(f));
    proof {
        lemma_pipeline_stages(f);
        lemma_pipeline_well_aimed(f);
    }
    plan
}

// ---------------------------------------------------------------------------
// Intro and outro
// ---------------------------------------------------------------------------

/// How the intro and outro are added to the processed video.
pub enum JoinPlan {
    /// Neither is given: the processed video is copied to the output.
    CopyMain,
    /// ffmpeg is run with these arguments.
    Concat(Vec<String>),
}

/// The videos joined, in order: the intro if any, the main video, the outro if any.
pub open spec fn join_inputs(
    intro: Option<Seq<char>>,
    main: Seq<char>,
    outro: Option<Seq<char>>,
) -> Seq<Seq<char>> {
    (match intro {
        Some(i) => seq![i],
        None => seq![],
    }) + seq![main] + match outro {
        Some(o) => seq![o],
        None => seq![],
    }
}

/// The stream labels of input `k`.
pub open spec fn input_streams(k: int) -> Seq<char> {
    "["@ + decimal(k as nat) + ":v]["@ + decimal(k as nat) + ":a]"@
}

/// The concat filter joining `n` inputs' video and audio into `[outv]` and `[outa]`.
pub open spec fn join_filter(n: nat) -> Seq<char> {
    joined(n as int, |k: int| input_streams(k)) + "concat=n="@ + decimal(n)
        + ":v=1:a=1[outv][outa]"@
}

/// Each input as the two arguments `-i` and its path, in order.
pub open spec fn input_args(inputs: Seq<Seq<char>>) -> Seq<Seq<char>>
    decreases inputs.len(),
{
    if inputs.len() == 0 {
        seq![]
    } else {
        input_args(inputs.drop_last()) + seq!["-i"@, inputs.last()]
    }
}

/// The ffmpeg arguments that join the inputs into `output`: `-i` and the path of
/// each input, the concat filter, the two output streams, overwrite.
pub open spec fn join_args(inputs: Seq<Seq<char>>, output: Seq<char>) -> Seq<Seq<char>> {
    input_args(inputs) + seq![
        "-filter_complex"@,
        join_filter(inputs.len()),
        "-map"@,
        "[outv]"@,
        "-map"@,
        "[outa]"@,
        "-y"@,
        output,
    ]
}

/// The view of an optional text.
pub open spec fn opt_view(o: Option<&str>) -> Option<Seq<char>> {
    match o {
        Some(s) => Some(s@),
        None => None,
    }
}

fn push_input_streams(labels: &mut String, n: usize)
    requires
        old(labels)@ == joined(n as int, |k: int| input_streams(k)),
        n < 3,
    ensures
        final(labels)@ == joined(n + 1, |k: int| input_streams(k)),
{
    let ghost before = labels@;
    labels.append("[");
    push_decimal(labels, n as u64);
    labels.append(":v][");
    push_decimal(labels, n as u64);
    labels.append(":a]");
    assert(joined(n + 1, |k: int| input_streams(k)) == before + input_streams(n as int));
    assert(labels@ =~= before + input_streams(n as int));
}

fn push_input(args: &mut Vec<String>, path: &str)
    ensures
        views(final(args)@) == views(old(args)@) + seq!["-i"@, path@],
{
    args.push("-i".to_string());
    args.push(path.to_string());
    assert(views(args@) =~= views(old(args)@) + seq!["-i"@, path@]);
}

/// How to put the intro and outro around the processed video `main`.
pub fn plan_intro_outro(intro: Option<&str>, main: &str, outro: Option<&str>, output: &str) -> (r:
    JoinPlan)
    ensures
        intro is None && outro is None ==> r is CopyMain,
        intro is Some || outro is Some ==> (r matches JoinPlan::Concat(args) && views(args@)
            == join_args(join_inputs(opt_view(intro), main@, opt_view(outro)), output@)),
{
    if intro.is_none() && outro.is_none() {
        return JoinPlan::CopyMain;
    }
    let ghost inputs = join_inputs(opt_view(intro), main@, opt_view(outro));
    let mut args: Vec<String> = Vec::new();
    let mut labels = String::new();
    let mut n: usize = 0;
    assert(labels@ =~= joined(0, |k: int| input_streams(k)));
    let ghost mut given: Seq<Seq<char>> = seq![];
    assert(views(args@) =~= input_args(given));
    if let Some(i) = intro {
        push_input(&mut args, i);
        push_input_streams(&mut labels, n);
        n = n + 1;
        proof {
            given = given.push(i@);
            assert(given.drop_last() =~= seq![]);
        }
    }
    assert(views(args@) =~= input_args(given));
    push_input(&mut args, main);
    push_input_streams(&mut labels, n);
    n = n + 1;
    proof {
        let before = given;
        given = given.push(main@);
        assert(given.drop_last() =~= before);
    }
    assert(views(args@) =~= input_args(given));
    if let Some(o) = outro {
        push_input(&mut args, o);
        push_input_streams(&mut labels, n);
        n = n + 1;
        proof {
            let before = given;
            given = given.push(o@);
            assert(given.drop_last() =~= before);
        }
    }
    assert(views(args@) =~= input_args(given));
    assert(given =~= inputs);
    assert(n == inputs.len());
    let mut filter = labels;
    filter.append("concat=n=");
    push_decimal(&mut filter, n as u64);
    filter.append(":v=1:a=1[outv][outa]");
    let ghost head = views(args@);
    args.push("-filter_complex".to_string());
    args.push(filter);
    args.push("-map".to_string());
    args.push("[outv]".to_string());
    args.push("-map".to_string());
    args.push("[outa]".to_string());
    args.push("-y".to_string());
    args.push(output.to_string());
    assert(views(args@) =~= join_args(inputs, output@));
    JoinPlan::Concat(args)
}

// ---------------------------------------------------------------------------
// Side files
// ---------------------------------------------------------------------------

/// A file exported next to the output.
#[derive(Clone, Copy, Debug, PartialEq, Eq, Structural)]
pub enum ExportKind {
    /// SRT subtitles of the transcript.
    Subtitles,
    /// YouTube chapters of the transcript.
    Chapters,
    /// Final Cut Pro XML timeline.
    Fcpxml,
    /// Edit decision list.
    Edl,
}

/// The files exported for an export configuration, in order: subtitles, chapters,
/// FCPXML, EDL, each when switched on.
pub open spec fn exports_of(e: ExportConfig) -> Seq<ExportKind> {
    (if e.subtitles {
        seq![ExportKind::Subtitles]
    } else {
        seq![]
    }) + (if e.chapters {
        seq![ExportKind::Chapters]
    } else {
        seq![]
    }) + (if e.fcpxml {
        seq![ExportKind::Fcpxml]
    } else {
        seq![]
    }) + if e.edl {
        seq![ExportKind::Edl]
    } else {
        seq![]
    }
}

/// The side files to write after processing.
pub fn plan_exports(e: &ExportConfig) -> (r: Vec<ExportKind>)
    ensures
        r@ == exports_of(*e),
{
    let mut r: Vec<ExportKind> = Vec::new();
    if e.subtitles {
        r.push(ExportKind::Subtitles);
    }
    if e.chapters {
        r.push(ExportKind::Chapters);
    }
    if e.fcpxml {
        r.push(ExportKind::Fcpxml);
    }
    if e.edl {
        r.push(ExportKind::Edl);
    }
    assert(r@ =~= exports_of(*e));
    r
}

/// What follows the output path without extension in the name of an exported file.
pub open spec fn export_suffix(k: ExportKind) -> Seq<char> {
    match k {
        ExportKind::Subtitles => ".srt"@,
        ExportKind::Chapters => ".chapters.txt"@,
        ExportKind::Fcpxml => ".fcpxml"@,
        ExportKind::Edl => ".edl"@,
    }
}

/// What the side files are made from: the source clip's name and path, the
/// transcript's subtitle cues and chapters, and where each kept segment lands on
/// the timeline.
pub struct SideFileSources {
    pub clip: String,
    pub source: String,
    pub cues: Vec<SrtCue>,
    pub chapters: Vec<ChapterGroup>,
    pub timings: Vec<ClipTiming>,
}

/// The text of a side file: the SRT subtitles of the cues, the chapter list of the
/// chapters, the FCPXML timeline or the edit decision list of the kept segments.
pub open spec fn side_file_text(k: ExportKind, src: SideFileSources) -> Seq<char> {
    match k {
        ExportKind::Subtitles => srt_document(src.cues@),
        ExportKind::Chapters => chapters_document(src.chapters@),
        ExportKind::Fcpxml => fcpxml_document(src.clip@, src.source@, src.timings@),
        ExportKind::Edl => edl_document(src.clip@, src.timings.len() as nat),
    }
}

impl ExportKind {
    /// The path of this export next to an output whose path without extension is `base`.
    pub fn path_for(&self, base: &str) -> (r: String)
        ensures
            r@ == base@ + export_suffix(*self),
    {
        let mut r = base.to_string();
        match self {
            ExportKind::Subtitles => r.append(".srt"),
            ExportKind::Chapters => r.append(".chapters.txt"),
            ExportKind::Fcpxml => r.append(".fcpxml"),
            ExportKind::Edl => r.append(".edl"),
        }
        r
    }

    /// The text of this side file (`side_file_text`).
    pub fn contents(&self, src: &SideFileSources) -> (r: String)
        requires
            src.cues.len() < u64::MAX,
            all_cuttable(src.chapters@),
        ensures
            r@ == side_file_text(*self, *src),
    {
        match self {
            ExportKind::Subtitles => export_srt(&src.cues),
            ExportKind::Chapters => export_youtube_chapters(&src.chapters),
            ExportKind::Fcpxml => export_fcpxml(src.clip.as_str(), src.source.as_str(), &src.timings),
            ExportKind::Edl => export_edl(src.clip.as_str(), src.timings.len()),
        }
    }
}

// ---------------------------------------------------------------------------
// Batch runs
// ---------------------------------------------------------------------------

/// The outcome of a batch run so far.
#[derive(Clone, Copy, Debug, PartialEq, Eq, Structural)]
pub struct BatchTally {
    /// Files found.
    pub total: usize,
    /// Files processed successfully.
    pub successful: usize,
    /// Files whose processing failed.
    pub failed: usize,
}

impl BatchTally {
    /// The tally before any of `total` files is processed.
    pub fn new(total: usize) -> (r: Self)
        ensures
            r == (BatchTally { total, successful: 0, failed: 0 }),
    {
        BatchTally { total, successful: 0, failed: 0 }
    }

    /// Whether the tally accounts for no more files than were found.
    pub open spec fn inv(&self) -> bool {
        self.successful + self.failed <= self.total
    }

    /// Number of files processed so far.
    pub open spec fn processed(&self) -> nat {
        (self.successful + self.failed) as nat
    }

    /// Records the outcome of one more file.
    pub fn record(&mut self, ok: bool)
        requires
            old(self).inv(),
            old(self).processed() < old(self).total,
        ensures
            final(self).inv(),
            final(self).total == old(self).total,
            final(self).processed() == old(self).processed() + 1,
            ok ==> final(self).successful == old(self).successful + 1 && final(self).failed
                == old(self).failed,
            !ok ==> final(self).failed == old(self).failed + 1 && final(self).successful
                == old(self).successful,
    {
        if ok {
            self.successful = self.successful + 1;
        } else {
            self.failed = self.failed + 1;
        }
    }
}

} // verus!
