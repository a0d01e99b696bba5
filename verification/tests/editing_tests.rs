use ai_vid_editor::commands::FfmpegEditor;
use ai_vid_editor::filters::{
    chunk_dir_name, chunk_file_name, concat_list, generate_duck_filter, generate_trim_filters,
    plan_trim, Retime, SegmentTexts, TrimPlan, TRIM_SEGMENTS_PER_CHUNK,
};

fn text(x: f32) -> String {
    format!("{}", x)
}

#[test]
fn test_generate_duck_filter() {
    let transcript = vec![(text(1.0), text(2.0))];
    let filter = generate_duck_filter(&transcript);
    assert!(filter.contains("between(t,1,2)"));
    assert!(filter.contains("volume='if(between(t,1,2),0.2,1.0)'"));
    assert!(filter.contains("amix=inputs=2"));
}

#[test]
fn duck_filter_nests_latest_span_outermost() {
    let spans = vec![(text(1.0), text(2.0)), (text(3.5), text(4.25))];
    assert_eq!(
        generate_duck_filter(&spans),
        "[1:a]volume=volume='if(between(t,3.5,4.25),0.2,if(between(t,1,2),0.2,1.0))'[ducked];\
         [0:a][ducked]amix=inputs=2:duration=first[outa]"
    );
    assert_eq!(
        generate_duck_filter(&Vec::new()),
        "[1:a]volume=volume='1.0'[ducked];[0:a][ducked]amix=inputs=2:duration=first[outa]"
    );
}

#[test]
fn trim_filters_for_normal_and_sped_up_segments() {
    let segs = vec![
        SegmentTexts { start: text(0.0), end: text(1.9), retime: None },
        SegmentTexts {
            start: text(1.9),
            end: text(3.1),
            retime: Some(Retime { pts_factor: text(1.0 / 4.0), tempo: text(4.0) }),
        },
    ];
    let (v, a) = generate_trim_filters(&segs);
    assert_eq!(
        v,
        "[0:v]trim=start=0:end=1.9, setpts=PTS-STARTPTS[v0];\
         [0:v]trim=start=1.9:end=3.1, setpts=0.25*PTS[v1];\
         [v0][v1]concat=n=2:v=1:a=0[outv];"
    );
    assert_eq!(
        a,
        "[0:a]atrim=start=0:end=1.9, asetpts=PTS-STARTPTS[a0];\
         [0:a]atrim=start=1.9:end=3.1, atempo=4[a1];\
         [a0][a1]concat=n=2:v=0:a=1[outa]"
    );
    let (v, a) = generate_trim_filters(&Vec::new());
    assert_eq!(v, "concat=n=0:v=1:a=0[outv];");
    assert_eq!(a, "concat=n=0:v=0:a=1[outa]");
}

#[test]
fn trim_plan_chunks_long_edits() {
    assert_eq!(TRIM_SEGMENTS_PER_CHUNK, 48);
    assert!(matches!(plan_trim(0), TrimPlan::NoSegments));
    assert!(matches!(plan_trim(1), TrimPlan::SingleJob));
    assert!(matches!(plan_trim(48), TrimPlan::SingleJob));
    match plan_trim(49) {
        TrimPlan::Chunked(c) => assert_eq!(c, vec![(0, 48), (48, 49)]),
        _ => panic!("expected chunks"),
    }
    match plan_trim(96) {
        TrimPlan::Chunked(c) => assert_eq!(c, vec![(0, 48), (48, 96)]),
        _ => panic!("expected chunks"),
    }
    match plan_trim(1000) {
        TrimPlan::Chunked(c) => {
            // the chunks of std's `chunks` over the same segments
            let v: Vec<usize> = (0..1000).collect();
            let want: Vec<(usize, usize)> =
                v.chunks(48).map(|ch| (ch[0], ch[ch.len() - 1] + 1)).collect();
            assert_eq!(c, want);
        }
        _ => panic!("expected chunks"),
    }
}

#[test]
fn chunk_names_and_concat_list() {
    assert_eq!(chunk_file_name(0), "chunk_0000.mp4");
    assert_eq!(chunk_file_name(37), "chunk_0037.mp4");
    assert_eq!(chunk_file_name(12345), "chunk_12345.mp4");
    assert_eq!(chunk_dir_name(Some("talk"), 4242), ".ai-vid-editor-talk-4242");
    assert_eq!(chunk_dir_name(None, 7), ".ai-vid-editor-trim-7");
    let list = concat_list(&vec!["/tmp/a.mp4".to_string(), "/tmp/it's.mp4".to_string()]);
    assert_eq!(list, "file '/tmp/a.mp4'\nfile '/tmp/it'\\''s.mp4'\n");
    assert_eq!(concat_list(&Vec::new()), "");
}

#[test]
fn editor_arguments() {
    let e = FfmpegEditor;
    assert_eq!(
        e.reduce_noise_args("a.mp4", "b.mp4"),
        vec!["-i", "a.mp4", "-af", "afftdn=nf=-25:tn=1", "-c:v", "copy", "-y", "b.mp4"]
    );
    assert_eq!(
        e.stabilize_detect_args("a.mp4"),
        vec![
            "-i",
            "a.mp4",
            "-vf",
            "vidstabdetect=stepsize=6:shakiness=5:accuracy=15:result=/tmp/transforms.trf",
            "-f",
            "null",
            "-"
        ]
    );
    assert_eq!(
        e.stabilize_transform_args("a.mp4", "b.mp4"),
        vec![
            "-i",
            "a.mp4",
            "-vf",
            "vidstabtransform=input=/tmp/transforms.trf:smoothing=10:optzoom=1:interpol=bicubic",
            "-c:a",
            "copy",
            "-y",
            "b.mp4"
        ]
    );
    assert_eq!(e.transforms_file(), "/tmp/transforms.trf");
    assert_eq!(
        e.color_correct_args("a", "b"),
        vec![
            "-i",
            "a",
            "-vf",
            "eq=contrast=1.1:brightness=0.05:saturation=1.1,unsharp=5:5:0.5:5:5:0.0",
            "-c:a",
            "copy",
            "-y",
            "b"
        ]
    );
    assert_eq!(
        e.blur_background_args("a", "m", "b"),
        vec![
            "-i",
            "a",
            "-i",
            "m",
            "-filter_complex",
            "[0:v]split[a][b];[a]boxblur=20:5[bg];[1:v]format=gray[mask];[b][mask]alphamerge[fg];[bg][fg]overlay=format=auto[outv]",
            "-map",
            "[outv]",
            "-map",
            "0:a?",
            "-c:a",
            "copy",
            "-y",
            "b"
        ]
    );
    assert_eq!(e.center_crop(), "crop=ih*9/16:ih,scale=1080:1920");
    assert_eq!(
        e.reframe_args("a", e.center_crop(), "b"),
        vec!["-i", "a", "-vf", "crop=ih*9/16:ih,scale=1080:1920", "-c:a", "copy", "-y", "b"]
    );
    assert_eq!(
        e.mix_with_music_args("v.mp4", "m.mp3", "G", "o.mp4"),
        vec![
            "-i", "v.mp4", "-i", "m.mp3", "-filter_complex", "G", "-map", "0:v", "-map", "[outa]",
            "-y", "o.mp4"
        ]
    );
    assert_eq!(
        e.trim_job_args("in.mp4", "V;", "A", "out.mp4"),
        vec![
            "-i",
            "in.mp4",
            "-filter_complex",
            "V;A",
            "-map",
            "[outv]",
            "-map",
            "[outa]",
            "-c:v",
            "libx264",
            "-preset",
            "veryfast",
            "-crf",
            "20",
            "-c:a",
            "aac",
            "-b:a",
            "192k",
            "-movflags",
            "+faststart",
            "-y",
            "out.mp4"
        ]
    );
    assert_eq!(
        e.concat_args("list.txt", "out.mp4"),
        vec!["-f", "concat", "-safe", "0", "-i", "list.txt", "-c", "copy", "-y", "out.mp4"]
    );
}
