use ai_vid_editor::commands::CandleSttAnalyzer;
use ai_vid_editor::speech::{decode_windows, is_filler, mel_band_bins, mel_frame_count};

#[test]
fn audio_extraction_arguments() {
    assert_eq!(
        CandleSttAnalyzer.audio_args("talk.mp4"),
        vec!["-i", "talk.mp4", "-ar", "16000", "-ac", "1", "-f", "f32le", "-"]
    );
}

#[test]
fn spectrogram_layout() {
    let n_fft = 400usize;
    let hop = 160usize;
    for len in [0usize, 1, 159, 160, 161, 16000, 480000] {
        let padded_len = len + n_fft / 2 * 2;
        assert_eq!(mel_frame_count(len), (padded_len - n_fft) / hop + 1);
    }
    for n_mels in [80usize, 128, 3] {
        for mel_bin in 0..n_mels {
            let freq_low = mel_bin * 8000 / n_mels;
            let freq_high = (mel_bin + 1) * 8000 / n_mels;
            let bin_low = freq_low * n_fft / 16000;
            let bin_high = (freq_high * n_fft / 16000).min(n_fft);
            assert_eq!(mel_band_bins(mel_bin, n_mels), (bin_low, bin_high));
        }
    }
    assert_eq!(mel_band_bins(79, 80), (197, 200));
}

#[test]
fn decoding_windows_skip_short_tail() {
    let reference = |mel_len: usize| -> Vec<(usize, usize)> {
        (0..mel_len)
            .step_by(3000)
            .map(|s| (s, (s + 3000).min(mel_len)))
            .filter(|(s, e)| e - s >= 100)
            .collect()
    };
    for mel_len in [0usize, 99, 100, 2999, 3000, 3050, 3099, 3100, 9000, 12345] {
        assert_eq!(decode_windows(mel_len), reference(mel_len), "frames {mel_len}");
    }
    assert_eq!(decode_windows(6100), vec![(0, 3000), (3000, 6000), (6000, 6100)]);
    assert!(decode_windows(50).is_empty());
}

#[test]
fn filler_words_found_in_any_case() {
    let words = vec!["um".to_string(), "uh".to_string()];
    assert!(is_filler("Um, so", &words));
    assert!(is_filler("well UH yes", &words));
    assert!(is_filler("summary", &words));
    assert!(!is_filler("hello there", &words));
    assert!(!is_filler("anything", &Vec::new()));
    // the words themselves are matched as given
    assert!(!is_filler("um", &vec!["UM".to_string()]));
}
