use nightingale::analysis::{
    activate_song, analyzer_args, process_queue, analyzer_env, initial_progress, judge_exit,
    parse_progress_line, requeue_song, retry_message, start_failure_message,
    wait_failure_message, Activation, AnalysisQueue, AnalyzerJob, Verdict,
};
use nightingale::library::{AnalysisStatus, Song, TranscriptSource};

fn song(status: AnalysisStatus) -> Song {
    Song {
        path: "/m/a.mp3".to_string(),
        file_hash: "h".to_string(),
        title: String::new(),
        artist: String::new(),
        album: String::new(),
        analysis_status: status,
        language: None,
        is_video: false,
    }
}

#[test]
fn queue_is_first_come_first_served() {
    let mut q = AnalysisQueue::new();
    q.enqueue(3);
    q.enqueue(1);
    q.enqueue(3);
    assert_eq!(q.queue.iter().copied().collect::<Vec<_>>(), vec![3, 1]);
    assert_eq!(q.start_next(), Some(3));
    assert!(q.is_active(3));
    assert_eq!(q.start_next(), None);
    q.enqueue(3);
    assert_eq!(q.queue.len(), 1);
    assert_eq!(q.finish_active(), Some(3));
    assert_eq!(q.start_next(), Some(1));
    assert_eq!(q.finish_active(), Some(1));
    assert_eq!(q.start_next(), None);
    assert_eq!(q.finish_active(), None);
}

#[test]
fn activating_songs() {
    let mut songs = vec![
        song(AnalysisStatus::Ready(TranscriptSource::Generated)),
        song(AnalysisStatus::NotAnalyzed),
        song(AnalysisStatus::Analyzing),
        song(AnalysisStatus::Failed("x".to_string())),
    ];
    let mut q = AnalysisQueue::new();
    assert_eq!(activate_song(0, &mut songs, &mut q), Activation::Play(0));
    assert_eq!(activate_song(1, &mut songs, &mut q), Activation::Queued);
    assert!(matches!(songs[1].analysis_status, AnalysisStatus::Queued));
    assert_eq!(activate_song(2, &mut songs, &mut q), Activation::Nothing);
    assert_eq!(activate_song(3, &mut songs, &mut q), Activation::Queued);
    assert_eq!(activate_song(9, &mut songs, &mut q), Activation::Nothing);
    assert_eq!(activate_song(1, &mut songs, &mut q), Activation::Nothing);
    assert_eq!(q.queue.iter().copied().collect::<Vec<_>>(), vec![1, 3]);
    requeue_song(0, &mut songs, &mut q);
    assert!(matches!(songs[0].analysis_status, AnalysisStatus::Queued));
    assert_eq!(q.queue.iter().copied().collect::<Vec<_>>(), vec![1, 3, 0]);
}

#[test]
fn progress_lines() {
    let p = initial_progress();
    assert_eq!((p.percent, p.message.as_str(), p.finished), (0, "Searching for lyrics...", None));
    assert_eq!(
        parse_progress_line("[nightingale:PROGRESS:42] Separating vocals  "),
        Some((42, "Separating vocals".to_string()))
    );
    assert_eq!(
        parse_progress_line("log: [nightingale:PROGRESS:100]done"),
        Some((100, "done".to_string()))
    );
    assert_eq!(parse_progress_line("[nightingale:PROGRESS:+7] x"), Some((7, "x".to_string())));
    assert_eq!(parse_progress_line("[nightingale:PROGRESS:abc] x"), None);
    assert_eq!(parse_progress_line("[nightingale:PROGRESS:12 x"), None);
    assert_eq!(parse_progress_line("[nightingale:PROGRESS:] x"), None);
    assert_eq!(parse_progress_line("plain output"), None);
    let mut q = initial_progress();
    q.apply_line("noise");
    assert_eq!(q.percent, 0);
    q.apply_line("[nightingale:PROGRESS:55] Transcribing");
    assert_eq!((q.percent, q.message.as_str()), (55, "Transcribing"));
}

#[test]
fn exit_verdicts() {
    let lines = |v: &[&str]| v.iter().map(|s| s.to_string()).collect::<Vec<String>>();
    assert!(matches!(judge_exit(true, &lines(&["CUDA out of memory"]), 16, "0"), Verdict::Finished));
    match judge_exit(false, &lines(&["x", "torch.OutOfMemoryError: CUDA"]), 16, "1") {
        Verdict::Retry(b) => assert_eq!(b, 8),
        other => panic!("unexpected {other:?}"),
    }
    match judge_exit(false, &lines(&["RuntimeError: CUDA out of memory"]), 1, "1") {
        Verdict::Failed(m) => assert_eq!(m, "RuntimeError: CUDA out of memory"),
        other => panic!("unexpected {other:?}"),
    }
    match judge_exit(false, &lines(&["first", "last error", "  ", ""]), 8, "1") {
        Verdict::Failed(m) => assert_eq!(m, "last error"),
        other => panic!("unexpected {other:?}"),
    }
    match judge_exit(false, &lines(&[]), 8, "exit status: 2") {
        Verdict::Failed(m) => assert_eq!(m, "exit code: exit status: 2"),
        other => panic!("unexpected {other:?}"),
    }
    match judge_exit(false, &lines(&["CUDA out of", "memory"]), 8, "1") {
        Verdict::Failed(m) => assert_eq!(m, "memory"),
        other => panic!("unexpected {other:?}"),
    }
}

#[test]
fn retries_halve_the_batch_until_one() {
    let err = vec!["CUDA out of memory".to_string()];
    let mut batch = 16u32;
    let mut tries = 0;
    loop {
        match judge_exit(false, &err, batch, "1") {
            Verdict::Retry(b) => {
                assert!(b < batch && b >= 1);
                batch = b;
                tries += 1;
            }
            Verdict::Failed(_) => break,
            Verdict::Finished => panic!("cannot finish"),
        }
    }
    assert_eq!((batch, tries), (1, 4));
}

#[test]
fn analyzer_messages() {
    assert_eq!(retry_message(4), "CUDA OOM — retrying with batch size 4...");
    assert_eq!(start_failure_message("no python"), "Failed to start: no python");
    assert_eq!(wait_failure_message("gone"), "Error: gone");
}

#[test]
fn analyzer_command_line() {
    let job = AnalyzerJob {
        song_path: "/m/a.mp3".to_string(),
        cache_path: "/c".to_string(),
        file_hash: "abc".to_string(),
        model: "large-v3".to_string(),
        beam_size: 5,
        separator: "demucs".to_string(),
        lyrics_path: None,
    };
    assert_eq!(
        analyzer_args("/v/analyze.py", &job, 16),
        vec![
            "/v/analyze.py", "/m/a.mp3", "/c", "--hash", "abc", "--model", "large-v3",
            "--beam-size", "5", "--batch-size", "16", "--separator", "demucs"
        ]
    );
    let with_lyrics = AnalyzerJob { lyrics_path: Some("/c/abc_lyrics.json".to_string()), ..job };
    let args = analyzer_args("/v/analyze.py", &with_lyrics, 8);
    assert_eq!(args[10], "8");
    assert_eq!(&args[13..], &["--lyrics".to_string(), "/c/abc_lyrics.json".to_string()]);
    let env = analyzer_env("/h/.nightingale/models", "/h/.nightingale/vendor/ffmpeg", false);
    let pairs: Vec<(&str, &str)> = env.iter().map(|(a, b)| (a.as_str(), b.as_str())).collect();
    assert_eq!(
        pairs,
        vec![
            ("TORCH_HOME", "/h/.nightingale/models/torch"),
            ("HF_HOME", "/h/.nightingale/models/huggingface"),
            ("FFMPEG_PATH", "/h/.nightingale/vendor/ffmpeg"),
            ("PYTHONWARNINGS", "ignore"),
            ("PYTORCH_ENABLE_MPS_FALLBACK", "1"),
            ("HF_HUB_DISABLE_SYMLINKS_WARNING", "1"),
            ("HF_HUB_DISABLE_SYMLINKS", "1"),
        ]
    );
}

#[test]
fn progress_of_the_song_being_analysed() {
    let mut q = AnalysisQueue::new();
    q.enqueue(4);
    q.start_next();
    let mut p = initial_progress();
    p.apply_line("[nightingale:PROGRESS:30] Separating");
    let got = q.active_progress(4, &p).unwrap();
    assert_eq!((got.percent, got.message.as_str(), got.finished), (30, "Separating", None));
    assert!(q.active_progress(5, &p).is_none());
}

#[test]
fn starting_the_next_analysis_marks_the_song() {
    let mut songs = vec![song(AnalysisStatus::NotAnalyzed), song(AnalysisStatus::NotAnalyzed)];
    let mut q = AnalysisQueue::new();
    assert_eq!(process_queue(&mut songs, &mut q), None);
    activate_song(1, &mut songs, &mut q);
    activate_song(0, &mut songs, &mut q);
    assert_eq!(process_queue(&mut songs, &mut q), Some(1));
    assert!(matches!(songs[1].analysis_status, AnalysisStatus::Analyzing));
    assert!(matches!(songs[0].analysis_status, AnalysisStatus::Queued));
    assert_eq!(process_queue(&mut songs, &mut q), None);
    assert_eq!(q.queue.iter().copied().collect::<Vec<_>>(), vec![0]);
}

#[test]
fn verdicts_update_the_progress() {
    let mut p = initial_progress();
    p.apply_line("[nightingale:PROGRESS:40] Transcribing");
    assert_eq!(p.apply_verdict(&Verdict::Retry(8)), Some(8));
    assert_eq!((p.percent, p.message.as_str(), p.finished), (0, "CUDA OOM — retrying with batch size 8...", None));
    assert_eq!(p.apply_verdict(&Verdict::Failed("boom".to_string())), None);
    assert_eq!((p.message.as_str(), p.finished), ("boom", Some(false)));
    let mut q = initial_progress();
    assert_eq!(q.apply_verdict(&Verdict::Finished), None);
    assert_eq!(q.finished, Some(true));
    q.fail_with("Error: gone".to_string());
    assert_eq!((q.message.as_str(), q.finished), ("Error: gone", Some(false)));
}
