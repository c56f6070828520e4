use ytmusicd::command::{
    classify_exit, download_argv, fingerprint_argv, import_argv, tag_argv, CommandOutcome,
};
use ytmusicd::decisions::WhatToDo;

#[test]
fn exit_codes_classify() {
    assert!(matches!(classify_exit(Some(0), ()), CommandOutcome::Success(())));
    assert!(matches!(classify_exit(Some(1), ()), CommandOutcome::NonZeroExit(1, ())));
    assert!(matches!(classify_exit(Some(-9), ()), CommandOutcome::NonZeroExit(-9, ())));
    assert!(matches!(classify_exit(None, ()), CommandOutcome::KilledBySignal(())));
}

#[test]
fn needs_decision_only_on_failures() {
    assert!(!classify_exit(Some(0), ()).needs_decision());
    assert!(classify_exit(Some(2), ()).needs_decision());
    assert!(classify_exit(None, ()).needs_decision());
    assert!(!CommandOutcome::<()>::InterruptRequested(WhatToDo::AbortRequest).needs_decision());
}

#[test]
fn outcome_resolution() {
    let ok: CommandOutcome<u32> = CommandOutcome::Success(7);
    assert_eq!(ok.into_success_or_decision(WhatToDo::Retry), Ok(7));
    let bad: CommandOutcome<u32> = CommandOutcome::NonZeroExit(1, 7);
    assert_eq!(bad.into_success_or_decision(WhatToDo::Retry), Err(WhatToDo::Retry));
    let killed: CommandOutcome<u32> = CommandOutcome::KilledBySignal(7);
    assert_eq!(killed.into_success_or_decision(WhatToDo::Continue), Err(WhatToDo::Continue));
    let intr: CommandOutcome<u32> = CommandOutcome::InterruptRequested(WhatToDo::AbortRequest);
    assert_eq!(intr.into_success_or_decision(WhatToDo::Retry), Err(WhatToDo::AbortRequest));
}

#[test]
fn download_command_words() {
    let base = vec![String::from("yt-dlp"), String::from("-x")];
    assert_eq!(download_argv(&base, "abc123"), vec!["yt-dlp", "-x", "--", "abc123"]);
}

#[test]
fn import_command_words() {
    let base = vec![String::from("beet"), String::from("import"), String::from("-m")];
    assert_eq!(import_argv(&base), vec!["beet", "import", "-m", "."]);
}

#[test]
fn fingerprint_command_words() {
    assert_eq!(
        fingerprint_argv("fpcalc", "/tmp/work/song.opus"),
        vec!["fpcalc", "-json", "/tmp/work/song.opus"]
    );
}

#[test]
fn tag_command_words() {
    let argv = tag_argv(
        "ffmpeg",
        "warning",
        "/moved/song.opus",
        "mbid-1",
        "Song Title",
        "Artist ",
        "/work/song.opus",
    );
    assert_eq!(
        argv,
        vec![
            "ffmpeg",
            "-loglevel",
            "warning",
            "-i",
            "/moved/song.opus",
            "-metadata",
            "MusicBrainz Track Id=mbid-1",
            "-metadata",
            "Title=Song Title",
            "-metadata",
            "Artist=Artist ",
            "-codec",
            "copy",
            "/work/song.opus",
        ]
    );
}
