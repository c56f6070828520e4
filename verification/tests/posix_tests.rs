use ytmusicd::machine::PromptFlag;
use ytmusicd::posix::{
    parse_beet, parse_beet_args, parse_prompt_flag, parse_yt_dlp, parse_yt_dlp_args, DaemonError,
    PosixCommand, PosixSplit,
};

#[test]
fn downloader_command_splits_into_words() {
    let cmd = parse_yt_dlp("yt-dlp -x --audio-format opus").unwrap();
    assert_eq!(cmd.components, vec!["yt-dlp", "-x", "--audio-format", "opus"]);
}

#[test]
fn quoted_words_stay_whole() {
    let cmd = parse_beet("beet import -m 'my music'").unwrap();
    assert_eq!(cmd.components, vec!["beet", "import", "-m", "my music"]);
}

#[test]
fn empty_args_split_to_nothing() {
    assert_eq!(parse_yt_dlp_args("").unwrap().components, Vec::<String>::new());
    assert_eq!(parse_beet_args("import -m -s").unwrap().components, vec!["import", "-m", "-s"]);
}

#[test]
fn erroneous_shell_input_is_refused() {
    let err = parse_yt_dlp("yt-dlp 'unclosed").unwrap_err();
    match err {
        DaemonError::YtDlpCommand { erroneous_command } => {
            assert_eq!(erroneous_command, "yt-dlp 'unclosed");
        }
        other => panic!("wrong error: {:?}", other),
    }
    assert!(matches!(parse_beet("beet \\"), Err(DaemonError::BeetCommand { .. })));
}

#[test]
fn split_constructors_keep_words() {
    let split = PosixSplit::new(vec![String::from("a"), String::from("b")]);
    assert_eq!(split.components, vec!["a", "b"]);
    let cmd = PosixCommand::from_raw("x y").unwrap();
    assert_eq!(cmd.components, vec!["x", "y"]);
}

#[test]
fn keep_tmp_flag_values() {
    assert!(matches!(parse_prompt_flag("always"), Ok(PromptFlag::Always)));
    assert!(matches!(parse_prompt_flag("ask"), Ok(PromptFlag::Ask)));
    assert!(matches!(parse_prompt_flag("never"), Ok(PromptFlag::Never)));
    match parse_prompt_flag("sometimes").unwrap_err() {
        DaemonError::InvalidKeepTmp { provided } => assert_eq!(provided, "sometimes"),
        other => panic!("wrong error: {:?}", other),
    }
}

#[test]
fn keep_tmp_flag_ignores_ascii_case() {
    assert!(matches!(parse_prompt_flag("Always"), Ok(PromptFlag::Always)));
    assert!(matches!(parse_prompt_flag("ASK"), Ok(PromptFlag::Ask)));
    assert!(matches!(parse_prompt_flag("NeVeR"), Ok(PromptFlag::Never)));
    assert!(parse_prompt_flag("alway").is_err());
    assert!(parse_prompt_flag("always ").is_err());
}

#[test]
fn daemon_error_messages() {
    let e = parse_yt_dlp("'").unwrap_err();
    assert_eq!(e.message(), "The provided yt-dlp command is malformed");
    let e = parse_prompt_flag("no").unwrap_err();
    assert_eq!(
        e.message(),
        "Invalid keep-tmp value, allowed values are 'always', 'ask' and 'never'"
    );
}
