use spot_remote::command::{parse_line, parse_session, Command};

#[test]
fn parse_recognizes_literals() {
    assert!(matches!(parse_line("PlayPause".to_owned()), Command::PlayPause));
    assert!(matches!(parse_line("Next".to_owned()), Command::Next));
    assert!(matches!(parse_line("Prev".to_owned()), Command::Prev));
    assert!(matches!(parse_line("VolUp".to_owned()), Command::VolUp));
    assert!(matches!(parse_line("VolDown".to_owned()), Command::VolDown));
}

#[test]
fn parse_is_case_sensitive() {
    assert!(matches!(parse_line("next".to_owned()), Command::Unknown));
    assert!(matches!(parse_line("PLAYPAUSE".to_owned()), Command::Unknown));
}

#[test]
fn parse_load_keeps_exact_suffix() {
    match parse_line("load:abc123".to_owned()) {
        Command::Load { spotify_id } => assert_eq!(spotify_id, "abc123"),
        _ => panic!("expected Load"),
    }
}

#[test]
fn parse_load_suffix_is_not_trimmed() {
    match parse_line("load: a b ".to_owned()) {
        Command::Load { spotify_id } => assert_eq!(spotify_id, " a b "),
        _ => panic!("expected Load"),
    }
    match parse_line("load:load:x".to_owned()) {
        Command::Load { spotify_id } => assert_eq!(spotify_id, "load:x"),
        _ => panic!("expected Load"),
    }
}

#[test]
fn parse_load_empty_identifier() {
    match parse_line("load:".to_owned()) {
        Command::Load { spotify_id } => assert_eq!(spotify_id, ""),
        _ => panic!("expected Load"),
    }
}

#[test]
fn parse_everything_else_is_unknown() {
    assert!(matches!(parse_line("".to_owned()), Command::Unknown));
    assert!(matches!(parse_line("Nexts".to_owned()), Command::Unknown));
    assert!(matches!(parse_line("stop".to_owned()), Command::Unknown));
    assert!(matches!(parse_line("loa:x".to_owned()), Command::Unknown));
}

#[test]
fn session_preserves_order_and_count() {
    let lines = vec![
        "Next".to_owned(),
        "load:abc123".to_owned(),
        "garbage".to_owned(),
        "VolUp".to_owned(),
    ];
    let cmds = parse_session(&lines);
    assert_eq!(cmds.len(), 4);
    assert!(matches!(cmds[0], Command::Next));
    match &cmds[1] {
        Command::Load { spotify_id } => assert_eq!(spotify_id, "abc123"),
        _ => panic!("expected Load"),
    }
    assert!(matches!(cmds[2], Command::Unknown));
    assert!(matches!(cmds[3], Command::VolUp));
}

#[test]
fn interleaved_sessions_lose_and_duplicate_nothing() {
    // Two sessions' lines interleaved as the queue would see them: the
    // parsed commands form the same interleaving.
    let a = vec!["Next".to_owned(), "load:x".to_owned()];
    let b = vec!["VolUp".to_owned()];
    let c = vec!["Next".to_owned(), "VolUp".to_owned(), "load:x".to_owned()];
    let pa = parse_session(&a);
    let pb = parse_session(&b);
    let pc = parse_session(&c);
    assert_eq!(pc.len(), pa.len() + pb.len());
    assert!(matches!(pc[0], Command::Next));
    assert!(matches!(pc[1], Command::VolUp));
    assert!(matches!(&pc[2], Command::Load { spotify_id } if spotify_id == "x"));
    assert!(matches!(&pa[0], Command::Next));
    assert!(matches!(&pa[1], Command::Load { spotify_id } if spotify_id == "x"));
    assert!(matches!(&pb[0], Command::VolUp));
}

#[test]
fn pipe_line_next_yields_next() {
    let lines = vec!["Next".to_owned()];
    let cmds = parse_session(&lines);
    assert_eq!(cmds.len(), 1);
    assert!(matches!(cmds[0], Command::Next));
}

#[test]
fn pipe_line_load_yields_load() {
    let lines = vec!["load:abc123".to_owned()];
    let cmds = parse_session(&lines);
    assert_eq!(cmds.len(), 1);
    match &cmds[0] {
        Command::Load { spotify_id } => assert_eq!(spotify_id, "abc123"),
        _ => panic!("expected Load"),
    }
}
