use music_player::config::{config_line, expand_var, is_audio_extension, same_text, Config};

#[test]
fn tilde_expands_to_home() {
    assert_eq!(expand_var("~/music", Some("/home/u")), "/home/u/music");
    assert_eq!(expand_var("~", Some("/root")), "/root");
}

#[test]
fn tilde_stays_without_home() {
    assert_eq!(expand_var("~/music", None), "~/music");
}

#[test]
fn only_leading_tilde_expands() {
    assert_eq!(expand_var("/srv/~music", Some("/home/u")), "/srv/~music");
    assert_eq!(expand_var("", Some("/home/u")), "");
}

#[test]
fn config_from_raw_expands() {
    let config = Config::from_raw("~/songs", Some("/home/me"));
    assert_eq!(config.path, "/home/me/songs");
}

#[test]
fn config_line_quotes_path() {
    assert_eq!(config_line("/home/u/music"), "path = \"/home/u/music\"");
}

#[test]
fn audio_extensions() {
    assert!(is_audio_extension("mp3"));
    assert!(is_audio_extension("mp4"));
    assert!(is_audio_extension("wav"));
    assert!(!is_audio_extension("ogg"));
    assert!(!is_audio_extension("MP3"));
    assert!(!is_audio_extension("mp"));
    assert!(!is_audio_extension(""));
}

#[test]
fn same_text_compares_characters() {
    assert!(same_text("abc", "abc"));
    assert!(!same_text("abc", "abd"));
    assert!(!same_text("abc", "ab"));
    assert!(same_text("", ""));
}
