use vleer::metadata::{file_stem, parse_replaygain_db, parse_replaygain_peak, AudioMetadata};

#[test]
fn replaygain_db_values_parse_to_milli() {
    assert_eq!(parse_replaygain_db("-3.5 dB"), Some(-3500));
    assert_eq!(parse_replaygain_db("2 dB"), Some(2000));
    assert_eq!(parse_replaygain_db("+0.25dB"), Some(250));
    assert_eq!(parse_replaygain_db(" 1.5 "), Some(1500));
    assert_eq!(parse_replaygain_db("-0.5"), Some(-500));
    assert_eq!(parse_replaygain_db("10"), Some(10000));
    assert_eq!(parse_replaygain_db("0"), Some(0));
    assert_eq!(parse_replaygain_db("7."), Some(7000));
    assert_eq!(parse_replaygain_db(".5"), Some(500));
}

#[test]
fn replaygain_db_rejects_what_is_not_a_number() {
    assert_eq!(parse_replaygain_db(""), None);
    assert_eq!(parse_replaygain_db("   "), None);
    assert_eq!(parse_replaygain_db("abc"), None);
    assert_eq!(parse_replaygain_db("1.2.3"), None);
    assert_eq!(parse_replaygain_db("."), None);
    assert_eq!(parse_replaygain_db("--3"), None);
    assert_eq!(parse_replaygain_db("3 db"), None);
    assert_eq!(parse_replaygain_db("10000000000"), None);
}

#[test]
fn replaygain_db_truncates_past_milli() {
    assert_eq!(parse_replaygain_db("0.0005"), Some(0));
    assert_eq!(parse_replaygain_db("1.23456 dB"), Some(1234));
}

#[test]
fn replaygain_peak_parses_plain_decimals() {
    assert_eq!(parse_replaygain_peak("0.5"), Some(500));
    assert_eq!(parse_replaygain_peak(" 1.0 "), Some(1000));
    assert_eq!(parse_replaygain_peak("0.988142"), Some(988));
    assert_eq!(parse_replaygain_peak("peak"), None);
}

#[test]
fn file_stem_takes_the_name_before_the_last_dot() {
    assert_eq!(file_stem("/music/track.mp3").as_deref(), Some("track"));
    assert_eq!(file_stem("track.tar.gz").as_deref(), Some("track.tar"));
    assert_eq!(file_stem("noext").as_deref(), Some("noext"));
    assert_eq!(file_stem(".hidden").as_deref(), Some(".hidden"));
    assert_eq!(file_stem("name.").as_deref(), Some("name"));
    assert_eq!(file_stem("dir/"), None);
    assert_eq!(file_stem(""), None);
}

#[test]
fn resolve_title_falls_back_to_the_stem() {
    let mut meta = AudioMetadata::empty();
    meta.resolve_title("/music/track.mp3");
    assert_eq!(meta.title.as_deref(), Some("track"));
}

#[test]
fn resolve_title_keeps_a_tagged_title() {
    let mut meta = AudioMetadata::empty();
    meta.title = Some("Real Title".to_string());
    meta.resolve_title("/music/track.mp3");
    assert_eq!(meta.title.as_deref(), Some("Real Title"));
}
