use gemini_castnow::cue::{parse_cue, CueDirective};
use gemini_castnow::playlist::{playlist_kind, read_playlist, PlaylistContent, PlaylistKind};

#[test]
fn extensions_pick_their_reader_without_regard_to_case() {
    assert_eq!(playlist_kind("m3u"), PlaylistKind::Decoded);
    assert_eq!(playlist_kind("M3U8"), PlaylistKind::Decoded);
    assert_eq!(playlist_kind("pls"), PlaylistKind::Decoded);
    assert_eq!(playlist_kind("XSPF"), PlaylistKind::Decoded);
    assert_eq!(playlist_kind("cue"), PlaylistKind::CueSheet);
    assert_eq!(playlist_kind("CUE"), PlaylistKind::CueSheet);
    assert_eq!(playlist_kind("txt"), PlaylistKind::Unsupported);
    assert_eq!(playlist_kind(""), PlaylistKind::Unsupported);
}

#[test]
fn an_m3u_list_decodes_to_its_urls() {
    let content = "#EXTM3U\nhttp://example.com/a.mp3\nhttp://example.com/b.mp3\n";
    match read_playlist(content, "m3u") {
        PlaylistContent::Urls(mut urls) => {
            urls.sort();
            assert_eq!(
                urls,
                vec![
                    "http://example.com/a.mp3".to_string(),
                    "http://example.com/b.mp3".to_string(),
                ]
            );
        }
        _ => panic!("expected decoded URLs"),
    }
}

#[test]
fn a_pls_list_decodes_to_its_urls() {
    let content = "[playlist]\nFile1=http://example.com/stream.mp3\nNumberOfEntries=1\n";
    match read_playlist(content, "pls") {
        PlaylistContent::Urls(urls) => {
            assert_eq!(urls, vec!["http://example.com/stream.mp3".to_string()]);
        }
        _ => panic!("expected decoded URLs"),
    }
}

#[test]
fn malformed_xspf_content_fails_to_decode() {
    // an unquoted attribute value is an error the decoder reports
    let content = "<playlist version=1></playlist>";
    assert!(matches!(
        read_playlist(content, "xspf"),
        PlaylistContent::DecodeFailed
    ));
}

#[test]
fn an_unknown_extension_is_unsupported() {
    assert!(matches!(
        read_playlist("anything", "doc"),
        PlaylistContent::Unsupported
    ));
}

#[test]
fn a_cue_sheet_is_read_line_by_line() {
    let content = "FILE \"album.wav\" WAVE\n  TRACK 01 AUDIO\n    TITLE \"First Song\"\n    INDEX 01 00:00:00\n";
    match read_playlist(content, "cue") {
        PlaylistContent::CueLines(lines) => {
            assert_eq!(
                lines,
                vec![
                    CueDirective::File("album.wav".to_string()),
                    CueDirective::Track(1),
                    CueDirective::Title("First Song".to_string()),
                    CueDirective::Index("00:00:00".to_string()),
                ]
            );
        }
        _ => panic!("expected cue directives"),
    }
}

#[test]
fn broken_cue_lines_say_nothing() {
    // a FILE line without quotes, a TRACK line without a number, an INDEX
    // line with too few fields, and an unknown directive are all passed over
    let content = "FILE album.wav WAVE\nTRACK one AUDIO\nINDEX 01\nREM a comment\n\n";
    assert_eq!(parse_cue(content), Vec::<CueDirective>::new());
}

#[test]
fn cue_lines_are_trimmed_before_they_are_read() {
    let content = "\t   TRACK 17 AUDIO   \r\n";
    assert_eq!(parse_cue(content), vec![CueDirective::Track(17)]);
}

#[test]
fn an_empty_cue_sheet_has_no_directives() {
    assert_eq!(parse_cue(""), Vec::<CueDirective>::new());
}

#[test]
fn a_cue_track_number_too_large_for_its_type_is_passed_over() {
    let content = "TRACK 99999999999999999999 AUDIO\n";
    assert_eq!(parse_cue(content), Vec::<CueDirective>::new());
}
