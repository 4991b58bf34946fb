use gemini_castnow::device::DeviceRecord;
use gemini_castnow::discovery::{collect_resolved, remaining_budget, DiscoveryEvent};
use gemini_castnow::session::{build_media_descriptor, is_remote_url, StreamKind};
use gemini_castnow::settings::Settings;

#[test]
fn the_descriptor_carries_the_media_path_and_defaults_the_content_type() {
    let settings = Settings {
        media_path: Some("http://127.0.0.1:3000".to_string()),
        ..Settings::default()
    };
    let d = build_media_descriptor(&settings);
    assert_eq!(d.content_id, "http://127.0.0.1:3000");
    assert_eq!(d.content_type, "video/mp4");
    assert!(matches!(d.stream, StreamKind::Buffered));
}

#[test]
fn a_configured_content_type_is_kept() {
    let settings = Settings {
        media_path: Some("film.mkv".to_string()),
        media_type: Some("video/x-matroska".to_string()),
        ..Settings::default()
    };
    let d = build_media_descriptor(&settings);
    assert_eq!(d.content_type, "video/x-matroska");
}

#[test]
fn remote_urls_are_told_from_local_paths() {
    assert!(is_remote_url("http://example.com/a.mp4"));
    assert!(is_remote_url("https://example.com/a.mp4"));
    assert!(!is_remote_url("/tmp/a.mp4"));
    assert!(!is_remote_url("httpx://example.com"));
    assert!(!is_remote_url(""));
}

fn resolved(name: &str) -> DiscoveryEvent {
    DiscoveryEvent::Resolved(DeviceRecord {
        name: name.to_string(),
        addresses: vec!["192.168.1.50".to_string()],
        port: 8009,
    })
}

#[test]
fn only_resolved_events_become_candidates_in_arrival_order() {
    let events = vec![
        DiscoveryEvent::Other,
        resolved("A"),
        DiscoveryEvent::Other,
        resolved("B"),
    ];
    let records = collect_resolved(events);
    let names: Vec<String> = records.into_iter().map(|r| r.name).collect();
    assert_eq!(names, vec!["A".to_string(), "B".to_string()]);
}

#[test]
fn the_discovery_budget_shrinks_and_never_goes_negative() {
    assert_eq!(remaining_budget(5000, 1200), 3800);
    assert_eq!(remaining_budget(5000, 5000), 0);
    assert_eq!(remaining_budget(5000, 9000), 0);
}
