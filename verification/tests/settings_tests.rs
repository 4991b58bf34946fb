use gemini_castnow::settings::{merge_settings, Settings};

fn empty_settings() -> Settings {
    Settings::default()
}

#[test]
fn test_default_settings() {
    let settings = Settings::default();
    assert_eq!(settings.no_search, false);
    assert_eq!(settings.loop_playback, false);
    assert_eq!(settings.shuffle, false);
    assert_eq!(settings.volume_step, None);
    assert_eq!(settings.tomp4, false);
    assert_eq!(settings.quiet, false);
    assert_eq!(settings.no_metadata, false);
    assert_eq!(settings.no_cover, false);
    assert_eq!(settings.show_options, false);
    assert_eq!(settings.exit, false);
}

#[test]
fn test_merge_cli_overrides_file_and_env() {
    let cli_settings = Settings {
        address: Some("192.168.1.100".to_string()),
        no_search: true,
        volume_step: Some(5),
        ..empty_settings()
    };

    let file_and_env_settings = Settings {
        address: Some("192.168.1.101".to_string()),
        device: Some("Bedroom TV".to_string()),
        subtitles: Some("sub.srt".to_string()),
        loop_playback: true,
        volume_step: Some(10),
        tomp4: true,
        ..empty_settings()
    };

    let merged = merge_settings(cli_settings, file_and_env_settings);

    assert_eq!(merged.address, Some("192.168.1.100".to_string())); // CLI overrides
    assert_eq!(merged.device, Some("Bedroom TV".to_string())); // File/Env is present, CLI is None
    assert_eq!(merged.subtitles, Some("sub.srt".to_string()));
    assert_eq!(merged.no_search, true); // CLI overrides
    assert_eq!(merged.loop_playback, true); // File/Env is true, CLI is false
    assert_eq!(merged.volume_step, Some(5)); // CLI overrides
    assert_eq!(merged.tomp4, true); // File/Env is true, CLI is false
}

#[test]
fn test_merge_file_and_env_when_cli_none() {
    let cli_settings = empty_settings();

    let file_and_env_settings = Settings {
        address: Some("192.168.1.101".to_string()),
        device: Some("Bedroom TV".to_string()),
        subtitles: Some("sub.srt".to_string()),
        no_search: true,
        loop_playback: true,
        shuffle: true,
        seek: Some("10s".to_string()),
        volume_step: Some(10),
        tomp4: true,
        media_type: Some("video/mp4".to_string()),
        quiet: true,
        no_metadata: true,
        no_cover: true,
        show_options: true,
        exit: true,
        command: Some("play".to_string()),
        media_path: Some("file.mp4".to_string()),
    };

    let merged = merge_settings(cli_settings, file_and_env_settings);

    assert_eq!(merged.address, Some("192.168.1.101".to_string()));
    assert_eq!(merged.device, Some("Bedroom TV".to_string()));
    assert_eq!(merged.subtitles, Some("sub.srt".to_string()));
    assert_eq!(merged.no_search, true);
    assert_eq!(merged.loop_playback, true);
    assert_eq!(merged.shuffle, true);
    assert_eq!(merged.seek, Some("10s".to_string()));
    assert_eq!(merged.volume_step, Some(10));
    assert_eq!(merged.tomp4, true);
    assert_eq!(merged.media_type, Some("video/mp4".to_string()));
    assert_eq!(merged.quiet, true);
    assert_eq!(merged.no_metadata, true);
    assert_eq!(merged.no_cover, true);
    assert_eq!(merged.show_options, true);
    assert_eq!(merged.exit, true);
    assert_eq!(merged.command, Some("play".to_string()));
    assert_eq!(merged.media_path, Some("file.mp4".to_string()));
}
