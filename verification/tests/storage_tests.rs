use sync_folder::cli::{Mode, Service};
use sync_folder::storage::{
    concurrency_in_range, validate_config, AppConfig, ConfigError, MediaType, DEFAULT_CONCURRENCY,
};

#[test]
fn media_type_folder_names() {
    assert_eq!(MediaType::Audio.as_str(), "audio");
    assert_eq!(MediaType::Video.as_str(), "video");
    assert_eq!(MediaType::Image.as_str(), "image");
}

#[test]
fn media_type_labels_and_options() {
    assert_eq!(MediaType::Audio.label(), "🎵 Audio");
    assert_eq!(MediaType::Video.label(), "🎬 Video");
    assert_eq!(MediaType::Image.label(), "📸 Image");
    assert_eq!(MediaType::options(), vec![MediaType::Audio, MediaType::Video, MediaType::Image]);
}

#[test]
fn default_config_values() {
    let c = AppConfig::default();
    assert!(c.dialog_mode);
    assert_eq!(c.service, Service::Yandex);
    assert_eq!(c.media_type, MediaType::Audio);
    assert_eq!(c.audio_dir, "./static/audio");
    assert_eq!(c.video_dir, "./static/video");
    assert_eq!(c.image_dir, "./static/image");
    assert_eq!(c.mode, Mode::All);
    assert_eq!(c.concurrency, 5);
    assert_eq!(DEFAULT_CONCURRENCY, 5);
}

#[test]
fn default_config_is_valid_when_folder_exists() {
    let c = AppConfig::default();
    assert_eq!(validate_config(&c, true), Ok(()));
}

#[test]
fn target_dir_follows_media_type() {
    let mut c = AppConfig::default();
    assert_eq!(c.target_dir(), "./static/audio");
    c.media_type = MediaType::Video;
    assert_eq!(c.target_dir(), "./static/video");
    c.media_type = MediaType::Image;
    assert_eq!(c.target_dir(), "./static/image");
}

#[test]
fn concurrency_bounds() {
    assert!(!concurrency_in_range(0));
    assert!(concurrency_in_range(1));
    assert!(concurrency_in_range(10));
    assert!(!concurrency_in_range(11));
}

#[test]
fn validate_rejects_concurrency_out_of_range() {
    let mut c = AppConfig::default();
    c.concurrency = 0;
    assert_eq!(validate_config(&c, true), Err(ConfigError::ConcurrencyOutOfRange(0)));
    c.concurrency = 11;
    assert_eq!(validate_config(&c, false), Err(ConfigError::ConcurrencyOutOfRange(11)));
}

#[test]
fn validate_rejects_missing_folder() {
    let mut c = AppConfig::default();
    c.media_type = MediaType::Image;
    c.concurrency = 10;
    assert_eq!(
        validate_config(&c, false),
        Err(ConfigError::DirectoryMissing(MediaType::Image, "./static/image".to_string()))
    );
    c.concurrency = 1;
    assert_eq!(validate_config(&c, true), Ok(()));
}
