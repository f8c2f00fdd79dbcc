use sync_folder::cli::{
    check_service, check_target_dir, config_choices, entered_token, is_blank, DialogError, Mode,
    Service, WorkMode, YesOrNot,
};
use sync_folder::storage::{AppConfig, ConfigError, MediaType};

#[test]
fn service_names_and_keys() {
    assert_eq!(Service::Yandex.label(), "Yandex");
    assert_eq!(Service::Google.label(), "Google");
    assert_eq!(Service::Yandex.env_key(), "YANDEX_TOKEN");
    assert_eq!(Service::Google.env_key(), "GOOGLE_TOKEN");
    assert_eq!(Service::options(), vec![Service::Yandex]);
}

#[test]
fn mode_transfers() {
    assert!(Mode::All.downloads() && Mode::All.uploads());
    assert!(Mode::Download.downloads() && !Mode::Download.uploads());
    assert!(!Mode::Upload.downloads() && Mode::Upload.uploads());
    assert_eq!(Mode::options(), vec![Mode::All, Mode::Download, Mode::Upload]);
    assert_eq!(Mode::All.label(), "all");
    assert_eq!(Mode::Download.label(), "download");
    assert_eq!(Mode::Upload.label(), "upload");
}

#[test]
fn work_mode_and_answers() {
    assert_eq!(WorkMode::options(), vec![WorkMode::Dialog, WorkMode::Config]);
    assert_eq!(WorkMode::Config.label(), "with config");
    assert_eq!(WorkMode::Dialog.label(), "dialog");
    assert_eq!(YesOrNot::options(), vec![YesOrNot::Yes, YesOrNot::No]);
    assert_eq!(YesOrNot::Yes.label(), "Yes");
    assert_eq!(YesOrNot::No.label(), "No");
}

#[test]
fn blank_texts() {
    assert!(is_blank(""));
    assert!(is_blank(" \t\r\n"));
    assert!(is_blank("\u{3000}\u{a0}\u{2028}"));
    assert!(!is_blank(" a "));
    assert!(!is_blank("token"));
    for s in ["", "  ", "\u{85}x", "x\u{2009}", "\u{200b}"] {
        assert_eq!(is_blank(s), s.trim().is_empty());
    }
}

#[test]
fn typed_token_or_fallback() {
    assert_eq!(entered_token(Some("abc".to_string())), Some("abc".to_string()));
    assert_eq!(entered_token(Some("  ".to_string())), None);
    assert_eq!(entered_token(None), None);
}

#[test]
fn google_is_refused() {
    assert_eq!(check_service(Service::Google), Err(DialogError::GoogleUnsupported));
    assert_eq!(check_service(Service::Yandex), Ok(()));
}

#[test]
fn target_dir_checks() {
    assert_eq!(check_target_dir(&" ".to_string(), true), Err(DialogError::EmptyTargetDir));
    assert_eq!(
        check_target_dir(&"/nope".to_string(), false),
        Err(DialogError::NotAFolder("/nope".to_string()))
    );
    assert_eq!(check_target_dir(&"/tmp".to_string(), true), Ok(()));
}

#[test]
fn choices_from_config() {
    let mut c = AppConfig::default();
    c.media_type = MediaType::Video;
    c.concurrency = 3;
    let ch = config_choices(c.clone(), "tok".to_string()).unwrap();
    assert_eq!(ch.token, "tok");
    assert_eq!(ch.service, Service::Yandex);
    assert_eq!(ch.media_type, MediaType::Video);
    assert_eq!(ch.concurrency, 3);
    assert_eq!(ch.target_dir, "./static/video");
    assert_eq!(
        config_choices(c, " \n".to_string()).unwrap_err(),
        ConfigError::EmptyToken(Service::Yandex)
    );
}

#[test]
fn choices_clone_keeps_fields() {
    let c = sync_folder::cli::Choices {
        token: "t".to_string(),
        service: Service::Yandex,
        media_type: MediaType::Image,
        concurrency: 2,
        target_dir: "/d".to_string(),
    };
    let d = c.clone();
    assert_eq!((d.token, d.service, d.media_type, d.concurrency, d.target_dir), (c.token, c.service, c.media_type, c.concurrency, c.target_dir));
}
