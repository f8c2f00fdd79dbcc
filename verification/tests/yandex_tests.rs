use sync_folder::json::{decode_object, DecodeError};
use sync_folder::json::JsonValue;
use sync_folder::storage::MediaType;
use sync_folder::yandex::{
    auth_header, count_failures, download_succeeded, empty_listing, error_message, folder_path,
    listing_after_create, listing_step, parse_listing, transfer_link, upload_accepted,
    upload_path, CloudItem, LinkError, ListingError, ListingStep, ParseError, YandexService,
};

fn s(v: &str) -> JsonValue {
    JsonValue::Str(v.to_string())
}

fn obj(members: Vec<(&str, JsonValue)>) -> JsonValue {
    JsonValue::Object(members.into_iter().map(|(k, v)| (k.to_string(), v)).collect())
}

fn entry(name: &str, kind: &str, media: &str, size: u64) -> JsonValue {
    obj(vec![
        ("name", s(name)),
        ("type", s(kind)),
        ("size", JsonValue::Number(Some(size))),
        ("path", s(&format!("disk:/Applications/app/{}", name))),
        ("media_type", s(media)),
    ])
}

fn response(entries: Vec<JsonValue>) -> Vec<(String, JsonValue)> {
    vec![("_embedded".to_string(), obj(vec![("items", JsonValue::Array(entries))]))]
}

fn service() -> YandexService {
    YandexService::new("secret".to_string(), 4, MediaType::Audio)
}

#[test]
fn service_fields() {
    let svc = service();
    assert_eq!(svc.token(), "secret");
    assert_eq!(svc.concurrency(), 4);
    assert_eq!(svc.media_type(), MediaType::Audio);
    assert_eq!(svc.listing_path(), "app:/audio");
    assert_eq!(svc.upload_path(&"song.mp3".to_string()), "app:/audio/song.mp3");
    assert_eq!(svc.authorization(), "OAuth secret");
}

#[test]
fn parse_sorts_by_media_type() {
    let r = response(vec![
        entry("a.mp3", "file", "audio", 10),
        entry("p.jpg", "file", "image", 20),
        entry("v.mp4", "file", "video", 30),
        entry("d", "dir", "audio", 0),
        entry("t.txt", "file", "document", 1),
        entry("", "file", "audio", 1),
        s("not an object"),
    ]);
    let parsed = service().parse_response(r).unwrap();
    assert_eq!(
        parsed.audio,
        vec![
            CloudItem {
                name: "a.mp3".to_string(),
                is_dir: false,
                size: 10,
                path: "disk:/Applications/app/a.mp3".to_string(),
                media_type: "audio".to_string(),
            },
            CloudItem {
                name: "d".to_string(),
                is_dir: true,
                size: 0,
                path: "disk:/Applications/app/d".to_string(),
                media_type: "audio".to_string(),
            },
        ]
    );
    assert_eq!(parsed.image.len(), 1);
    assert_eq!(parsed.image[0].name, "p.jpg");
    assert_eq!(parsed.video.len(), 1);
    assert_eq!(parsed.video[0].size, 30);
}

#[test]
fn parse_defaults_missing_fields() {
    let r = response(vec![obj(vec![
        ("name", s("x")),
        ("media_type", s("video")),
        ("size", JsonValue::Number(None)),
    ])]);
    let parsed = parse_listing(&r).unwrap();
    assert_eq!(
        parsed.video,
        vec![CloudItem {
            name: "x".to_string(),
            is_dir: false,
            size: 0,
            path: String::new(),
            media_type: "video".to_string(),
        }]
    );
}

#[test]
fn parse_requires_embedded_items() {
    assert_eq!(parse_listing(&vec![]).unwrap_err(), ParseError::MissingItems);
    let no_items = vec![("_embedded".to_string(), obj(vec![("total", JsonValue::Number(Some(0)))]))];
    assert_eq!(parse_listing(&no_items).unwrap_err(), ParseError::MissingItems);
    let not_object = vec![("_embedded".to_string(), JsonValue::Array(vec![]))];
    assert_eq!(parse_listing(&not_object).unwrap_err(), ParseError::MissingItems);
}

#[test]
fn empty_listing_parses_to_nothing() {
    let parsed = parse_listing(&empty_listing()).unwrap();
    assert!(parsed.audio.is_empty() && parsed.image.is_empty() && parsed.video.is_empty());
}

#[test]
fn into_kind_selects_list() {
    let r = response(vec![entry("a", "file", "audio", 1), entry("b", "file", "image", 1)]);
    let parsed = parse_listing(&r).unwrap();
    let images = parsed.into_kind(MediaType::Image);
    assert_eq!(images.len(), 1);
    assert_eq!(images[0].name, "b");
    let parsed = parse_listing(&r).unwrap();
    assert!(parsed.into_kind(MediaType::Video).is_empty());
}

#[test]
fn listing_steps() {
    let msg = vec![("message".to_string(), s("quota"))];
    assert_eq!(listing_step(200, &msg), ListingStep::Read);
    assert_eq!(listing_step(404, &msg), ListingStep::CreateFolder);
    assert_eq!(listing_step(401, &msg), ListingStep::Fail("quota".to_string()));
    assert_eq!(
        listing_step(500, &vec![]),
        ListingStep::Fail("Unknown error from Yandex_api".to_string())
    );
}

#[test]
fn folder_creation() {
    let l = listing_after_create(201).unwrap();
    assert_eq!(l, empty_listing());
    assert_eq!(listing_after_create(409).unwrap_err(), ListingError::FolderNotCreated(409));
}

#[test]
fn links() {
    let ok = vec![("href".to_string(), s("https://x/y")), ("method".to_string(), s("GET"))];
    assert_eq!(transfer_link(200, &ok), Ok("https://x/y".to_string()));
    assert_eq!(transfer_link(200, &vec![]), Err(LinkError::MissingHref));
    let bad_href = vec![("href".to_string(), JsonValue::Null)];
    assert_eq!(transfer_link(200, &bad_href), Err(LinkError::MissingHref));
    let refused = vec![("message".to_string(), s("not found"))];
    assert_eq!(transfer_link(404, &refused), Err(LinkError::Refused("not found".to_string())));
    assert_eq!(transfer_link(500, &ok), Err(LinkError::Refused("Unknown error".to_string())));
}

#[test]
fn messages() {
    let m = vec![("message".to_string(), s("m1")), ("message".to_string(), s("m2"))];
    assert_eq!(error_message(&m, "d"), "m1");
    let n = vec![("message".to_string(), JsonValue::Number(Some(3)))];
    assert_eq!(error_message(&n, "d"), "d");
}

#[test]
fn statuses() {
    assert!(!download_succeeded(199));
    assert!(download_succeeded(200));
    assert!(download_succeeded(299));
    assert!(!download_succeeded(300));
    assert!(upload_accepted(201));
    assert!(upload_accepted(202));
    assert!(!upload_accepted(200));
}

#[test]
fn failures_are_counted() {
    let results: Vec<Result<(), String>> = vec![Ok(()), Err("a".to_string()), Ok(()), Err("b".to_string())];
    assert_eq!(count_failures(&results), 2);
    assert_eq!(count_failures(&vec![Ok(()), Ok(())]), 0);
    assert_eq!(count_failures(&vec![]), 0);
}

#[test]
fn paths_and_header() {
    assert_eq!(folder_path(MediaType::Video), "app:/video");
    assert_eq!(upload_path(MediaType::Image, &"a b.png".to_string()), "app:/image/a b.png");
    assert_eq!(auth_header(&"t".to_string()), "OAuth t");
}

#[test]
fn json_accessors() {
    let v = obj(vec![("k", s("v")), ("n", JsonValue::Number(Some(7))), ("a", JsonValue::Array(vec![JsonValue::Bool(true)]))]);
    assert_eq!(v.get(&"k".to_string()), Some(&s("v")));
    assert_eq!(v.get(&"z".to_string()), None);
    assert_eq!(v.get(&"n".to_string()).and_then(|x| x.as_u64()), Some(7));
    assert_eq!(v.get(&"k".to_string()).and_then(|x| x.as_str()), Some(&"v".to_string()));
    assert_eq!(v.get(&"a".to_string()).and_then(|x| x.as_array()).map(|a| a.len()), Some(1));
    assert!(v.as_object().is_some());
    assert_eq!(s("x").get(&"k".to_string()), None);
    assert_eq!(JsonValue::Null.as_str(), None);
}

#[test]
fn request_urls() {
    let svc = service();
    assert_eq!(
        svc.listing_url().unwrap(),
        "https://cloud-api.yandex.net/v1/disk/resources?limit=100000&path=app%3A%2Faudio"
    );
    assert_eq!(
        svc.upload_link_url(&"a b.mp3".to_string()).unwrap(),
        "https://cloud-api.yandex.net/v1/disk/resources/upload?path=app%3A%2Faudio%2Fa+b.mp3"
    );
    let item = CloudItem {
        name: "x.mp3".to_string(),
        is_dir: false,
        size: 3,
        path: "disk:/Applications/app/audio/x.mp3".to_string(),
        media_type: "audio".to_string(),
    };
    assert_eq!(
        sync_folder::yandex::download_link_url(&item).unwrap(),
        "https://cloud-api.yandex.net/v1/disk/resources/download?path=disk%3A%2FApplications%2Fapp%2Faudio%2Fx.mp3"
    );
}

#[test]
fn authorization_header_values() {
    let v = service().authorization_header().unwrap();
    assert_eq!(v.to_str().unwrap(), "OAuth secret");
    let bad = YandexService::new("se\ncret".to_string(), 1, MediaType::Video);
    assert_eq!(bad.authorization_header().unwrap_err(), sync_folder::yandex::RequestError::InvalidToken);
    let tab = YandexService::new("a\tb".to_string(), 1, MediaType::Video);
    assert!(tab.authorization_header().is_ok());
    let del = YandexService::new("a\u{7f}".to_string(), 1, MediaType::Video);
    assert!(del.authorization_header().is_err());
}

#[test]
fn decode_response_bodies() {
    let body = br#"{"_embedded": {"items": [{"name": "a.mp3", "media_type": "audio", "size": 5, "type": "file", "path": "p"}]}, "b": -1, "a": 1.5}"#;
    let members = decode_object(body).unwrap();
    assert_eq!(members[0].0, "_embedded");
    assert_eq!(members[1], ("a".to_string(), JsonValue::Number(None)));
    assert_eq!(members[2], ("b".to_string(), JsonValue::Number(None)));
    let parsed = parse_listing(&members).unwrap();
    assert_eq!(parsed.audio.len(), 1);
    assert_eq!(parsed.audio[0].size, 5);
    assert_eq!(decode_object(b"[1, 2]").unwrap_err(), DecodeError::NotAnObject);
    assert_eq!(decode_object(b"not json").unwrap_err(), DecodeError::NotAnObject);
    assert_eq!(decode_object(b"{}").unwrap(), vec![]);
}

#[test]
fn header_holds_oauth_and_token() {
    let svc = YandexService::new("tök".to_string(), 1, MediaType::Audio);
    let v = svc.authorization_header().unwrap();
    assert_eq!(v.as_bytes(), "OAuth tök".as_bytes());
}

#[test]
fn default_parsed_result_is_empty() {
    let p = sync_folder::yandex::ParsedResult::default();
    assert!(p.audio.is_empty() && p.image.is_empty() && p.video.is_empty());
}
