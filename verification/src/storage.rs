use vstd::prelude::*;

use crate::cli::{Mode, Service};

verus! {

/// The kind of media that is synchronised; each kind lives in its own folder.
#[derive(Debug, Clone, Copy, PartialEq, Eq, Structural)]
pub enum MediaType {
    Audio,
    Video,
    Image,
}

impl MediaType {
    /// The folder name of this media type.
    pub open spec fn folder_name(self) -> Seq<char> {
        match self {
            MediaType::Audio => "audio"@,
            MediaType::Video => "video"@,
            MediaType::Image => "image"@,
        }
    }

    pub fn as_str(&self) -> (s: &'static str)
        ensures
            s@ == self.folder_name(),
    {
        match self {
            MediaType::Audio => "audio",
            MediaType::Video => "video",
            MediaType::Image => "image",
        }
    }

    /// The name shown for this media type in the dialog.
    pub fn label(&self) -> (r: &'static str)
        ensures
            r@ == (match self {
                MediaType::Audio => "🎵 Audio"@,
                MediaType::Video => "🎬 Video"@,
                MediaType::Image => "📸 Image"@,
            }),
    {
        match self {
            MediaType::Audio => "🎵 Audio",
            MediaType::Video => "🎬 Video",
            MediaType::Image => "📸 Image",
        }
    }

    /// The media types offered in the dialog, in order.
    pub fn options() -> (r: Vec<MediaType>)
        ensures
            r@ == seq![MediaType::Audio, MediaType::Video, MediaType::Image],
    {
        vec![MediaType::Audio, MediaType::Video, MediaType::Image]
    }
}

/// Distinct media types live in distinct folders.
pub proof fn law_folder_names_distinct(a: MediaType, b: MediaType)
    ensures
        a.folder_name() == b.folder_name() <==> a == b,
{
    reveal_strlit("audio");
    reveal_strlit("video");
    reveal_strlit("image");
    if a != b {
        assert(a.folder_name()[0] != b.folder_name()[0]);
    }
}

/// The settings read from the configuration file.
#[derive(Debug, PartialEq, Eq)]
pub struct AppConfig {
    pub dialog_mode: bool,
    pub service: Service,
    pub media_type: MediaType,
    pub audio_dir: String,
    pub video_dir: String,
    pub image_dir: String,
    pub mode: Mode,
    pub concurrency: usize,
}

/// The fewest transfers that may run at once.
pub const MIN_CONCURRENCY: usize = 1;

/// The most transfers that may run at once.
pub const MAX_CONCURRENCY: usize = 10;

/// The number of concurrent transfers proposed in the dialog.
pub const DEFAULT_CONCURRENCY: usize = 5;

/// Whether a number of concurrent transfers is allowed (1 to 10).
pub fn concurrency_in_range(n: usize) -> (r: bool)
    ensures
        r == (MIN_CONCURRENCY <= n <= MAX_CONCURRENCY),
{
    MIN_CONCURRENCY <= n && n <= MAX_CONCURRENCY
}

impl AppConfig {
    /// The local folder of the configured media type.
    pub open spec fn spec_target_dir(&self) -> String {
        match self.media_type {
            MediaType::Audio => self.audio_dir,
            MediaType::Video => self.video_dir,
            MediaType::Image => self.image_dir,
        }
    }

    /// The local folder of the configured media type.
    pub fn target_dir(&self) -> (r: &String)
        ensures
            *r == self.spec_target_dir(),
    {
        match self.media_type {
            MediaType::Audio => &self.audio_dir,
            MediaType::Video => &self.video_dir,
            MediaType::Image => &self.image_dir,
        }
    }

    /// The configuration written when none exists yet.
    pub open spec fn is_default(&self) -> bool {
        &&& self.dialog_mode
        &&& self.service == Service::Yandex
        &&& self.media_type == MediaType::Audio
        &&& self.audio_dir@ == "./static/audio"@
        &&& self.video_dir@ == "./static/video"@
        &&& self.image_dir@ == "./static/image"@
        &&& self.mode == Mode::All
        &&& self.concurrency == DEFAULT_CONCURRENCY
    }
}

impl Clone for AppConfig {
    fn clone(&self) -> (r: Self)
        ensures
            r == *self,
    {
        AppConfig {
            dialog_mode: self.dialog_mode,
            service: self.service,
            media_type: self.media_type,
            audio_dir: self.audio_dir.clone(),
            video_dir: self.video_dir.clone(),
            image_dir: self.image_dir.clone(),
            mode: self.mode,
            concurrency: self.concurrency,
        }
    }
}

impl Default for AppConfig {
    fn default() -> (r: Self)
        ensures
            r.is_default(),
    {
        AppConfig {
            dialog_mode: true,
            service: Service::Yandex,
            media_type: MediaType::Audio,
            audio_dir: "./static/audio".to_owned(),
            video_dir: "./static/video".to_owned(),
            image_dir: "./static/image".to_owned(),
            mode: Mode::All,
            concurrency: DEFAULT_CONCURRENCY,
        }
    }
}

/// Why a configuration, or the token that goes with it, was refused.
#[derive(Debug, PartialEq, Eq)]
pub enum ConfigError {
    /// The concurrency is not between 1 and 10; it was this.
    ConcurrencyOutOfRange(usize),
    /// The folder of the configured media type is not an existing folder.
    DirectoryMissing(MediaType, String),
    /// The token for the configured drive is blank.
    EmptyToken(Service),
}

/// Checks a configuration: the concurrency must be between 1 and 10, then the
/// folder of the configured media type must be an existing folder
/// (`target_is_dir` says whether `config.target_dir()` is one).
pub fn validate_config(config: &AppConfig, target_is_dir: bool) -> (r: Result<(), ConfigError>)
    ensures
        !(MIN_CONCURRENCY <= config.concurrency <= MAX_CONCURRENCY) ==> r == Err::<(), ConfigError>(
            ConfigError::ConcurrencyOutOfRange(config.concurrency),
        ),
        MIN_CONCURRENCY <= config.concurrency <= MAX_CONCURRENCY && !target_is_dir ==> r
            == Err::<(), ConfigError>(
            ConfigError::DirectoryMissing(config.media_type, config.spec_target_dir()),
        ),
        MIN_CONCURRENCY <= config.concurrency <= MAX_CONCURRENCY && target_is_dir ==> r is Ok,
{
    if !concurrency_in_range(config.concurrency) {
        return Err(ConfigError::ConcurrencyOutOfRange(config.concurrency));
    }
    if !target_is_dir {
        return Err(ConfigError::DirectoryMissing(config.media_type, config.target_dir().clone()));
    }
    Ok(())
}

/// The default configuration passes validation wherever its audio folder exists.
pub proof fn law_default_config_is_valid(config: AppConfig)
    requires
        config.is_default(),
    ensures
        MIN_CONCURRENCY <= config.concurrency <= MAX_CONCURRENCY,
        config.spec_target_dir() == config.audio_dir,
{
}

} // verus!
