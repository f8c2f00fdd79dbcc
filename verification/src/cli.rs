use vstd::prelude::*;

use crate::storage::{AppConfig, ConfigError, MediaType};

verus! {

/// What the user picked in the dialog, or what a configuration file gives.
#[derive(Debug)]
pub struct Choices {
    pub token: String,
    pub service: Service,
    pub media_type: MediaType,
    pub concurrency: usize,
    pub target_dir: String,
}

impl Clone for Choices {
    fn clone(&self) -> (r: Self)
        ensures
            r == *self,
    {
        Choices {
            token: self.token.clone(),
            service: self.service,
            media_type: self.media_type,
            concurrency: self.concurrency,
            target_dir: self.target_dir.clone(),
        }
    }
}

/// The cloud drive to synchronise with.
#[derive(Debug, Clone, Copy, PartialEq, Eq, Structural)]
pub enum Service {
    Yandex,
    Google,
}

impl Service {
    /// The name shown for this drive.
    pub fn label(&self) -> (r: &'static str)
        ensures
            r@ == (match self {
                Service::Yandex => "Yandex"@,
                Service::Google => "Google"@,
            }),
    {
        match self {
            Service::Yandex => "Yandex",
            Service::Google => "Google",
        }
    }

    /// The environment variable that holds the token for this drive.
    pub fn env_key(&self) -> (r: &'static str)
        ensures
            r@ == (match self {
                Service::Yandex => "YANDEX_TOKEN"@,
                Service::Google => "GOOGLE_TOKEN"@,
            }),
    {
        match self {
            Service::Yandex => "YANDEX_TOKEN",
            Service::Google => "GOOGLE_TOKEN",
        }
    }

    /// The drives offered in the dialog: only Yandex is supported.
    pub fn options() -> (r: Vec<Service>)
        ensures
            r@ == seq![Service::Yandex],
    {
        vec![Service::Yandex]
    }
}

/// Which transfers to run.
#[derive(Debug, Clone, Copy, PartialEq, Eq, Structural)]
pub enum Mode {
    Download,
    Upload,
    All,
}

impl Mode {
    /// The name shown for this mode.
    pub fn label(&self) -> (r: &'static str)
        ensures
            r@ == (match self {
                Mode::All => "all"@,
                Mode::Download => "download"@,
                Mode::Upload => "upload"@,
            }),
    {
        match self {
            Mode::All => "all",
            Mode::Download => "download",
            Mode::Upload => "upload",
        }
    }

    /// Whether this mode downloads the files missing locally.
    pub fn downloads(&self) -> (r: bool)
        ensures
            r == (*self == Mode::Download || *self == Mode::All),
    {
        match self {
            Mode::Download | Mode::All => true,
            Mode::Upload => false,
        }
    }

    /// Whether this mode uploads the files missing in the cloud.
    pub fn uploads(&self) -> (r: bool)
        ensures
            r == (*self == Mode::Upload || *self == Mode::All),
    {
        match self {
            Mode::Upload | Mode::All => true,
            Mode::Download => false,
        }
    }

    /// The modes offered in the dialog, in order.
    pub fn options() -> (r: Vec<Mode>)
        ensures
            r@ == seq![Mode::All, Mode::Download, Mode::Upload],
    {
        vec![Mode::All, Mode::Download, Mode::Upload]
    }
}

/// How the program is driven when no configuration file exists.
#[derive(Debug, Clone, Copy, PartialEq, Eq, Structural)]
pub enum WorkMode {
    Config,
    Dialog,
}

impl WorkMode {
    /// The name shown for this work mode.
    pub fn label(&self) -> (r: &'static str)
        ensures
            r@ == (match self {
                WorkMode::Config => "with config"@,
                WorkMode::Dialog => "dialog"@,
            }),
    {
        match self {
            WorkMode::Config => "with config",
            WorkMode::Dialog => "dialog",
        }
    }

    /// The work modes offered, in order.
    pub fn options() -> (r: Vec<WorkMode>)
        ensures
            r@ == seq![WorkMode::Dialog, WorkMode::Config],
    {
        vec![WorkMode::Dialog, WorkMode::Config]
    }
}

/// An answer to a yes/no question.
#[derive(Debug, Clone, Copy, PartialEq, Eq, Structural)]
pub enum YesOrNot {
    Yes,
    No,
}

impl YesOrNot {
    /// The name shown for this answer.
    pub fn label(&self) -> (r: &'static str)
        ensures
            r@ == (match self {
                YesOrNot::No => "No"@,
                YesOrNot::Yes => "Yes"@,
            }),
    {
        match self {
            YesOrNot::No => "No",
            YesOrNot::Yes => "Yes",
        }
    }

    /// The answers offered, in order.
    pub fn options() -> (r: Vec<YesOrNot>)
        ensures
            r@ == seq![YesOrNot::Yes, YesOrNot::No],
    {
        vec![YesOrNot::Yes, YesOrNot::No]
    }
}


/// Whether a character is white space in the sense of Unicode's White_Space
/// property (the characters that `char::is_whitespace` accepts).
pub open spec fn is_white_space(c: char) -> bool {
    let n = c as u32;
    ||| 0x09 <= n <= 0x0D
    ||| n == 0x20
    ||| n == 0x85
    ||| n == 0xA0
    ||| n == 0x1680
    ||| 0x2000 <= n <= 0x200A
    ||| n == 0x2028
    ||| n == 0x2029
    ||| n == 0x202F
    ||| n == 0x205F
    ||| n == 0x3000
}

/// A text is blank when it holds nothing but white space.
pub open spec fn blank(s: Seq<char>) -> bool {
    forall|i: int| 0 <= i < s.len() ==> is_white_space(#[trigger] s[i])
}

/// Among ASCII characters, white space is exactly the space and the
/// characters from tab to carriage return; every printable character other
/// than the space (letters, digits, `.`, `/`, ...) is not white space.
pub proof fn law_ascii_white_space(c: char)
    ensures
        (c as u32) < 0x80 ==> (is_white_space(c) <==> (c == ' ' || ('\t' <= c && c <= '\r'))),
        0x21 <= (c as u32) <= 0x7E ==> !is_white_space(c),
{
}

/// A text is blank exactly when each of its characters is white space,
/// whatever its length: one character that is not white space makes it not
/// blank, and the empty text is blank.
pub proof fn law_blank_needs_only_white_space(s: Seq<char>)
    ensures
        (exists|i: int| 0 <= i < s.len() && !is_white_space(#[trigger] s[i])) ==> !blank(s),
        (forall|i: int| 0 <= i < s.len() ==> is_white_space(#[trigger] s[i])) ==> blank(s),
        blank(Seq::<char>::empty()),
        forall|t: Seq<char>, c: char|
            0x21 <= (c as u32) <= 0x7E ==> !blank(#[trigger] t.push(c)),
{
    assert forall|t: Seq<char>, c: char| 0x21 <= (c as u32) <= 0x7E implies !blank(
        #[trigger] t.push(c),
    ) by {
        assert(t.push(c)[t.len() as int] == c);
    }
}

fn white_space(c: char) -> (r: bool)
    ensures
        r == is_white_space(c),
{
    let n = c as u32;
    (0x09 <= n && n <= 0x0D) || n == 0x20 || n == 0x85 || n == 0xA0 || n == 0x1680 || (0x2000 <= n
        && n <= 0x200A) || n == 0x2028 || n == 0x2029 || n == 0x202F || n == 0x205F || n == 0x3000
}

/// Whether a text is empty once white space is trimmed from both ends.
pub fn is_blank(s: &str) -> (r: bool)
    ensures
        r == blank(s@),
{
    for c in it: s.chars()
        invariant
            it.seq() == s@,
            forall|j: int| 0 <= j < it.index() ==> is_white_space(#[trigger] s@[j]),
    {
        if !white_space(c) {
            return false;
        }
    }
    true
}

/// Why the dialog stopped.
#[derive(Debug, PartialEq, Eq)]
pub enum DialogError {
    /// Google Drive was chosen; it is not supported yet.
    GoogleUnsupported,
    /// The target folder path is blank.
    EmptyTargetDir,
    /// The target folder path does not name an existing folder.
    NotAFolder(String),
}

/// Accepts the chosen drive: Yandex is supported, Google is not yet.
pub fn check_service(service: Service) -> (r: Result<(), DialogError>)
    ensures
        service == Service::Yandex ==> r is Ok,
        service == Service::Google ==> r == Err::<(), DialogError>(DialogError::GoogleUnsupported),
{
    match service {
        Service::Google => Err(DialogError::GoogleUnsupported),
        Service::Yandex => Ok(()),
    }
}

/// The token typed in the dialog, unless none was typed or it is blank (then
/// the token of the environment is used instead).
pub fn entered_token(typed: Option<String>) -> (r: Option<String>)
    ensures
        match typed {
            Some(t) => if blank(t@) {
                r is None
            } else {
                r == Some(t)
            },
            None => r is None,
        },
{
    match typed {
        Some(t) => if is_blank(t.as_str()) {
            None
        } else {
            Some(t)
        },
        None => None,
    }
}

/// Accepts the target folder typed in the dialog: it must not be blank, and it
/// must be an existing folder (`is_dir` says whether it is one).
pub fn check_target_dir(target_dir: &String, is_dir: bool) -> (r: Result<(), DialogError>)
    ensures
        blank(target_dir@) ==> r == Err::<(), DialogError>(DialogError::EmptyTargetDir),
        !blank(target_dir@) && !is_dir ==> (r matches Err(DialogError::NotAFolder(d)) && d@
            == target_dir@),
        !blank(target_dir@) && is_dir ==> r is Ok,
{
    if is_blank(target_dir.as_str()) {
        return Err(DialogError::EmptyTargetDir);
    }
    if !is_dir {
        return Err(DialogError::NotAFolder(target_dir.clone()));
    }
    Ok(())
}

/// The choices that a configuration file gives, with the token found for its
/// drive; a blank token is refused.
pub fn config_choices(config: AppConfig, token: String) -> (r: Result<Choices, ConfigError>)
    ensures
        blank(token@) ==> r == Err::<Choices, ConfigError>(ConfigError::EmptyToken(config.service)),
        !blank(token@) ==> (r matches Ok(c) && c.token == token && c.service == config.service
            && c.media_type == config.media_type && c.concurrency == config.concurrency
            && c.target_dir == config.spec_target_dir()),
{
    if is_blank(token.as_str()) {
        return Err(ConfigError::EmptyToken(config.service));
    }
    let target_dir = match config.media_type {
        MediaType::Audio => config.audio_dir,
        MediaType::Video => config.video_dir,
        MediaType::Image => config.image_dir,
    };
    Ok(
        Choices {
            token,
            service: config.service,
            media_type: config.media_type,
            concurrency: config.concurrency,
            target_dir,
        },
    )
}

} // verus!
