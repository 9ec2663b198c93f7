//! Errors returned by the Speech bridge, and the mapping of bridge status
//! codes and framework error codes to them.

use vstd::prelude::*;
use vstd::string::StringExecFns;

use crate::text::{
    ascii_lower, chars_of, contains_chars, contains_seq, decimal_text, lower_chars,
    push_signed_decimal, str_eq,
};

verus! {

broadcast use vstd::string::group_string_axioms;

/// Status the bridge reports on success.
pub const STATUS_OK: i32 = 0;

/// Status for an invalid argument.
pub const STATUS_INVALID_ARGUMENT: i32 = -1;

/// Status for missing speech-recognition authorization.
pub const STATUS_NOT_AUTHORIZED: i32 = -2;

/// Status for an unavailable recognizer.
pub const STATUS_RECOGNIZER_UNAVAILABLE: i32 = -3;

/// Status for audio that could not be loaded.
pub const STATUS_AUDIO_LOAD_FAILED: i32 = -4;

/// Status for a failed recognition.
pub const STATUS_RECOGNITION_FAILED: i32 = -5;

/// Status for a recognition that timed out.
pub const STATUS_TIMED_OUT: i32 = -6;

/// Status for an unclassified failure.
pub const STATUS_UNKNOWN: i32 = -99;

/// Authorization state returned by Apple's `SFSpeechRecognizer.authorizationStatus()`.
#[derive(Debug, Clone, Copy, PartialEq, Eq, Hash, Structural)]
#[non_exhaustive]
pub enum AuthorizationStatus {
    NotDetermined,
    Denied,
    Restricted,
    Authorized,
    Unknown,
}

/// The authorization state a raw framework value denotes.
pub open spec fn authorization_status_of(raw: i32) -> AuthorizationStatus {
    if raw == 0 {
        AuthorizationStatus::NotDetermined
    } else if raw == 1 {
        AuthorizationStatus::Denied
    } else if raw == 2 {
        AuthorizationStatus::Restricted
    } else if raw == 3 {
        AuthorizationStatus::Authorized
    } else {
        AuthorizationStatus::Unknown
    }
}

impl AuthorizationStatus {
    pub fn from_raw(raw: i32) -> (r: Self)
        ensures
            r == authorization_status_of(raw),
    {
        match raw {
            0 => AuthorizationStatus::NotDetermined,
            1 => AuthorizationStatus::Denied,
            2 => AuthorizationStatus::Restricted,
            3 => AuthorizationStatus::Authorized,
            _ => AuthorizationStatus::Unknown,
        }
    }

    /// Convenience: is this state `Authorized`?
    pub fn is_authorized(self) -> (r: bool)
        ensures
            r == (self == AuthorizationStatus::Authorized),
    {
        match self {
            AuthorizationStatus::Authorized => true,
            _ => false,
        }
    }
}

/// `SFSpeechErrorDomain` from `SFErrors.h`.
pub const SPEECH_ERROR_DOMAIN: &'static str = "SFSpeechErrorDomain";

/// Known `SFSpeechErrorCode` values from `SFErrors.h`.
#[derive(Debug, Clone, Copy, PartialEq, Eq, Hash, Structural)]
#[non_exhaustive]
pub enum SpeechFrameworkErrorCode {
    InternalServiceError,
    AudioReadFailed,
    AudioDisordered,
    UnexpectedAudioFormat,
    NoModel,
    IncompatibleAudioFormats,
    UndefinedTemplateClassName,
    MalformedSupplementalModel,
    ModuleOutputFailed,
    AssetLocaleNotAllocated,
    TooManyAssetLocalesAllocated,
    Timeout,
    MissingParameter,
    CannotAllocateUnsupportedLocale,
    InsufficientResources,
    Unknown(i64),
}

/// The message, ASCII lower-cased, says that audio arrived out of order.
pub open spec fn mentions_disordered_audio(message: Seq<char>) -> bool {
    contains_seq(ascii_lower(message), "disordered"@) || contains_seq(
        ascii_lower(message),
        "out of order"@,
    )
}

/// The error code that a framework error's domain, code and message denote.
/// Outside the Speech error domain every code is `Unknown`. In the domain,
/// code 2 covers both unreadable and disordered audio; the message tells
/// them apart.
pub open spec fn framework_error_code(
    domain: Seq<char>,
    code: i64,
    message: Seq<char>,
) -> SpeechFrameworkErrorCode {
    if domain != SPEECH_ERROR_DOMAIN@ {
        SpeechFrameworkErrorCode::Unknown(code)
    } else if code == 1 {
        SpeechFrameworkErrorCode::InternalServiceError
    } else if code == 2 {
        if mentions_disordered_audio(message) {
            SpeechFrameworkErrorCode::AudioDisordered
        } else {
            SpeechFrameworkErrorCode::AudioReadFailed
        }
    } else if code == 3 {
        SpeechFrameworkErrorCode::UnexpectedAudioFormat
    } else if code == 4 {
        SpeechFrameworkErrorCode::NoModel
    } else if code == 5 {
        SpeechFrameworkErrorCode::IncompatibleAudioFormats
    } else if code == 7 {
        SpeechFrameworkErrorCode::UndefinedTemplateClassName
    } else if code == 8 {
        SpeechFrameworkErrorCode::MalformedSupplementalModel
    } else if code == 9 {
        SpeechFrameworkErrorCode::ModuleOutputFailed
    } else if code == 10 {
        SpeechFrameworkErrorCode::AssetLocaleNotAllocated
    } else if code == 11 {
        SpeechFrameworkErrorCode::TooManyAssetLocalesAllocated
    } else if code == 12 {
        SpeechFrameworkErrorCode::Timeout
    } else if code == 13 {
        SpeechFrameworkErrorCode::MissingParameter
    } else if code == 15 {
        SpeechFrameworkErrorCode::CannotAllocateUnsupportedLocale
    } else if code == 16 {
        SpeechFrameworkErrorCode::InsufficientResources
    } else {
        SpeechFrameworkErrorCode::Unknown(code)
    }
}

impl SpeechFrameworkErrorCode {
    pub fn from_domain_and_code(domain: &str, code: i64) -> (r: Self)
        ensures
            r == framework_error_code(domain@, code, Seq::empty()),
    {
        let empty = "";
        proof {
            reveal_strlit("");
            assert(empty@ =~= Seq::<char>::empty());
        }
        Self::from_domain_code_and_message(domain, code, empty)
    }

    pub fn from_domain_code_and_message(domain: &str, code: i64, message: &str) -> (r: Self)
        ensures
            r == framework_error_code(domain@, code, message@),
    {
        if !str_eq(domain, SPEECH_ERROR_DOMAIN) {
            return SpeechFrameworkErrorCode::Unknown(code);
        }
        match code {
            1 => SpeechFrameworkErrorCode::InternalServiceError,
            2 => {
                let lower = lower_chars(&chars_of(message));
                let disordered = chars_of("disordered");
                let out_of_order = chars_of("out of order");
                if contains_chars(&lower, &disordered) || contains_chars(&lower, &out_of_order) {
                    SpeechFrameworkErrorCode::AudioDisordered
                } else {
                    SpeechFrameworkErrorCode::AudioReadFailed
                }
            },
            3 => SpeechFrameworkErrorCode::UnexpectedAudioFormat,
            4 => SpeechFrameworkErrorCode::NoModel,
            5 => SpeechFrameworkErrorCode::IncompatibleAudioFormats,
            7 => SpeechFrameworkErrorCode::UndefinedTemplateClassName,
            8 => SpeechFrameworkErrorCode::MalformedSupplementalModel,
            9 => SpeechFrameworkErrorCode::ModuleOutputFailed,
            10 => SpeechFrameworkErrorCode::AssetLocaleNotAllocated,
            11 => SpeechFrameworkErrorCode::TooManyAssetLocalesAllocated,
            12 => SpeechFrameworkErrorCode::Timeout,
            13 => SpeechFrameworkErrorCode::MissingParameter,
            15 => SpeechFrameworkErrorCode::CannotAllocateUnsupportedLocale,
            16 => SpeechFrameworkErrorCode::InsufficientResources,
            other => SpeechFrameworkErrorCode::Unknown(other),
        }
    }
}

/// A structured framework error returned by Apple's `Speech.framework`.
#[derive(Debug, Clone, PartialEq, Eq)]
pub struct SpeechFrameworkError {
    pub domain: String,
    pub code: i64,
    pub message: String,
    pub kind: SpeechFrameworkErrorCode,
}

/// The display text of a framework error: `message (code) [domain]`.
pub open spec fn framework_error_text(e: SpeechFrameworkError) -> Seq<char> {
    e.message@ + " ("@ + decimal_text(e.code as int) + ") ["@ + e.domain@ + "]"@
}

impl SpeechFrameworkError {
    /// The display text: `message (code) [domain]`.
    pub fn to_string(&self) -> (r: String)
        ensures
            r@ == framework_error_text(*self),
    {
        let mut s = self.message.clone();
        s.append(" (");
        push_signed_decimal(&mut s, self.code);
        s.append(") [");
        s.append(self.domain.as_str());
        s.append("]");
        s
    }
}

/// Errors of the Speech bridge.
#[derive(Debug, Clone, PartialEq, Eq)]
#[non_exhaustive]
pub enum SpeechError {
    /// Speech recognition is not authorized; see [`AuthorizationStatus`].
    NotAuthorized(String),
    /// `SFSpeechRecognizer` is unavailable for the requested locale (or the
    /// device is offline and the locale doesn't support on-device recognition).
    RecognizerUnavailable(String),
    /// The audio file at the given path could not be loaded.
    AudioLoadFailed(String),
    /// `SFSpeechRecognitionTask` reported an error.
    RecognitionFailed(String),
    /// Recognition didn't produce a final result within the configured timeout.
    TimedOut(String),
    /// Caller supplied an invalid argument (e.g. NUL byte in path).
    InvalidArgument(String),
    /// A structured error returned by `Speech.framework`.
    Framework(SpeechFrameworkError),
    /// Catch-all for unmapped statuses from the bridge.
    Unknown { code: i32, message: String },
}

/// The display text of an error.
pub open spec fn speech_error_text(e: SpeechError) -> Seq<char> {
    match e {
        SpeechError::NotAuthorized(m) => "speech recognition not authorized: "@ + m@,
        SpeechError::RecognizerUnavailable(m) => "recognizer unavailable: "@ + m@,
        SpeechError::AudioLoadFailed(m) => "audio load failed: "@ + m@,
        SpeechError::RecognitionFailed(m) => "recognition failed: "@ + m@,
        SpeechError::TimedOut(m) => "timed out: "@ + m@,
        SpeechError::InvalidArgument(m) => "invalid argument: "@ + m@,
        SpeechError::Framework(error) => "speech framework error: "@ + framework_error_text(error),
        SpeechError::Unknown { code, message } => "speech error "@ + decimal_text(code as int)
            + ": "@ + message@,
    }
}

impl SpeechError {
    /// The display text of this error.
    pub fn to_string(&self) -> (r: String)
        ensures
            r@ == speech_error_text(*self),
    {
        match self {
            SpeechError::NotAuthorized(m) => {
                let mut s = "speech recognition not authorized: ".to_owned();
                s.append(m.as_str());
                s
            },
            SpeechError::RecognizerUnavailable(m) => {
                let mut s = "recognizer unavailable: ".to_owned();
                s.append(m.as_str());
                s
            },
            SpeechError::AudioLoadFailed(m) => {
                let mut s = "audio load failed: ".to_owned();
                s.append(m.as_str());
                s
            },
            SpeechError::RecognitionFailed(m) => {
                let mut s = "recognition failed: ".to_owned();
                s.append(m.as_str());
                s
            },
            SpeechError::TimedOut(m) => {
                let mut s = "timed out: ".to_owned();
                s.append(m.as_str());
                s
            },
            SpeechError::InvalidArgument(m) => {
                let mut s = "invalid argument: ".to_owned();
                s.append(m.as_str());
                s
            },
            SpeechError::Framework(error) => {
                let mut s = "speech framework error: ".to_owned();
                let inner = error.to_string();
                s.append(inner.as_str());
                s
            },
            SpeechError::Unknown { code, message } => {
                let mut s = "speech error ".to_owned();
                push_signed_decimal(&mut s, *code as i64);
                s.append(": ");
                s.append(message.as_str());
                s
            },
        }
    }

    /// The framework error this error wraps, if any.
    pub fn source(&self) -> (r: Option<&SpeechFrameworkError>)
        ensures
            match *self {
                SpeechError::Framework(e) => r == Some(&e),
                _ => r is None,
            },
    {
        match self {
            SpeechError::Framework(error) => Some(error),
            _ => None,
        }
    }
}

/// The error a bridge `status` denotes, with the bridge's message (`None`
/// when the bridge gave none, which reads as an empty message).
pub open spec fn status_error_matches(status: i32, message: Seq<char>, e: SpeechError) -> bool {
    match e {
        SpeechError::NotAuthorized(m) => status == STATUS_NOT_AUTHORIZED && m@ == message,
        SpeechError::RecognizerUnavailable(m) => status == STATUS_RECOGNIZER_UNAVAILABLE && m@
            == message,
        SpeechError::AudioLoadFailed(m) => status == STATUS_AUDIO_LOAD_FAILED && m@ == message,
        SpeechError::RecognitionFailed(m) => status == STATUS_RECOGNITION_FAILED && m@ == message,
        SpeechError::TimedOut(m) => status == STATUS_TIMED_OUT && m@ == message,
        SpeechError::InvalidArgument(m) => status == STATUS_INVALID_ARGUMENT && m@ == message,
        SpeechError::Framework(_) => false,
        SpeechError::Unknown { code, message: m } => {
            &&& status != STATUS_NOT_AUTHORIZED
            &&& status != STATUS_RECOGNIZER_UNAVAILABLE
            &&& status != STATUS_AUDIO_LOAD_FAILED
            &&& status != STATUS_RECOGNITION_FAILED
            &&& status != STATUS_TIMED_OUT
            &&& status != STATUS_INVALID_ARGUMENT
            &&& code == status
            &&& m@ == message
        },
    }
}

/// The text of an optional bridge message; a missing message is empty.
pub open spec fn message_text(message: Option<String>) -> Seq<char> {
    match message {
        Some(m) => m@,
        None => Seq::empty(),
    }
}

/// Maps a failing bridge status and its message to an error.
pub fn error_from_status(status: i32, message: Option<String>) -> (r: SpeechError)
    ensures
        status_error_matches(status, message_text(message), r),
{
    let message = match message {
        Some(m) => m,
        None => String::new(),
    };
    if status == STATUS_NOT_AUTHORIZED {
        SpeechError::NotAuthorized(message)
    } else if status == STATUS_RECOGNIZER_UNAVAILABLE {
        SpeechError::RecognizerUnavailable(message)
    } else if status == STATUS_AUDIO_LOAD_FAILED {
        SpeechError::AudioLoadFailed(message)
    } else if status == STATUS_RECOGNITION_FAILED {
        SpeechError::RecognitionFailed(message)
    } else if status == STATUS_TIMED_OUT {
        SpeechError::TimedOut(message)
    } else if status == STATUS_INVALID_ARGUMENT {
        SpeechError::InvalidArgument(message)
    } else {
        SpeechError::Unknown { code: status, message }
    }
}

} // verus!

verus! {

/// Only the raw value 3 means authorized.
pub proof fn law_only_raw_three_is_authorized(raw: i32)
    ensures
        (authorization_status_of(raw) == AuthorizationStatus::Authorized) <==> raw == 3,
{
}

/// Outside the Speech error domain no code is interpreted: every code, with
/// any message, is `Unknown` with the code kept.
pub proof fn law_foreign_domain_is_unknown(domain: Seq<char>, code: i64, message: Seq<char>)
    requires
        domain != SPEECH_ERROR_DOMAIN@,
    ensures
        framework_error_code(domain, code, message) == SpeechFrameworkErrorCode::Unknown(code),
{
}

/// The classification of a framework error ignores ASCII case in the
/// message: the message lower-cased gives the same code.
pub proof fn law_error_code_ignores_message_case(domain: Seq<char>, code: i64, message: Seq<char>)
    ensures
        framework_error_code(domain, code, ascii_lower(message)) == framework_error_code(
            domain,
            code,
            message,
        ),
{
    crate::text::lemma_ascii_lower_idempotent(message);
}

/// Only code 2 depends on the message: for any other code, two messages give
/// the same classification.
pub proof fn law_error_code_message_matters_only_for_code_two(
    domain: Seq<char>,
    code: i64,
    m1: Seq<char>,
    m2: Seq<char>,
)
    requires
        code != 2,
    ensures
        framework_error_code(domain, code, m1) == framework_error_code(domain, code, m2),
{
}

} // verus!

verus! {

/// The bridge's status codes.
pub proof fn law_status_codes()
    ensures
        STATUS_OK == 0,
        STATUS_INVALID_ARGUMENT == -1,
        STATUS_NOT_AUTHORIZED == -2,
        STATUS_RECOGNIZER_UNAVAILABLE == -3,
        STATUS_AUDIO_LOAD_FAILED == -4,
        STATUS_RECOGNITION_FAILED == -5,
        STATUS_TIMED_OUT == -6,
        STATUS_UNKNOWN == -99,
{
}

/// The raw authorization values are the framework's
/// (`SFSpeechRecognizerAuthorizationStatus`): not determined 0, denied 1,
/// restricted 2, authorized 3; anything else is unknown.
pub proof fn law_authorization_raw_values(raw: i32)
    ensures
        authorization_status_of(raw) == AuthorizationStatus::NotDetermined <==> raw == 0,
        authorization_status_of(raw) == AuthorizationStatus::Denied <==> raw == 1,
        authorization_status_of(raw) == AuthorizationStatus::Restricted <==> raw == 2,
        authorization_status_of(raw) == AuthorizationStatus::Authorized <==> raw == 3,
        authorization_status_of(raw) == AuthorizationStatus::Unknown <==> !(0 <= raw <= 3),
{
}

/// In the Speech error domain the codes are those of `SFSpeechErrorCode`.
pub proof fn law_framework_error_codes(code: i64, message: Seq<char>)
    ensures
        SPEECH_ERROR_DOMAIN@ == "SFSpeechErrorDomain"@,
        framework_error_code(SPEECH_ERROR_DOMAIN@, code, message) == (if code == 1 {
            SpeechFrameworkErrorCode::InternalServiceError
        } else if code == 2 {
            if mentions_disordered_audio(message) {
                SpeechFrameworkErrorCode::AudioDisordered
            } else {
                SpeechFrameworkErrorCode::AudioReadFailed
            }
        } else if code == 3 {
            SpeechFrameworkErrorCode::UnexpectedAudioFormat
        } else if code == 4 {
            SpeechFrameworkErrorCode::NoModel
        } else if code == 5 {
            SpeechFrameworkErrorCode::IncompatibleAudioFormats
        } else if code == 7 {
            SpeechFrameworkErrorCode::UndefinedTemplateClassName
        } else if code == 8 {
            SpeechFrameworkErrorCode::MalformedSupplementalModel
        } else if code == 9 {
            SpeechFrameworkErrorCode::ModuleOutputFailed
        } else if code == 10 {
            SpeechFrameworkErrorCode::AssetLocaleNotAllocated
        } else if code == 11 {
            SpeechFrameworkErrorCode::TooManyAssetLocalesAllocated
        } else if code == 12 {
            SpeechFrameworkErrorCode::Timeout
        } else if code == 13 {
            SpeechFrameworkErrorCode::MissingParameter
        } else if code == 15 {
            SpeechFrameworkErrorCode::CannotAllocateUnsupportedLocale
        } else if code == 16 {
            SpeechFrameworkErrorCode::InsufficientResources
        } else {
            SpeechFrameworkErrorCode::Unknown(code)
        }),
        mentions_disordered_audio(message) <==> (contains_seq(ascii_lower(message), "disordered"@)
            || contains_seq(ascii_lower(message), "out of order"@)),
{
}

} // verus!

verus! {

/// Each failing bridge status gives its own kind of error carrying the
/// bridge's message: not authorized (-2), recognizer unavailable (-3), audio
/// load failed (-4), recognition failed (-5), timed out (-6), invalid
/// argument (-1); any other status gives `Unknown` with the status kept.
/// No status gives a framework error.
pub proof fn law_status_error_kinds(status: i32, message: Seq<char>, e: SpeechError)
    requires
        status_error_matches(status, message, e),
    ensures
        e is NotAuthorized <==> status == -2,
        e is RecognizerUnavailable <==> status == -3,
        e is AudioLoadFailed <==> status == -4,
        e is RecognitionFailed <==> status == -5,
        e is TimedOut <==> status == -6,
        e is InvalidArgument <==> status == -1,
        e is Unknown <==> !(-6 <= status <= -1),
        !(e is Framework),
        match e {
            SpeechError::NotAuthorized(m) => m@ == message,
            SpeechError::RecognizerUnavailable(m) => m@ == message,
            SpeechError::AudioLoadFailed(m) => m@ == message,
            SpeechError::RecognitionFailed(m) => m@ == message,
            SpeechError::TimedOut(m) => m@ == message,
            SpeechError::InvalidArgument(m) => m@ == message,
            SpeechError::Unknown { code, message: m } => code == status && m@ == message,
            SpeechError::Framework(_) => false,
        },
{
}

/// The display text of each error: a fixed prefix naming the kind, then the
/// message; a framework error shows `message (code) [domain]`.
pub proof fn law_error_texts(m: String, code: i32, f: SpeechFrameworkError)
    ensures
        speech_error_text(SpeechError::NotAuthorized(m)) == "speech recognition not authorized: "@ + m@,
        speech_error_text(SpeechError::RecognizerUnavailable(m)) == "recognizer unavailable: "@ + m@,
        speech_error_text(SpeechError::AudioLoadFailed(m)) == "audio load failed: "@ + m@,
        speech_error_text(SpeechError::RecognitionFailed(m)) == "recognition failed: "@ + m@,
        speech_error_text(SpeechError::TimedOut(m)) == "timed out: "@ + m@,
        speech_error_text(SpeechError::InvalidArgument(m)) == "invalid argument: "@ + m@,
        speech_error_text(SpeechError::Unknown { code, message: m }) == "speech error "@
            + decimal_text(code as int) + ": "@ + m@,
        speech_error_text(SpeechError::Framework(f)) == "speech framework error: "@ + f.message@
            + " ("@ + decimal_text(f.code as int) + ") ["@ + f.domain@ + "]"@,
{
}

} // verus!
