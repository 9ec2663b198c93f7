//! Recognition requests: task hints, callback queues, request options, and
//! the plain values the bridge receives for them.

use vstd::prelude::*;
use vstd::string::StringExecFns;

use crate::custom_language_model::{copy_strings, strings_model, strs_model, to_strings};
use crate::error::SpeechError;
use crate::language_model::{
    copy_opt_string, opt_string_model, LanguageModelConfiguration, LanguageModelConfigurationModel,
    LanguageModelConfigurationPayload,
};

verus! {

broadcast use vstd::string::group_string_axioms;

/// The type of recognition task being performed.
#[derive(Debug, Clone, Copy, Default, PartialEq, Eq, Hash, Structural)]
pub enum TaskHint {
    #[default]
    Unspecified,
    Dictation,
    Search,
    Confirmation,
}

/// The raw framework value of a task hint.
pub open spec fn task_hint_raw(hint: TaskHint) -> i32 {
    match hint {
        TaskHint::Unspecified => 0,
        TaskHint::Dictation => 1,
        TaskHint::Search => 2,
        TaskHint::Confirmation => 3,
    }
}

/// The task hint a raw framework value denotes; unknown values are
/// `Unspecified`.
pub open spec fn task_hint_of(raw: i32) -> TaskHint {
    if raw == 1 {
        TaskHint::Dictation
    } else if raw == 2 {
        TaskHint::Search
    } else if raw == 3 {
        TaskHint::Confirmation
    } else {
        TaskHint::Unspecified
    }
}

impl TaskHint {
    pub fn as_raw(self) -> (r: i32)
        ensures
            r == task_hint_raw(self),
    {
        match self {
            TaskHint::Unspecified => 0,
            TaskHint::Dictation => 1,
            TaskHint::Search => 2,
            TaskHint::Confirmation => 3,
        }
    }

    pub fn from_raw(raw: i32) -> (r: Self)
        ensures
            r == task_hint_of(raw),
    {
        match raw {
            1 => TaskHint::Dictation,
            2 => TaskHint::Search,
            3 => TaskHint::Confirmation,
            _ => TaskHint::Unspecified,
        }
    }
}

/// Controls which `NSOperationQueue` Apple's callbacks run on.
#[derive(Debug, Clone, PartialEq, Eq)]
pub enum CallbackQueue {
    Main,
    Background { name: Option<String>, max_concurrent_operation_count: Option<usize> },
}

impl CallbackQueue {
    /// An unnamed background queue; the bridge runs it serially.
    pub fn background() -> (r: Self)
        ensures
            r matches CallbackQueue::Background { name, max_concurrent_operation_count } && name
                is None && max_concurrent_operation_count is None,
    {
        CallbackQueue::Background { name: None, max_concurrent_operation_count: None }
    }

    /// A named background queue; the bridge runs it serially.
    pub fn named(name: &str) -> (r: Self)
        ensures
            r matches CallbackQueue::Background { name: n, max_concurrent_operation_count }
                && opt_string_model(n) == Some(name@) && max_concurrent_operation_count is None,
    {
        CallbackQueue::Background { name: Some(name.to_owned()), max_concurrent_operation_count: None }
    }

    /// A background queue with the given concurrency, keeping the name of a
    /// background queue; the main queue becomes an unnamed background queue.
    pub fn with_max_concurrent_operations(self, max_concurrent_operation_count: usize) -> (r: Self)
        ensures
            r == (match self {
                CallbackQueue::Main => CallbackQueue::Background {
                    name: None,
                    max_concurrent_operation_count: Some(max_concurrent_operation_count),
                },
                CallbackQueue::Background { name, .. } => CallbackQueue::Background {
                    name,
                    max_concurrent_operation_count: Some(max_concurrent_operation_count),
                },
            }),
    {
        match self {
            CallbackQueue::Main => CallbackQueue::Background {
                name: None,
                max_concurrent_operation_count: Some(max_concurrent_operation_count),
            },
            CallbackQueue::Background { name, .. } => CallbackQueue::Background {
                name,
                max_concurrent_operation_count: Some(max_concurrent_operation_count),
            },
        }
    }
}

impl Default for CallbackQueue {
    /// Each recognition gets its own serial background queue by default.
    fn default() -> (r: Self)
        ensures
            r matches CallbackQueue::Background { name, max_concurrent_operation_count } && name
                is None && max_concurrent_operation_count is None,
    {
        CallbackQueue::background()
    }
}

/// The plain values the bridge receives for a callback queue.
#[derive(Debug, Clone, PartialEq, Eq)]
pub struct QueuePayload {
    pub kind: String,
    pub name: Option<String>,
    pub max_concurrent_operation_count: Option<usize>,
}

/// The payload describes `queue`: its kind (`main` or `background`), name and
/// concurrency.
pub open spec fn queue_payload_matches(queue: CallbackQueue, p: QueuePayload) -> bool {
    match queue {
        CallbackQueue::Main => p.kind@ == "main"@ && p.name is None
            && p.max_concurrent_operation_count is None,
        CallbackQueue::Background { name, max_concurrent_operation_count } => p.kind@
            == "background"@ && opt_string_model(p.name) == opt_string_model(name)
            && p.max_concurrent_operation_count == max_concurrent_operation_count,
    }
}

/// The queue can run no callback at all.
pub open spec fn queue_has_zero_concurrency(queue: CallbackQueue) -> bool {
    queue matches CallbackQueue::Background { max_concurrent_operation_count, .. }
        && max_concurrent_operation_count == Some(0usize)
}

impl QueuePayload {
    /// The payload for `queue`. A background queue that allows no concurrent
    /// operation could never run a callback, so it is rejected.
    pub fn from_queue(queue: &CallbackQueue) -> (r: Result<Self, SpeechError>)
        ensures
            match r {
                Ok(p) => !queue_has_zero_concurrency(*queue) && queue_payload_matches(*queue, p),
                Err(e) => queue_has_zero_concurrency(*queue) && (e matches SpeechError::InvalidArgument(
                    m,
                ) && m@ == "callback queue must allow at least one concurrent operation"@),
            },
    {
        match queue {
            CallbackQueue::Main => Ok(
                QueuePayload {
                    kind: "main".to_owned(),
                    name: None,
                    max_concurrent_operation_count: None,
                },
            ),
            CallbackQueue::Background { name, max_concurrent_operation_count } => {
                if let Some(count) = max_concurrent_operation_count {
                    if *count == 0 {
                        return Err(
                            SpeechError::InvalidArgument(
                                "callback queue must allow at least one concurrent operation".to_owned(),
                            ),
                        );
                    }
                }
                Ok(
                    QueuePayload {
                        kind: "background".to_owned(),
                        name: copy_opt_string(name),
                        max_concurrent_operation_count: *max_concurrent_operation_count,
                    },
                )
            },
        }
    }
}

/// The abstract value of an optional language model configuration.
pub open spec fn opt_language_model(c: Option<LanguageModelConfiguration>) -> Option<
    LanguageModelConfigurationModel,
> {
    match c {
        Some(v) => Some(v@),
        None => None,
    }
}

/// Abstract value of [`RecognitionRequestOptions`].
pub struct RequestOptionsModel {
    pub task_hint: Option<TaskHint>,
    pub should_report_partial_results: Option<bool>,
    pub contextual_strings: Seq<Seq<char>>,
    pub interaction_identifier: Option<Seq<char>>,
    pub requires_on_device_recognition: bool,
    pub adds_punctuation: Option<bool>,
    pub customized_language_model: Option<LanguageModelConfigurationModel>,
}

/// The default options: nothing set except that recognition stays on the
/// device.
pub open spec fn default_request_options() -> RequestOptionsModel {
    RequestOptionsModel {
        task_hint: None,
        should_report_partial_results: None,
        contextual_strings: Seq::empty(),
        interaction_identifier: None,
        requires_on_device_recognition: true,
        adds_punctuation: None,
        customized_language_model: None,
    }
}

/// Configuration shared by URL and audio-buffer recognition requests.
#[derive(Debug, Clone, PartialEq)]
pub struct RecognitionRequestOptions {
    task_hint: Option<TaskHint>,
    should_report_partial_results: Option<bool>,
    contextual_strings: Vec<String>,
    interaction_identifier: Option<String>,
    requires_on_device_recognition: bool,
    adds_punctuation: Option<bool>,
    customized_language_model: Option<LanguageModelConfiguration>,
}

impl View for RecognitionRequestOptions {
    type V = RequestOptionsModel;

    closed spec fn view(&self) -> RequestOptionsModel {
        RequestOptionsModel {
            task_hint: self.task_hint,
            should_report_partial_results: self.should_report_partial_results,
            contextual_strings: strings_model(self.contextual_strings@),
            interaction_identifier: opt_string_model(self.interaction_identifier),
            requires_on_device_recognition: self.requires_on_device_recognition,
            adds_punctuation: self.adds_punctuation,
            customized_language_model: opt_language_model(self.customized_language_model),
        }
    }
}

impl Default for RecognitionRequestOptions {
    fn default() -> (r: Self)
        ensures
            r@ == default_request_options(),
    {
        RecognitionRequestOptions::new()
    }
}

impl RecognitionRequestOptions {
    pub fn new() -> (r: Self)
        ensures
            r@ == default_request_options(),
    {
        let r = RecognitionRequestOptions {
            task_hint: None,
            should_report_partial_results: None,
            contextual_strings: Vec::new(),
            interaction_identifier: None,
            requires_on_device_recognition: true,
            adds_punctuation: None,
            customized_language_model: None,
        };
        assert(r@.contextual_strings =~= Seq::<Seq<char>>::empty());
        r
    }

    pub fn task_hint(&self) -> (r: Option<TaskHint>)
        ensures
            r == self@.task_hint,
    {
        self.task_hint
    }

    pub fn with_task_hint(self, task_hint: TaskHint) -> (r: Self)
        ensures
            r@ == (RequestOptionsModel { task_hint: Some(task_hint), ..self@ }),
    {
        let mut options = self;
        options.set_task_hint(task_hint);
        options
    }

    pub fn set_task_hint(&mut self, task_hint: TaskHint)
        ensures
            final(self)@ == (RequestOptionsModel { task_hint: Some(task_hint), ..old(self)@ }),
    {
        self.task_hint = Some(task_hint);
    }

    pub fn should_report_partial_results(&self) -> (r: Option<bool>)
        ensures
            r == self@.should_report_partial_results,
    {
        self.should_report_partial_results
    }

    pub fn with_should_report_partial_results(self, should_report_partial_results: bool) -> (r: Self)
        ensures
            r@ == (RequestOptionsModel {
                should_report_partial_results: Some(should_report_partial_results),
                ..self@
            }),
    {
        let mut options = self;
        options.set_should_report_partial_results(should_report_partial_results);
        options
    }

    pub fn set_should_report_partial_results(&mut self, should_report_partial_results: bool)
        ensures
            final(self)@ == (RequestOptionsModel {
                should_report_partial_results: Some(should_report_partial_results),
                ..old(self)@
            }),
    {
        self.should_report_partial_results = Some(should_report_partial_results);
    }

    pub fn contextual_strings(&self) -> (r: &[String])
        ensures
            strings_model(r@) == self@.contextual_strings,
    {
        self.contextual_strings.as_slice()
    }

    pub fn with_contextual_strings(self, contextual_strings: &[&str]) -> (r: Self)
        ensures
            r@ == (RequestOptionsModel {
                contextual_strings: strs_model(contextual_strings@),
                ..self@
            }),
    {
        let mut options = self;
        options.set_contextual_strings(contextual_strings);
        options
    }

    pub fn set_contextual_strings(&mut self, contextual_strings: &[&str])
        ensures
            final(self)@ == (RequestOptionsModel {
                contextual_strings: strs_model(contextual_strings@),
                ..old(self)@
            }),
    {
        self.contextual_strings = to_strings(contextual_strings);
    }

    pub fn interaction_identifier(&self) -> (r: Option<&str>)
        ensures
            match r {
                Some(v) => self@.interaction_identifier == Some(v@),
                None => self@.interaction_identifier is None,
            },
    {
        match &self.interaction_identifier {
            Some(v) => Some(v.as_str()),
            None => None,
        }
    }

    pub fn with_interaction_identifier(self, interaction_identifier: &str) -> (r: Self)
        ensures
            r@ == (RequestOptionsModel {
                interaction_identifier: Some(interaction_identifier@),
                ..self@
            }),
    {
        let mut options = self;
        options.set_interaction_identifier(interaction_identifier);
        options
    }

    pub fn set_interaction_identifier(&mut self, interaction_identifier: &str)
        ensures
            final(self)@ == (RequestOptionsModel {
                interaction_identifier: Some(interaction_identifier@),
                ..old(self)@
            }),
    {
        self.interaction_identifier = Some(interaction_identifier.to_owned());
    }

    pub fn requires_on_device_recognition(&self) -> (r: bool)
        ensures
            r == self@.requires_on_device_recognition,
    {
        self.requires_on_device_recognition
    }

    pub fn with_requires_on_device_recognition(self, requires_on_device_recognition: bool) -> (r:
        Self)
        ensures
            r@ == (RequestOptionsModel { requires_on_device_recognition, ..self@ }),
    {
        let mut options = self;
        options.set_requires_on_device_recognition(requires_on_device_recognition);
        options
    }

    pub fn set_requires_on_device_recognition(&mut self, requires_on_device_recognition: bool)
        ensures
            final(self)@ == (RequestOptionsModel { requires_on_device_recognition, ..old(self)@ }),
    {
        self.requires_on_device_recognition = requires_on_device_recognition;
    }

    pub fn adds_punctuation(&self) -> (r: Option<bool>)
        ensures
            r == self@.adds_punctuation,
    {
        self.adds_punctuation
    }

    pub fn with_adds_punctuation(self, adds_punctuation: bool) -> (r: Self)
        ensures
            r@ == (RequestOptionsModel { adds_punctuation: Some(adds_punctuation), ..self@ }),
    {
        let mut options = self;
        options.set_adds_punctuation(adds_punctuation);
        options
    }

    pub fn set_adds_punctuation(&mut self, adds_punctuation: bool)
        ensures
            final(self)@ == (RequestOptionsModel {
                adds_punctuation: Some(adds_punctuation),
                ..old(self)@
            }),
    {
        self.adds_punctuation = Some(adds_punctuation);
    }

    pub fn customized_language_model(&self) -> (r: Option<&LanguageModelConfiguration>)
        ensures
            match r {
                Some(c) => self@.customized_language_model == Some(c@),
                None => self@.customized_language_model is None,
            },
    {
        match &self.customized_language_model {
            Some(c) => Some(c),
            None => None,
        }
    }

    pub fn with_customized_language_model(
        self,
        customized_language_model: LanguageModelConfiguration,
    ) -> (r: Self)
        ensures
            r@ == (RequestOptionsModel {
                customized_language_model: Some(customized_language_model@),
                ..self@
            }),
    {
        let mut options = self;
        options.set_customized_language_model(customized_language_model);
        options
    }

    pub fn set_customized_language_model(
        &mut self,
        customized_language_model: LanguageModelConfiguration,
    )
        ensures
            final(self)@ == (RequestOptionsModel {
                customized_language_model: Some(customized_language_model@),
                ..old(self)@
            }),
    {
        self.customized_language_model = Some(customized_language_model);
    }

    /// An independent copy of these options.
    pub fn copy(&self) -> (r: Self)
        ensures
            r@ == self@,
    {
        RecognitionRequestOptions {
            task_hint: self.task_hint,
            should_report_partial_results: self.should_report_partial_results,
            contextual_strings: copy_strings(&self.contextual_strings),
            interaction_identifier: copy_opt_string(&self.interaction_identifier),
            requires_on_device_recognition: self.requires_on_device_recognition,
            adds_punctuation: self.adds_punctuation,
            customized_language_model: match &self.customized_language_model {
                Some(c) => Some(c.copy()),
                None => None,
            },
        }
    }
}

/// The plain values the bridge receives for request options.
#[derive(Debug, Clone, PartialEq, Eq)]
pub struct RequestPayload {
    pub task_hint: Option<i32>,
    pub should_report_partial_results: Option<bool>,
    pub contextual_strings: Option<Vec<String>>,
    pub interaction_identifier: Option<String>,
    pub requires_on_device_recognition: bool,
    pub adds_punctuation: Option<bool>,
    pub customized_language_model: Option<LanguageModelConfigurationPayload>,
}

/// The payload carries `options`: the task hint as its raw value, contextual
/// strings only when there are some, and the on-device requirement always.
pub open spec fn request_payload_matches(options: RequestOptionsModel, p: RequestPayload) -> bool {
    &&& p.task_hint == (match options.task_hint {
        Some(h) => Some(task_hint_raw(h)),
        None => None,
    })
    &&& p.should_report_partial_results == options.should_report_partial_results
    &&& (match p.contextual_strings {
        Some(v) => options.contextual_strings.len() > 0 && strings_model(v@)
            == options.contextual_strings,
        None => options.contextual_strings.len() == 0,
    })
    &&& opt_string_model(p.interaction_identifier) == options.interaction_identifier
    &&& p.requires_on_device_recognition == options.requires_on_device_recognition
    &&& p.adds_punctuation == options.adds_punctuation
    &&& (match p.customized_language_model {
        Some(c) => options.customized_language_model == Some(c@),
        None => options.customized_language_model is None,
    })
}

impl RequestPayload {
    /// The payload for `options`.
    pub fn from_options(options: &RecognitionRequestOptions) -> (r: Self)
        ensures
            request_payload_matches(options@, r),
    {
        RequestPayload {
            task_hint: match options.task_hint {
                Some(h) => Some(h.as_raw()),
                None => None,
            },
            should_report_partial_results: options.should_report_partial_results,
            contextual_strings: if options.contextual_strings.len() == 0 {
                None
            } else {
                Some(copy_strings(&options.contextual_strings))
            },
            interaction_identifier: copy_opt_string(&options.interaction_identifier),
            requires_on_device_recognition: options.requires_on_device_recognition,
            adds_punctuation: options.adds_punctuation,
            customized_language_model: match &options.customized_language_model {
                Some(c) => Some(c.to_payload()),
                None => None,
            },
        }
    }
}

/// A file-backed speech recognition request.
#[derive(Debug, Clone, PartialEq)]
pub struct UrlRecognitionRequest {
    path: String,
    options: RecognitionRequestOptions,
}

impl UrlRecognitionRequest {
    /// The path of the audio file.
    pub closed spec fn path_spec(&self) -> Seq<char> {
        self.path@
    }

    /// The request options.
    pub closed spec fn options_spec(&self) -> RecognitionRequestOptions {
        self.options
    }

    pub fn new(path: &str) -> (r: Self)
        ensures
            r.path_spec() == path@,
            r.options_spec()@ == default_request_options(),
    {
        UrlRecognitionRequest { path: path.to_owned(), options: RecognitionRequestOptions::new() }
    }

    pub fn path(&self) -> (r: &str)
        ensures
            r@ == self.path_spec(),
    {
        self.path.as_str()
    }

    pub fn url(&self) -> (r: &str)
        ensures
            r@ == self.path_spec(),
    {
        self.path.as_str()
    }

    pub fn options(&self) -> (r: &RecognitionRequestOptions)
        ensures
            *r == self.options_spec(),
    {
        &self.options
    }

    pub fn options_mut(&mut self) -> (r: &mut RecognitionRequestOptions)
        ensures
            *r == old(self).options_spec(),
            final(self).options_spec() == *final(r),
            final(self).path_spec() == old(self).path_spec(),
    {
        &mut self.options
    }

    pub fn with_options(self, options: RecognitionRequestOptions) -> (r: Self)
        ensures
            r.path_spec() == self.path_spec(),
            r.options_spec() == options,
    {
        UrlRecognitionRequest { path: self.path, options }
    }
}

/// A live or manually-fed audio-buffer recognition request.
#[derive(Debug, Clone, PartialEq)]
pub struct AudioBufferRecognitionRequest {
    options: RecognitionRequestOptions,
}

impl Default for AudioBufferRecognitionRequest {
    fn default() -> (r: Self)
        ensures
            r.options_spec()@ == default_request_options(),
    {
        AudioBufferRecognitionRequest::new()
    }
}

impl AudioBufferRecognitionRequest {
    /// The request options.
    pub closed spec fn options_spec(&self) -> RecognitionRequestOptions {
        self.options
    }

    pub fn new() -> (r: Self)
        ensures
            r.options_spec()@ == default_request_options(),
    {
        AudioBufferRecognitionRequest { options: RecognitionRequestOptions::new() }
    }

    pub fn options(&self) -> (r: &RecognitionRequestOptions)
        ensures
            *r == self.options_spec(),
    {
        &self.options
    }

    pub fn options_mut(&mut self) -> (r: &mut RecognitionRequestOptions)
        ensures
            *r == old(self).options_spec(),
            final(self).options_spec() == *final(r),
    {
        &mut self.options
    }

    pub fn with_options(self, options: RecognitionRequestOptions) -> (r: Self)
        ensures
            r.options_spec() == options,
    {
        AudioBufferRecognitionRequest { options }
    }
}

/// The PCM sample format represented by an `AVAudioFormat`.
#[derive(Debug, Clone, Copy, PartialEq, Eq, Hash, Structural)]
pub enum AudioCommonFormat {
    Other,
    Float32,
    Float64,
    Int16,
    Int32,
    Unknown(i32),
}

/// The sample format a raw framework value denotes.
pub open spec fn audio_common_format_of(raw: i32) -> AudioCommonFormat {
    if raw == 0 {
        AudioCommonFormat::Other
    } else if raw == 1 {
        AudioCommonFormat::Float32
    } else if raw == 2 {
        AudioCommonFormat::Float64
    } else if raw == 3 {
        AudioCommonFormat::Int16
    } else if raw == 4 {
        AudioCommonFormat::Int32
    } else {
        AudioCommonFormat::Unknown(raw)
    }
}

impl AudioCommonFormat {
    pub fn from_raw(raw: i32) -> (r: Self)
        ensures
            r == audio_common_format_of(raw),
    {
        match raw {
            0 => AudioCommonFormat::Other,
            1 => AudioCommonFormat::Float32,
            2 => AudioCommonFormat::Float64,
            3 => AudioCommonFormat::Int16,
            4 => AudioCommonFormat::Int32,
            other => AudioCommonFormat::Unknown(other),
        }
    }
}

} // verus!

verus! {

/// A task hint survives the trip through its raw value.
pub proof fn law_task_hint_round_trip(hint: TaskHint)
    ensures
        task_hint_of(task_hint_raw(hint)) == hint,
{
}

/// Recognition is on-device unless the caller opts out: the payload of
/// default options requires on-device recognition, and sets no task hint and
/// no contextual strings.
pub proof fn law_default_payload_requires_on_device(p: RequestPayload)
    requires
        request_payload_matches(default_request_options(), p),
    ensures
        p.requires_on_device_recognition,
        p.task_hint is None,
        p.contextual_strings is None,
{
}

} // verus!

verus! {

/// The raw values of task hints are the framework's
/// (`SFSpeechRecognitionTaskHint`): unspecified 0, dictation 1, search 2,
/// confirmation 3; every other raw value reads as unspecified.
pub proof fn law_task_hint_raw_values(raw: i32)
    ensures
        task_hint_raw(TaskHint::Unspecified) == 0,
        task_hint_raw(TaskHint::Dictation) == 1,
        task_hint_raw(TaskHint::Search) == 2,
        task_hint_raw(TaskHint::Confirmation) == 3,
        task_hint_of(raw) == TaskHint::Dictation <==> raw == 1,
        task_hint_of(raw) == TaskHint::Search <==> raw == 2,
        task_hint_of(raw) == TaskHint::Confirmation <==> raw == 3,
{
}

/// The raw values of sample formats are the framework's
/// (`AVAudioCommonFormat`): other 0, float32 1, float64 2, int16 3, int32 4;
/// any other raw value is kept as unknown.
pub proof fn law_audio_common_format_raw_values(raw: i32)
    ensures
        audio_common_format_of(raw) == (if raw == 0 {
            AudioCommonFormat::Other
        } else if raw == 1 {
            AudioCommonFormat::Float32
        } else if raw == 2 {
            AudioCommonFormat::Float64
        } else if raw == 3 {
            AudioCommonFormat::Int16
        } else if raw == 4 {
            AudioCommonFormat::Int32
        } else {
            AudioCommonFormat::Unknown(raw)
        }),
        0 <= raw <= 4 <==> !(audio_common_format_of(raw) is Unknown),
{
}

} // verus!

verus! {

/// The bridge receives the main queue as kind `main` with nothing else, and
/// a background queue as kind `background` with its name and concurrency.
pub proof fn law_queue_payload_kinds(queue: CallbackQueue, p: QueuePayload)
    requires
        queue_payload_matches(queue, p),
    ensures
        match queue {
            CallbackQueue::Main => p.kind@ == "main"@ && p.name is None
                && p.max_concurrent_operation_count is None,
            CallbackQueue::Background { name, max_concurrent_operation_count } => {
                &&& p.kind@ == "background"@
                &&& p.max_concurrent_operation_count == max_concurrent_operation_count
                &&& match name {
                    Some(n) => p.name is Some && p.name->0@ == n@,
                    None => p.name is None,
                }
            },
        },
{
}

} // verus!
