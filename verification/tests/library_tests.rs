use speech::argument::c_string_argument;
use speech::asset_inventory::AssetInventoryStatus;
use speech::custom_language_model::{
    CompoundTemplate, DataInsertableBuilder, DataInsertableItem, PhraseCount,
    PhraseCountGenerator, PhraseCountsFromTemplates, SFCustomLanguageModelData, TemplateClasses,
    TemplateInsertableBuilder, TemplatePhraseCountGenerator, TemplatePhraseCountGeneratorIterator,
    TemplatePhraseCountGeneratorTemplate,
};
use speech::dictation::{
    DictationContentHint, DictationContentHintPayload, DictationPayload, DictationPreset,
    DictationReportingOption, DictationResultAttributeOption, DictationTranscriber,
    DictationTranscriberOptions, DictationTranscriptionOption,
};
use speech::error::{
    error_from_status, AuthorizationStatus, SpeechError, SpeechFrameworkError,
    SpeechFrameworkErrorCode, SPEECH_ERROR_DOMAIN, STATUS_AUDIO_LOAD_FAILED,
    STATUS_INVALID_ARGUMENT, STATUS_NOT_AUTHORIZED, STATUS_OK, STATUS_RECOGNITION_FAILED,
    STATUS_RECOGNIZER_UNAVAILABLE, STATUS_TIMED_OUT, STATUS_UNKNOWN,
};
use speech::language_model::LanguageModelConfiguration;
use speech::live::LiveUpdate;
use speech::recognizer::SpeechRecognizer;
use speech::reply::{check_status, decode_string_list_reply, parse_string_list, string_list_from_parse};
use speech::request::{
    AudioBufferRecognitionRequest, AudioCommonFormat, CallbackQueue, QueuePayload,
    RecognitionRequestOptions, RequestPayload, TaskHint, UrlRecognitionRequest,
};
use speech::transcription::TextRange;

fn expand(generator: &TemplatePhraseCountGenerator) -> Vec<PhraseCount> {
    let mut it: TemplatePhraseCountGeneratorIterator = generator.iter();
    let mut out = Vec::new();
    while let Some(p) = it.next() {
        out.push(p);
    }
    out
}

#[test]
fn authorization_status_maps_raw_values() {
    assert_eq!(AuthorizationStatus::from_raw(0), AuthorizationStatus::NotDetermined);
    assert_eq!(AuthorizationStatus::from_raw(1), AuthorizationStatus::Denied);
    assert_eq!(AuthorizationStatus::from_raw(2), AuthorizationStatus::Restricted);
    assert_eq!(AuthorizationStatus::from_raw(3), AuthorizationStatus::Authorized);
    assert_eq!(AuthorizationStatus::from_raw(4), AuthorizationStatus::Unknown);
    assert_eq!(AuthorizationStatus::from_raw(-1), AuthorizationStatus::Unknown);
    assert!(AuthorizationStatus::from_raw(3).is_authorized());
    assert!(!AuthorizationStatus::from_raw(1).is_authorized());
    assert!(!AuthorizationStatus::Unknown.is_authorized());
}

#[test]
fn framework_error_codes_outside_the_domain_are_unknown() {
    assert_eq!(
        SpeechFrameworkErrorCode::from_domain_and_code("NSCocoaErrorDomain", 1),
        SpeechFrameworkErrorCode::Unknown(1)
    );
    assert_eq!(
        SpeechFrameworkErrorCode::from_domain_code_and_message("NSOSStatusErrorDomain", 2, "disordered"),
        SpeechFrameworkErrorCode::Unknown(2)
    );
}

#[test]
fn framework_error_codes_in_the_domain() {
    let d = SPEECH_ERROR_DOMAIN;
    assert_eq!(SPEECH_ERROR_DOMAIN, "SFSpeechErrorDomain");
    assert_eq!(SpeechFrameworkErrorCode::from_domain_and_code(d, 1), SpeechFrameworkErrorCode::InternalServiceError);
    assert_eq!(SpeechFrameworkErrorCode::from_domain_and_code(d, 2), SpeechFrameworkErrorCode::AudioReadFailed);
    assert_eq!(SpeechFrameworkErrorCode::from_domain_and_code(d, 4), SpeechFrameworkErrorCode::NoModel);
    assert_eq!(SpeechFrameworkErrorCode::from_domain_and_code(d, 5), SpeechFrameworkErrorCode::IncompatibleAudioFormats);
    assert_eq!(SpeechFrameworkErrorCode::from_domain_and_code(d, 6), SpeechFrameworkErrorCode::Unknown(6));
    assert_eq!(SpeechFrameworkErrorCode::from_domain_and_code(d, 7), SpeechFrameworkErrorCode::UndefinedTemplateClassName);
    assert_eq!(SpeechFrameworkErrorCode::from_domain_and_code(d, 8), SpeechFrameworkErrorCode::MalformedSupplementalModel);
    assert_eq!(SpeechFrameworkErrorCode::from_domain_and_code(d, 9), SpeechFrameworkErrorCode::ModuleOutputFailed);
    assert_eq!(SpeechFrameworkErrorCode::from_domain_and_code(d, 10), SpeechFrameworkErrorCode::AssetLocaleNotAllocated);
    assert_eq!(SpeechFrameworkErrorCode::from_domain_and_code(d, 11), SpeechFrameworkErrorCode::TooManyAssetLocalesAllocated);
    assert_eq!(SpeechFrameworkErrorCode::from_domain_and_code(d, 12), SpeechFrameworkErrorCode::Timeout);
    assert_eq!(SpeechFrameworkErrorCode::from_domain_and_code(d, 13), SpeechFrameworkErrorCode::MissingParameter);
    assert_eq!(SpeechFrameworkErrorCode::from_domain_and_code(d, 14), SpeechFrameworkErrorCode::Unknown(14));
    assert_eq!(SpeechFrameworkErrorCode::from_domain_and_code(d, 15), SpeechFrameworkErrorCode::CannotAllocateUnsupportedLocale);
    assert_eq!(SpeechFrameworkErrorCode::from_domain_and_code(d, -7), SpeechFrameworkErrorCode::Unknown(-7));
}

#[test]
fn disordered_audio_is_recognized_in_any_ascii_case() {
    let d = SPEECH_ERROR_DOMAIN;
    assert_eq!(
        SpeechFrameworkErrorCode::from_domain_code_and_message(d, 2, "Frames arrived OUT OF ORDER"),
        SpeechFrameworkErrorCode::AudioDisordered
    );
    assert_eq!(
        SpeechFrameworkErrorCode::from_domain_code_and_message(d, 2, "DisOrdered input"),
        SpeechFrameworkErrorCode::AudioDisordered
    );
    assert_eq!(
        SpeechFrameworkErrorCode::from_domain_code_and_message(d, 2, "could not read the file"),
        SpeechFrameworkErrorCode::AudioReadFailed
    );
    assert_eq!(
        SpeechFrameworkErrorCode::from_domain_code_and_message(d, 2, "out-of-order"),
        SpeechFrameworkErrorCode::AudioReadFailed
    );
    assert_eq!(
        SpeechFrameworkErrorCode::from_domain_code_and_message(d, 3, "disordered"),
        SpeechFrameworkErrorCode::UnexpectedAudioFormat
    );
}

#[test]
fn error_texts() {
    assert_eq!(
        SpeechError::NotAuthorized("denied".to_string()).to_string(),
        "speech recognition not authorized: denied"
    );
    assert_eq!(SpeechError::RecognizerUnavailable("x".to_string()).to_string(), "recognizer unavailable: x");
    assert_eq!(SpeechError::AudioLoadFailed("x".to_string()).to_string(), "audio load failed: x");
    assert_eq!(SpeechError::RecognitionFailed("x".to_string()).to_string(), "recognition failed: x");
    assert_eq!(SpeechError::TimedOut("x".to_string()).to_string(), "timed out: x");
    assert_eq!(SpeechError::InvalidArgument("x".to_string()).to_string(), "invalid argument: x");
    assert_eq!(
        SpeechError::Unknown { code: -99, message: "boom".to_string() }.to_string(),
        "speech error -99: boom"
    );
    assert_eq!(
        SpeechError::Unknown { code: i32::MIN, message: String::new() }.to_string(),
        "speech error -2147483648: "
    );
    let framework = SpeechFrameworkError {
        domain: SPEECH_ERROR_DOMAIN.to_string(),
        code: 1203,
        message: "no model".to_string(),
        kind: SpeechFrameworkErrorCode::Unknown(1203),
    };
    assert_eq!(framework.to_string(), "no model (1203) [SFSpeechErrorDomain]");
    let wrapped = SpeechError::Framework(framework.clone());
    assert_eq!(
        wrapped.to_string(),
        "speech framework error: no model (1203) [SFSpeechErrorDomain]"
    );
    assert_eq!(wrapped.source(), Some(&framework));
    assert_eq!(SpeechError::TimedOut("x".to_string()).source(), None);
    let negative = SpeechFrameworkError {
        domain: "D".to_string(),
        code: i64::MIN,
        message: "m".to_string(),
        kind: SpeechFrameworkErrorCode::Unknown(i64::MIN),
    };
    assert_eq!(negative.to_string(), "m (-9223372036854775808) [D]");
    let zero = SpeechFrameworkError { code: 0, ..negative };
    assert_eq!(zero.to_string(), "m (0) [D]");
}

#[test]
fn bridge_statuses_map_to_errors() {
    let m = || Some("msg".to_string());
    assert_eq!(error_from_status(STATUS_NOT_AUTHORIZED, m()), SpeechError::NotAuthorized("msg".into()));
    assert_eq!(error_from_status(STATUS_RECOGNIZER_UNAVAILABLE, m()), SpeechError::RecognizerUnavailable("msg".into()));
    assert_eq!(error_from_status(STATUS_AUDIO_LOAD_FAILED, m()), SpeechError::AudioLoadFailed("msg".into()));
    assert_eq!(error_from_status(STATUS_RECOGNITION_FAILED, m()), SpeechError::RecognitionFailed("msg".into()));
    assert_eq!(error_from_status(STATUS_TIMED_OUT, m()), SpeechError::TimedOut("msg".into()));
    assert_eq!(error_from_status(STATUS_INVALID_ARGUMENT, m()), SpeechError::InvalidArgument("msg".into()));
    assert_eq!(
        error_from_status(STATUS_UNKNOWN, None),
        SpeechError::Unknown { code: -99, message: String::new() }
    );
    assert_eq!(
        error_from_status(STATUS_OK, m()),
        SpeechError::Unknown { code: 0, message: "msg".into() }
    );
    assert_eq!(check_status(STATUS_OK, m()), Ok(()));
    assert_eq!(check_status(STATUS_TIMED_OUT, None), Err(SpeechError::TimedOut(String::new())));
}

#[test]
fn string_list_replies_decode() {
    assert_eq!(
        decode_string_list_reply(STATUS_OK, Some(r#"["en-US","sv-SE"]"#.to_string()), None, "locales"),
        Ok(vec!["en-US".to_string(), "sv-SE".to_string()])
    );
    assert_eq!(
        decode_string_list_reply(STATUS_OK, Some("[]".to_string()), None, "locales"),
        Ok(Vec::new())
    );
    assert_eq!(
        decode_string_list_reply(STATUS_OK, None, None, "locales"),
        Err(SpeechError::InvalidArgument("missing JSON payload for locales".to_string()))
    );
    assert_eq!(
        decode_string_list_reply(STATUS_RECOGNIZER_UNAVAILABLE, None, Some("offline".to_string()), "locales"),
        Err(SpeechError::RecognizerUnavailable("offline".to_string()))
    );
    match decode_string_list_reply(STATUS_OK, Some("not json".to_string()), None, "locales") {
        Err(SpeechError::InvalidArgument(m)) => {
            assert!(m.starts_with("failed to parse locales JSON: "), "{m}");
            assert!(m.ends_with("; payload=not json"), "{m}");
        }
        other => panic!("unexpected: {other:?}"),
    }
    assert!(parse_string_list("[1, 2]", "numbers").is_err());
    assert_eq!(parse_string_list(r#"["a"]"#, "one"), Ok(vec!["a".to_string()]));
    assert_eq!(
        string_list_from_parse(Err("bad".to_string()), "{}", "ctx"),
        Err(SpeechError::InvalidArgument("failed to parse ctx JSON: bad; payload={}".to_string()))
    );
    assert_eq!(
        string_list_from_parse(Ok(vec!["x".to_string()]), "ignored", "ctx"),
        Ok(vec!["x".to_string()])
    );
}

#[test]
fn task_hints_round_trip() {
    for hint in [TaskHint::Unspecified, TaskHint::Dictation, TaskHint::Search, TaskHint::Confirmation] {
        assert_eq!(TaskHint::from_raw(hint.as_raw()), hint);
    }
    assert_eq!(TaskHint::Search.as_raw(), 2);
    assert_eq!(TaskHint::from_raw(42), TaskHint::Unspecified);
    assert_eq!(TaskHint::default(), TaskHint::Unspecified);
}

#[test]
fn callback_queues() {
    assert_eq!(CallbackQueue::default(), CallbackQueue::background());
    assert_eq!(
        CallbackQueue::named("speech-demo"),
        CallbackQueue::Background { name: Some("speech-demo".to_string()), max_concurrent_operation_count: None }
    );
    assert_eq!(
        CallbackQueue::named("q").with_max_concurrent_operations(4),
        CallbackQueue::Background { name: Some("q".to_string()), max_concurrent_operation_count: Some(4) }
    );
    assert_eq!(
        CallbackQueue::Main.with_max_concurrent_operations(2),
        CallbackQueue::Background { name: None, max_concurrent_operation_count: Some(2) }
    );
    let main = QueuePayload::from_queue(&CallbackQueue::Main).unwrap();
    assert_eq!(main.kind, "main");
    assert_eq!(main.name, None);
    let bg = QueuePayload::from_queue(&CallbackQueue::named("q").with_max_concurrent_operations(1)).unwrap();
    assert_eq!(bg.kind, "background");
    assert_eq!(bg.name.as_deref(), Some("q"));
    assert_eq!(bg.max_concurrent_operation_count, Some(1));
    assert_eq!(
        QueuePayload::from_queue(&CallbackQueue::background().with_max_concurrent_operations(0)),
        Err(SpeechError::InvalidArgument(
            "callback queue must allow at least one concurrent operation".to_string()
        ))
    );
}

#[test]
fn request_options_default_to_on_device_recognition() {
    let options = RecognitionRequestOptions::default();
    assert!(options.requires_on_device_recognition());
    assert_eq!(options.task_hint(), None);
    assert!(options.contextual_strings().is_empty());
    let payload = RequestPayload::from_options(&options);
    assert!(payload.requires_on_device_recognition);
    assert_eq!(payload.contextual_strings, None);
    assert_eq!(payload.task_hint, None);
    let opted_out = RecognitionRequestOptions::new().with_requires_on_device_recognition(false);
    assert!(!RequestPayload::from_options(&opted_out).requires_on_device_recognition);
}

#[test]
fn request_option_setters_and_payload() {
    let mut options = RecognitionRequestOptions::new()
        .with_task_hint(TaskHint::Dictation)
        .with_contextual_strings(&["doom fish", "speech rs"])
        .with_adds_punctuation(true)
        .with_should_report_partial_results(false)
        .with_interaction_identifier("session-1")
        .with_customized_language_model(
            LanguageModelConfiguration::new("model.bin").with_vocabulary("vocab.txt"),
        );
    assert_eq!(options.task_hint(), Some(TaskHint::Dictation));
    assert_eq!(options.contextual_strings(), &["doom fish".to_string(), "speech rs".to_string()]);
    assert_eq!(options.adds_punctuation(), Some(true));
    assert_eq!(options.should_report_partial_results(), Some(false));
    assert_eq!(options.interaction_identifier(), Some("session-1"));
    assert_eq!(options.customized_language_model().unwrap().language_model(), "model.bin");
    assert_eq!(options.customized_language_model().unwrap().vocabulary(), Some("vocab.txt"));
    assert!(options.requires_on_device_recognition());
    options.set_task_hint(TaskHint::Search);
    options.set_interaction_identifier("session-2");
    options.set_adds_punctuation(false);
    options.set_should_report_partial_results(true);
    options.set_contextual_strings(&[]);
    options.set_requires_on_device_recognition(false);
    options.set_customized_language_model(LanguageModelConfiguration::new("other.bin"));
    assert_eq!(options.task_hint(), Some(TaskHint::Search));
    assert_eq!(options.interaction_identifier(), Some("session-2"));
    let payload = RequestPayload::from_options(&options);
    assert_eq!(payload.task_hint, Some(2));
    assert_eq!(payload.contextual_strings, None);
    assert_eq!(payload.adds_punctuation, Some(false));
    assert_eq!(payload.should_report_partial_results, Some(true));
    assert_eq!(payload.interaction_identifier.as_deref(), Some("session-2"));
    assert!(!payload.requires_on_device_recognition);
    let lm = payload.customized_language_model.unwrap();
    assert_eq!(lm.language_model, "other.bin");
    assert_eq!(lm.vocabulary, None);
    let with_strings = RequestPayload::from_options(
        &RecognitionRequestOptions::new().with_contextual_strings(&["a", "b"]),
    );
    assert_eq!(with_strings.contextual_strings, Some(vec!["a".to_string(), "b".to_string()]));
}

#[test]
fn recognition_requests() {
    let mut request = UrlRecognitionRequest::new("target/utterance.aiff");
    assert_eq!(request.path(), "target/utterance.aiff");
    assert_eq!(request.url(), "target/utterance.aiff");
    assert!(request.options().requires_on_device_recognition());
    request.options_mut().set_task_hint(TaskHint::Confirmation);
    assert_eq!(request.options().task_hint(), Some(TaskHint::Confirmation));
    let request = request.with_options(RecognitionRequestOptions::new().with_adds_punctuation(true));
    assert_eq!(request.options().adds_punctuation(), Some(true));
    assert_eq!(request.options().task_hint(), None);
    assert_eq!(request.path(), "target/utterance.aiff");

    let mut buffer = AudioBufferRecognitionRequest::new();
    assert_eq!(buffer, AudioBufferRecognitionRequest::default());
    buffer.options_mut().set_should_report_partial_results(true);
    assert_eq!(buffer.options().should_report_partial_results(), Some(true));
    let buffer = buffer.with_options(RecognitionRequestOptions::new());
    assert_eq!(buffer.options().should_report_partial_results(), None);
}

#[test]
fn raw_format_and_asset_values() {
    assert_eq!(AudioCommonFormat::from_raw(0), AudioCommonFormat::Other);
    assert_eq!(AudioCommonFormat::from_raw(1), AudioCommonFormat::Float32);
    assert_eq!(AudioCommonFormat::from_raw(2), AudioCommonFormat::Float64);
    assert_eq!(AudioCommonFormat::from_raw(3), AudioCommonFormat::Int16);
    assert_eq!(AudioCommonFormat::from_raw(4), AudioCommonFormat::Int32);
    assert_eq!(AudioCommonFormat::from_raw(9), AudioCommonFormat::Unknown(9));
    assert_eq!(AssetInventoryStatus::from_raw(0), AssetInventoryStatus::Unsupported);
    assert_eq!(AssetInventoryStatus::from_raw(1), AssetInventoryStatus::Supported);
    assert_eq!(AssetInventoryStatus::from_raw(2), AssetInventoryStatus::Downloading);
    assert_eq!(AssetInventoryStatus::from_raw(3), AssetInventoryStatus::Installed);
    assert_eq!(AssetInventoryStatus::from_raw(-5), AssetInventoryStatus::Unsupported);
    assert!(AssetInventoryStatus::Supported > AssetInventoryStatus::Unsupported);
}

#[test]
fn dictation_names_and_payloads() {
    assert_eq!(DictationPreset::Phrase.as_str(), "phrase");
    assert_eq!(DictationPreset::ShortDictation.as_str(), "shortDictation");
    assert_eq!(DictationPreset::ProgressiveShortDictation.as_str(), "progressiveShortDictation");
    assert_eq!(DictationPreset::LongDictation.as_str(), "longDictation");
    assert_eq!(DictationPreset::ProgressiveLongDictation.as_str(), "progressiveLongDictation");
    assert_eq!(DictationPreset::TimeIndexedLongDictation.as_str(), "timeIndexedLongDictation");
    assert_eq!(DictationTranscriptionOption::EtiquetteReplacements.as_str(), "etiquetteReplacements");
    assert_eq!(DictationReportingOption::AlternativeTranscriptions.as_str(), "alternativeTranscriptions");
    assert_eq!(DictationResultAttributeOption::TranscriptionConfidence.as_str(), "transcriptionConfidence");

    let preset = DictationPayload::from_transcriber(&DictationTranscriber::new("en-US", DictationPreset::LongDictation));
    assert_eq!(preset.locale_identifier, "en-US");
    assert_eq!(preset.preset.as_deref(), Some("longDictation"));
    assert_eq!(preset.content_hints, None);
    assert_eq!(preset.transcription_options, None);

    let options = DictationTranscriberOptions::new()
        .with_content_hints(vec![
            DictationContentHint::FarField,
            DictationContentHint::CustomizedLanguageModel(LanguageModelConfiguration::new("lm.bin")),
        ])
        .with_reporting_options(vec![DictationReportingOption::VolatileResults]);
    assert!(options.transcription_options().is_empty());
    let custom = DictationPayload::from_transcriber(&DictationTranscriber::with_options("sv-SE", options));
    assert_eq!(custom.preset, None);
    assert_eq!(custom.locale_identifier, "sv-SE");
    let hints = custom.content_hints.unwrap();
    assert_eq!(hints[0], DictationContentHintPayload { kind: "farField".to_string(), language_model: None });
    assert_eq!(hints[1].kind, "customizedLanguage");
    assert_eq!(hints[1].language_model.as_ref().unwrap().language_model, "lm.bin");
    assert_eq!(custom.transcription_options, None);
    assert_eq!(custom.reporting_options, Some(vec!["volatileResults".to_string()]));
    assert_eq!(custom.attribute_options, None);
    assert_eq!(
        DictationContentHintPayload::from_hint(&DictationContentHint::ShortForm).kind,
        "shortForm"
    );
    assert_eq!(
        DictationContentHintPayload::from_hint(&DictationContentHint::AtypicalSpeech).kind,
        "atypicalSpeech"
    );
}

#[test]
fn templates_without_placeholders_stay_literal() {
    let mut generator = TemplatePhraseCountGenerator::new()
        .with_template("plain words", 5)
        .with_template("a < b", 1)
        .with_template("<unknown> class", 2);
    generator.define_class("greeting", &["hi"]);
    assert_eq!(
        expand(&generator),
        vec![
            PhraseCount::new("plain words", 5),
            PhraseCount::new("a < b", 1),
            PhraseCount::new("<unknown> class", 2),
        ]
    );
}

#[test]
fn templates_expand_nested_and_repeated_placeholders() {
    let mut generator = TemplatePhraseCountGenerator::new().with_template("<a> and <a>", 3);
    generator.define_class("a", &["<b>!", "z"]);
    generator.define_class("b", &["x", "y"]);
    assert_eq!(
        expand(&generator),
        vec![
            PhraseCount::new("x! and x!", 3),
            PhraseCount::new("x! and y!", 3),
            PhraseCount::new("x! and z", 3),
            PhraseCount::new("y! and x!", 3),
            PhraseCount::new("y! and y!", 3),
            PhraseCount::new("y! and z", 3),
            PhraseCount::new("z and x!", 3),
            PhraseCount::new("z and y!", 3),
            PhraseCount::new("z and z", 3),
        ]
    );
    let mut empty = TemplatePhraseCountGenerator::new().with_template("say <nothing>", 1);
    empty.define_class("nothing", &[]);
    assert!(expand(&empty).is_empty());
}

#[test]
fn template_classes_redefinition_overrides() {
    let mut classes = TemplateClasses::new();
    assert!(classes.get("c").is_none());
    classes.define_class("c", &["one"]);
    classes.define_class("d", &["two"]);
    classes.define_class("c", &["three", "four"]);
    assert_eq!(classes.get("c"), Some(&vec!["three".to_string(), "four".to_string()]));
    assert_eq!(classes.get("d"), Some(&vec!["two".to_string()]));
    let copy = classes.copy();
    assert_eq!(copy.get("c"), Some(&vec!["three".to_string(), "four".to_string()]));
    let mut generator = TemplatePhraseCountGenerator::new().with_template("<c>", 1);
    generator.define_class("c", &["old"]);
    generator.define_class("c", &["new"]);
    assert_eq!(expand(&generator), vec![PhraseCount::new("new", 1)]);
    assert_eq!(generator.templates(), &[TemplatePhraseCountGeneratorTemplate::new("<c>", 1)]);
    assert_eq!(generator.template_classes().get("c"), Some(&vec!["new".to_string()]));
}

#[test]
fn compound_templates_flatten_in_order() {
    let inner = CompoundTemplate::new(vec![
        TemplatePhraseCountGeneratorTemplate::new("b", 2),
        TemplatePhraseCountGeneratorTemplate::new("c", 3),
    ]);
    let builder = TemplateInsertableBuilder::new()
        .with(TemplatePhraseCountGeneratorTemplate::new("a", 1))
        .with(CompoundTemplate::new(vec![inner]))
        .with(TemplatePhraseCountGeneratorTemplate::new("d", 4));
    assert!(!builder.is_empty());
    assert!(TemplateInsertableBuilder::new().is_empty());
    let phrases = PhraseCountsFromTemplates::new(TemplateClasses::new(), builder);
    assert_eq!(
        phrases.expanded_phrase_counts(),
        vec![
            PhraseCount::new("a", 1),
            PhraseCount::new("b", 2),
            PhraseCount::new("c", 3),
            PhraseCount::new("d", 4),
        ]
    );
}

#[test]
fn data_builders_append_in_order() {
    let empty = DataInsertableBuilder::new();
    assert!(empty.is_empty());
    let builder = DataInsertableBuilder::new().with(empty.clone());
    assert!(builder.is_empty());
    let mut builder = builder.with(PhraseCount::new("one", 1));
    builder.push(PhraseCount::new("two", 2));
    assert!(!builder.is_empty());
    let generator = PhraseCountGenerator::new()
        .with_phrase_count(PhraseCount::new("g", 7));
    assert_eq!(generator.values(), &[PhraseCount::new("g", 7)]);
    let mut data = SFCustomLanguageModelData::new("en-US", "id", "2")
        .with_insertable(PhraseCount::new("zero", 0));
    data.insert(builder);
    data.insert(generator);
    assert_eq!(
        data.items(),
        &[
            DataInsertableItem::PhraseCount { phrase: "zero".to_string(), count: 0 },
            DataInsertableItem::PhraseCount { phrase: "one".to_string(), count: 1 },
            DataInsertableItem::PhraseCount { phrase: "two".to_string(), count: 2 },
            DataInsertableItem::PhraseCountGenerator { values: vec![PhraseCount::new("g", 7)] },
        ]
    );
    assert_eq!(data.locale_identifier(), "en-US");
}

#[test]
fn recognizer_locales() {
    assert_eq!(SpeechRecognizer::new().locale_identifier(), None);
    assert_eq!(SpeechRecognizer::default().locale_identifier(), None);
    assert_eq!(SpeechRecognizer::with_locale("sv-SE").locale_identifier(), Some("sv-SE"));
    assert_eq!(
        SpeechRecognizer::with_locale_checked("en-US").unwrap().locale_identifier(),
        Some("en-US")
    );
    assert!(SpeechRecognizer::with_locale_checked("en\0US").is_none());
}

#[test]
fn plain_values() {
    let range = TextRange { location: 3, length: 4 };
    assert_eq!(range, TextRange { location: 3, length: 4 });
    let update = LiveUpdate { transcript: "hello".to_string(), is_final: true };
    assert!(update.is_final);
    let config = LanguageModelConfiguration::new("m.bin");
    assert_eq!(config.vocabulary(), None);
    let payload = config.with_vocabulary("v.txt").to_payload();
    assert_eq!(payload.language_model, "m.bin");
    assert_eq!(payload.vocabulary.as_deref(), Some("v.txt"));
}

#[test]
fn c_string_arguments_report_the_first_nul_byte() {
    assert_eq!(c_string_argument("en-US", "locale").unwrap(), "en-US");
    assert_eq!(c_string_argument("", "locale").unwrap(), "");
    assert_eq!(
        c_string_argument("ab\0c\0", "asset path"),
        Err(SpeechError::InvalidArgument(
            "asset path contains NUL byte: nul byte found in provided data at position: 2"
                .to_string()
        ))
    );
    assert_eq!(
        c_string_argument("é\0", "locale"),
        Err(SpeechError::InvalidArgument(
            "locale contains NUL byte: nul byte found in provided data at position: 2".to_string()
        ))
    );
}

#[test]
fn asset_statuses_order_by_availability() {
    let statuses: Vec<AssetInventoryStatus> = (0..4).map(AssetInventoryStatus::from_raw).collect();
    for a in 0..4 {
        for b in 0..4 {
            assert_eq!(statuses[a] < statuses[b], a < b);
            assert_eq!(statuses[a].partial_cmp(&statuses[b]), Some(a.cmp(&b)));
            assert_eq!(statuses[a].cmp(&statuses[b]), a.cmp(&b));
        }
    }
    assert!(AssetInventoryStatus::from_raw(3) > AssetInventoryStatus::from_raw(2));
    assert_eq!(AssetInventoryStatus::Installed.rank(), 3);
}

#[test]
fn defaults_equal_new_and_clones_keep_contents() {
    assert_eq!(DataInsertableBuilder::default(), DataInsertableBuilder::new());
    assert_eq!(PhraseCountGenerator::default(), PhraseCountGenerator::new());
    assert_eq!(TemplateInsertableBuilder::default(), TemplateInsertableBuilder::new());
    assert_eq!(TemplatePhraseCountGenerator::default(), TemplatePhraseCountGenerator::new());
    assert_eq!(TemplateClasses::default(), TemplateClasses::new());

    let b = DataInsertableBuilder::new().with(PhraseCount::new("a", 1));
    let by_with = b.clone().with(PhraseCount::new("b", 2));
    let mut by_push = b.clone();
    by_push.push(PhraseCount::new("b", 2));
    assert_eq!(by_with, by_push);

    let t = TemplateInsertableBuilder::new().with(TemplatePhraseCountGeneratorTemplate::new("x", 1));
    let t_with = t.clone().with(TemplatePhraseCountGeneratorTemplate::new("y", 2));
    let mut t_push = t.clone();
    t_push.push(TemplatePhraseCountGeneratorTemplate::new("y", 2));
    assert_eq!(t_with, t_push);

    let data = SFCustomLanguageModelData::new("en-US", "id", "1");
    let spliced = data.clone().with_insertable(
        DataInsertableBuilder::new().with(PhraseCount::new("a", 1)).with(PhraseCount::new("b", 2)),
    );
    let one_by_one =
        data.clone().with_insertable(PhraseCount::new("a", 1)).with_insertable(PhraseCount::new("b", 2));
    assert_eq!(spliced, one_by_one);
    assert_eq!(data.clone(), data);
}

#[test]
fn compound_templates_expand_as_their_components() {
    let mut classes = TemplateClasses::new();
    classes.define_class("c", &["x", "y"]);
    let t1 = TemplatePhraseCountGeneratorTemplate::new("a <c>", 1);
    let t2 = TemplatePhraseCountGeneratorTemplate::new("b", 2);
    let compound = PhraseCountsFromTemplates::new(
        classes.clone(),
        TemplateInsertableBuilder::new().with(CompoundTemplate::new(vec![t1.clone(), t2.clone()])),
    );
    let separate =
        PhraseCountsFromTemplates::new(classes, TemplateInsertableBuilder::new().with(t1).with(t2));
    assert_eq!(compound.expanded_phrase_counts(), separate.expanded_phrase_counts());
    assert_eq!(
        separate.expanded_phrase_counts(),
        vec![PhraseCount::new("a x", 1), PhraseCount::new("a y", 1), PhraseCount::new("b", 2)]
    );
}

#[test]
fn transcribers_have_exactly_one_of_preset_and_options() {
    let preset = DictationTranscriber::new("en-US", DictationPreset::ShortDictation);
    assert!(preset.preset().is_some() && preset.options().is_none());
    let custom = DictationTranscriber::with_options("en-US", DictationTranscriberOptions::new());
    assert!(custom.preset().is_none() && custom.options().is_some());
    let copy = custom.clone();
    assert!(copy.preset().is_none() && copy.options().is_some());
    assert_eq!(DictationPayload::from_transcriber(&copy).preset, None);
}

#[test]
fn template_classes_compare_by_their_definitions() {
    let mut a = TemplateClasses::new();
    a.define_class("x", &["1"]);
    a.define_class("y", &["2", "3"]);
    let mut b = TemplateClasses::new();
    b.define_class("y", &["2", "3"]);
    b.define_class("x", &["0"]);
    assert_ne!(a, b);
    b.define_class("x", &["1"]);
    assert_eq!(a, b);
    assert_eq!(a.clone(), b);
    let mut c = a.clone();
    c.define_class("z", &[]);
    assert_ne!(a, c);
    let mut d = TemplateClasses::new();
    d.define_class("x", &["1"]);
    d.define_class("y", &["3", "2"]);
    assert_ne!(a, d);

    let g1 = TemplatePhraseCountGenerator::new().with_template("<x>", 1);
    let mut g2 = g1.clone();
    let mut g3 = g1.clone();
    let mut g1 = g1;
    g1.define_class("x", &["a"]);
    g1.define_class("y", &["b"]);
    g2.define_class("y", &["b"]);
    g2.define_class("x", &["a"]);
    g3.define_class("x", &["z"]);
    g3.define_class("y", &["b"]);
    g3.define_class("x", &["a"]);
    assert_eq!(g1, g2);
    assert_eq!(g1, g3);
}

#[test]
fn recognizer_clones_keep_the_locale() {
    let r = SpeechRecognizer::with_locale("sv-SE");
    assert_eq!(r.clone().locale_identifier(), Some("sv-SE"));
    assert_eq!(SpeechRecognizer::new().clone().locale_identifier(), None);
}
