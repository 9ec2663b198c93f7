use speech::dictation::{
    DictationContentHint, DictationPreset, DictationReportingOption, DictationResultAttributeOption,
    DictationTranscriber, DictationTranscriberOptions, DictationTranscriptionOption,
};
use speech::language_model::LanguageModelConfiguration;

#[test]
fn dictation_transcriber_builders_preserve_configuration() {
    let preset = DictationTranscriber::new("en-US", DictationPreset::ShortDictation);
    assert_eq!(preset.locale_identifier(), "en-US");
    assert_eq!(preset.preset(), Some(DictationPreset::ShortDictation));
    assert!(preset.options().is_none());

    let options = DictationTranscriberOptions::new()
        .with_content_hints(vec![
            DictationContentHint::ShortForm,
            DictationContentHint::customized_language_model(
                LanguageModelConfiguration::new("target/dictation-language-model.bin")
                    .with_vocabulary("target/dictation-vocabulary.txt"),
            ),
        ])
        .with_transcription_options(vec![
            DictationTranscriptionOption::Punctuation,
            DictationTranscriptionOption::Emoji,
        ])
        .with_reporting_options(vec![
            DictationReportingOption::VolatileResults,
            DictationReportingOption::FrequentFinalization,
        ])
        .with_attribute_options(vec![
            DictationResultAttributeOption::AudioTimeRange,
            DictationResultAttributeOption::TranscriptionConfidence,
        ]);
    let custom = DictationTranscriber::with_options("en-GB", options.clone());
    assert_eq!(custom.locale_identifier(), "en-GB");
    assert_eq!(custom.preset(), None);
    assert_eq!(custom.options(), Some(&options));
}
