use speech::asset_inventory::AssetInventoryStatus;
use speech::custom_language_model::{
    CompoundTemplate, CustomPronunciation, PhraseCount, PhraseCountGenerator,
    PhraseCountGeneratorIterator, PhraseCountsFromTemplates, SFCustomLanguageModelData,
    TemplateClasses, TemplateInsertableBuilder, TemplatePhraseCountGenerator,
    TemplatePhraseCountGeneratorIterator, TemplatePhraseCountGeneratorTemplate,
};
use speech::error::{SpeechFrameworkErrorCode, SPEECH_ERROR_DOMAIN};

fn drain(mut it: PhraseCountGeneratorIterator) -> Vec<PhraseCount> {
    let mut out = Vec::new();
    while let Some(p) = it.next() {
        out.push(p);
    }
    out
}

fn drain_templates(mut it: TemplatePhraseCountGeneratorIterator) -> Vec<PhraseCount> {
    let mut out = Vec::new();
    while let Some(p) = it.next() {
        out.push(p);
    }
    out
}

#[test]
fn analyzer_input_and_error_code_helpers_cover_macos26_surface() {
    assert_eq!(
        SpeechFrameworkErrorCode::from_domain_code_and_message(
            SPEECH_ERROR_DOMAIN,
            2,
            "audio frames arrived disordered"
        ),
        SpeechFrameworkErrorCode::AudioDisordered
    );
    assert_eq!(
        SpeechFrameworkErrorCode::from_domain_code_and_message(SPEECH_ERROR_DOMAIN, 3, ""),
        SpeechFrameworkErrorCode::UnexpectedAudioFormat
    );
    assert_eq!(
        SpeechFrameworkErrorCode::from_domain_code_and_message(SPEECH_ERROR_DOMAIN, 16, ""),
        SpeechFrameworkErrorCode::InsufficientResources
    );
}

#[test]
fn asset_inventory_and_custom_language_model_builders_work() {
    assert!(AssetInventoryStatus::Installed > AssetInventoryStatus::Downloading);

    let mut generator = PhraseCountGenerator::new();
    generator.push(PhraseCount::new("hello world", 3));
    assert_eq!(drain(generator.iter()), vec![PhraseCount::new("hello world", 3)]);

    let mut template_generator = TemplatePhraseCountGenerator::new();
    template_generator.define_class("greeting", &["hello", "hi"]);
    template_generator.insert_template("<greeting> world", 2);
    assert_eq!(
        drain_templates(template_generator.iter()),
        vec![
            PhraseCount::new("hello world", 2),
            PhraseCount::new("hi world", 2),
        ]
    );

    let template_builder = TemplateInsertableBuilder::new().with(CompoundTemplate::new(vec![
        TemplatePhraseCountGeneratorTemplate::new("<greeting> there", 1),
    ]));
    let mut classes = TemplateClasses::new();
    classes.define_class("greeting", &["hey", "hiya"]);
    let phrase_counts = PhraseCountsFromTemplates::new(classes, template_builder);
    assert_eq!(
        phrase_counts.expanded_phrase_counts(),
        vec![
            PhraseCount::new("hey there", 1),
            PhraseCount::new("hiya there", 1),
        ]
    );

    let data = SFCustomLanguageModelData::new("en-US", "demo", "1.0")
        .with_insertable(PhraseCount::new("copilot cli", 4))
        .with_insertable(CustomPronunciation::new(
            "copilot",
            &["K", "AA", "P", "AH", "L", "AH", "T"],
        ))
        .with_insertable(generator)
        .with_insertable(template_generator)
        .with_insertable(phrase_counts);

    assert_eq!(data.locale_identifier(), "en-US");
    assert_eq!(data.identifier(), "demo");
    assert_eq!(data.version(), "1.0");
}
