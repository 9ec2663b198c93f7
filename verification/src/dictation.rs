//! Configuration of Speech's `DictationTranscriber` and the plain values the
//! bridge receives for it.

use vstd::prelude::*;

use crate::custom_language_model::strings_model;
use crate::language_model::{LanguageModelConfiguration, LanguageModelConfigurationPayload};

verus! {

broadcast use vstd::string::group_string_axioms;

/// Predefined `DictationTranscriber` configurations.
#[derive(Debug, Clone, Copy, PartialEq, Eq, Hash, Structural)]
pub enum DictationPreset {
    Phrase,
    ShortDictation,
    ProgressiveShortDictation,
    LongDictation,
    ProgressiveLongDictation,
    TimeIndexedLongDictation,
}

/// The bridge's name of a preset.
pub open spec fn preset_name(p: DictationPreset) -> Seq<char> {
    match p {
        DictationPreset::Phrase => "phrase"@,
        DictationPreset::ShortDictation => "shortDictation"@,
        DictationPreset::ProgressiveShortDictation => "progressiveShortDictation"@,
        DictationPreset::LongDictation => "longDictation"@,
        DictationPreset::ProgressiveLongDictation => "progressiveLongDictation"@,
        DictationPreset::TimeIndexedLongDictation => "timeIndexedLongDictation"@,
    }
}

impl DictationPreset {
    pub fn as_str(self) -> (r: &'static str)
        ensures
            r@ == preset_name(self),
    {
        match self {
            DictationPreset::Phrase => "phrase",
            DictationPreset::ShortDictation => "shortDictation",
            DictationPreset::ProgressiveShortDictation => "progressiveShortDictation",
            DictationPreset::LongDictation => "longDictation",
            DictationPreset::ProgressiveLongDictation => "progressiveLongDictation",
            DictationPreset::TimeIndexedLongDictation => "timeIndexedLongDictation",
        }
    }
}

/// `DictationTranscriber.ContentHint`.
#[derive(Debug, Clone, PartialEq)]
pub enum DictationContentHint {
    ShortForm,
    FarField,
    AtypicalSpeech,
    CustomizedLanguageModel(LanguageModelConfiguration),
}

impl DictationContentHint {
    pub fn customized_language_model(configuration: LanguageModelConfiguration) -> (r: Self)
        ensures
            r == DictationContentHint::CustomizedLanguageModel(configuration),
    {
        DictationContentHint::CustomizedLanguageModel(configuration)
    }
}

/// `DictationTranscriber.TranscriptionOption`.
#[derive(Debug, Clone, Copy, PartialEq, Eq, Hash, Structural)]
pub enum DictationTranscriptionOption {
    Punctuation,
    Emoji,
    EtiquetteReplacements,
}

/// The bridge's name of a transcription option.
pub open spec fn transcription_option_name(o: DictationTranscriptionOption) -> Seq<char> {
    match o {
        DictationTranscriptionOption::Punctuation => "punctuation"@,
        DictationTranscriptionOption::Emoji => "emoji"@,
        DictationTranscriptionOption::EtiquetteReplacements => "etiquetteReplacements"@,
    }
}

impl DictationTranscriptionOption {
    pub fn as_str(self) -> (r: &'static str)
        ensures
            r@ == transcription_option_name(self),
    {
        match self {
            DictationTranscriptionOption::Punctuation => "punctuation",
            DictationTranscriptionOption::Emoji => "emoji",
            DictationTranscriptionOption::EtiquetteReplacements => "etiquetteReplacements",
        }
    }
}

/// `DictationTranscriber.ReportingOption`.
#[derive(Debug, Clone, Copy, PartialEq, Eq, Hash, Structural)]
pub enum DictationReportingOption {
    VolatileResults,
    AlternativeTranscriptions,
    FrequentFinalization,
}

/// The bridge's name of a reporting option.
pub open spec fn reporting_option_name(o: DictationReportingOption) -> Seq<char> {
    match o {
        DictationReportingOption::VolatileResults => "volatileResults"@,
        DictationReportingOption::AlternativeTranscriptions => "alternativeTranscriptions"@,
        DictationReportingOption::FrequentFinalization => "frequentFinalization"@,
    }
}

impl DictationReportingOption {
    pub fn as_str(self) -> (r: &'static str)
        ensures
            r@ == reporting_option_name(self),
    {
        match self {
            DictationReportingOption::VolatileResults => "volatileResults",
            DictationReportingOption::AlternativeTranscriptions => "alternativeTranscriptions",
            DictationReportingOption::FrequentFinalization => "frequentFinalization",
        }
    }
}

/// `DictationTranscriber.ResultAttributeOption`.
#[derive(Debug, Clone, Copy, PartialEq, Eq, Hash, Structural)]
pub enum DictationResultAttributeOption {
    AudioTimeRange,
    TranscriptionConfidence,
}

/// The bridge's name of a result attribute option.
pub open spec fn attribute_option_name(o: DictationResultAttributeOption) -> Seq<char> {
    match o {
        DictationResultAttributeOption::AudioTimeRange => "audioTimeRange"@,
        DictationResultAttributeOption::TranscriptionConfidence => "transcriptionConfidence"@,
    }
}

impl DictationResultAttributeOption {
    pub fn as_str(self) -> (r: &'static str)
        ensures
            r@ == attribute_option_name(self),
    {
        match self {
            DictationResultAttributeOption::AudioTimeRange => "audioTimeRange",
            DictationResultAttributeOption::TranscriptionConfidence => "transcriptionConfidence",
        }
    }
}

/// Explicit `DictationTranscriber` configuration.
#[derive(Debug, Clone, PartialEq)]
pub struct DictationTranscriberOptions {
    content_hints: Vec<DictationContentHint>,
    transcription_options: Vec<DictationTranscriptionOption>,
    reporting_options: Vec<DictationReportingOption>,
    attribute_options: Vec<DictationResultAttributeOption>,
}

impl Default for DictationTranscriberOptions {
    fn default() -> (r: Self)
        ensures
            r.content_hints_spec().len() == 0,
            r.transcription_options_spec().len() == 0,
            r.reporting_options_spec().len() == 0,
            r.attribute_options_spec().len() == 0,
    {
        DictationTranscriberOptions::new()
    }
}

impl DictationTranscriberOptions {
    pub closed spec fn content_hints_spec(&self) -> Seq<DictationContentHint> {
        self.content_hints@
    }

    pub closed spec fn transcription_options_spec(&self) -> Seq<DictationTranscriptionOption> {
        self.transcription_options@
    }

    pub closed spec fn reporting_options_spec(&self) -> Seq<DictationReportingOption> {
        self.reporting_options@
    }

    pub closed spec fn attribute_options_spec(&self) -> Seq<DictationResultAttributeOption> {
        self.attribute_options@
    }

    pub fn new() -> (r: Self)
        ensures
            r.content_hints_spec().len() == 0,
            r.transcription_options_spec().len() == 0,
            r.reporting_options_spec().len() == 0,
            r.attribute_options_spec().len() == 0,
    {
        DictationTranscriberOptions {
            content_hints: Vec::new(),
            transcription_options: Vec::new(),
            reporting_options: Vec::new(),
            attribute_options: Vec::new(),
        }
    }

    pub fn content_hints(&self) -> (r: &[DictationContentHint])
        ensures
            r@ == self.content_hints_spec(),
    {
        self.content_hints.as_slice()
    }

    pub fn with_content_hints(self, content_hints: Vec<DictationContentHint>) -> (r: Self)
        ensures
            r.content_hints_spec() == content_hints@,
            r.transcription_options_spec() == self.transcription_options_spec(),
            r.reporting_options_spec() == self.reporting_options_spec(),
            r.attribute_options_spec() == self.attribute_options_spec(),
    {
        let mut options = self;
        options.set_content_hints(content_hints);
        options
    }

    pub fn set_content_hints(&mut self, content_hints: Vec<DictationContentHint>)
        ensures
            final(self).content_hints_spec() == content_hints@,
            final(self).transcription_options_spec() == old(self).transcription_options_spec(),
            final(self).reporting_options_spec() == old(self).reporting_options_spec(),
            final(self).attribute_options_spec() == old(self).attribute_options_spec(),
    {
        self.content_hints = content_hints;
    }

    pub fn transcription_options(&self) -> (r: &[DictationTranscriptionOption])
        ensures
            r@ == self.transcription_options_spec(),
    {
        self.transcription_options.as_slice()
    }

    pub fn with_transcription_options(
        self,
        transcription_options: Vec<DictationTranscriptionOption>,
    ) -> (r: Self)
        ensures
            r.content_hints_spec() == self.content_hints_spec(),
            r.transcription_options_spec() == transcription_options@,
            r.reporting_options_spec() == self.reporting_options_spec(),
            r.attribute_options_spec() == self.attribute_options_spec(),
    {
        let mut options = self;
        options.set_transcription_options(transcription_options);
        options
    }

    pub fn set_transcription_options(
        &mut self,
        transcription_options: Vec<DictationTranscriptionOption>,
    )
        ensures
            final(self).content_hints_spec() == old(self).content_hints_spec(),
            final(self).transcription_options_spec() == transcription_options@,
            final(self).reporting_options_spec() == old(self).reporting_options_spec(),
            final(self).attribute_options_spec() == old(self).attribute_options_spec(),
    {
        self.transcription_options = transcription_options;
    }

    pub fn reporting_options(&self) -> (r: &[DictationReportingOption])
        ensures
            r@ == self.reporting_options_spec(),
    {
        self.reporting_options.as_slice()
    }

    pub fn with_reporting_options(self, reporting_options: Vec<DictationReportingOption>) -> (r:
        Self)
        ensures
            r.content_hints_spec() == self.content_hints_spec(),
            r.transcription_options_spec() == self.transcription_options_spec(),
            r.reporting_options_spec() == reporting_options@,
            r.attribute_options_spec() == self.attribute_options_spec(),
    {
        let mut options = self;
        options.set_reporting_options(reporting_options);
        options
    }

    pub fn set_reporting_options(&mut self, reporting_options: Vec<DictationReportingOption>)
        ensures
            final(self).content_hints_spec() == old(self).content_hints_spec(),
            final(self).transcription_options_spec() == old(self).transcription_options_spec(),
            final(self).reporting_options_spec() == reporting_options@,
            final(self).attribute_options_spec() == old(self).attribute_options_spec(),
    {
        self.reporting_options = reporting_options;
    }

    pub fn attribute_options(&self) -> (r: &[DictationResultAttributeOption])
        ensures
            r@ == self.attribute_options_spec(),
    {
        self.attribute_options.as_slice()
    }

    pub fn with_attribute_options(self, attribute_options: Vec<DictationResultAttributeOption>) -> (r:
        Self)
        ensures
            r.content_hints_spec() == self.content_hints_spec(),
            r.transcription_options_spec() == self.transcription_options_spec(),
            r.reporting_options_spec() == self.reporting_options_spec(),
            r.attribute_options_spec() == attribute_options@,
    {
        let mut options = self;
        options.set_attribute_options(attribute_options);
        options
    }

    pub fn set_attribute_options(&mut self, attribute_options: Vec<DictationResultAttributeOption>)
        ensures
            final(self).content_hints_spec() == old(self).content_hints_spec(),
            final(self).transcription_options_spec() == old(self).transcription_options_spec(),
            final(self).reporting_options_spec() == old(self).reporting_options_spec(),
            final(self).attribute_options_spec() == attribute_options@,
    {
        self.attribute_options = attribute_options;
    }
}

#[derive(Debug, Clone, PartialEq)]
enum DictationConfiguration {
    Preset(DictationPreset),
    Custom(DictationTranscriberOptions),
}

/// Safe wrapper around Speech.framework's `DictationTranscriber` configuration.
#[derive(Debug, Clone, PartialEq)]
pub struct DictationTranscriber {
    locale_identifier: String,
    configuration: DictationConfiguration,
}

impl DictationTranscriber {
    /// The locale identifier.
    pub closed spec fn locale_spec(&self) -> Seq<char> {
        self.locale_identifier@
    }

    /// The preset, when the transcriber is configured by one.
    pub closed spec fn preset_spec(&self) -> Option<DictationPreset> {
        match self.configuration {
            DictationConfiguration::Preset(p) => Some(p),
            DictationConfiguration::Custom(_) => None,
        }
    }

    /// The explicit options, when the transcriber is configured by them.
    pub closed spec fn options_spec(&self) -> Option<DictationTranscriberOptions> {
        match self.configuration {
            DictationConfiguration::Preset(_) => None,
            DictationConfiguration::Custom(o) => Some(o),
        }
    }

    /// A transcriber is configured by exactly one of a preset and explicit
    /// options.
    pub proof fn law_exactly_one_of_preset_and_options(&self)
        ensures
            self.preset_spec() is Some <==> self.options_spec() is None,
    {
    }

    pub fn new(locale_identifier: &str, preset: DictationPreset) -> (r: Self)
        ensures
            r.locale_spec() == locale_identifier@,
            r.preset_spec() == Some(preset),
            r.options_spec() is None,
    {
        DictationTranscriber {
            locale_identifier: locale_identifier.to_owned(),
            configuration: DictationConfiguration::Preset(preset),
        }
    }

    pub fn with_options(locale_identifier: &str, options: DictationTranscriberOptions) -> (r: Self)
        ensures
            r.locale_spec() == locale_identifier@,
            r.preset_spec() is None,
            r.options_spec() == Some(options),
    {
        DictationTranscriber {
            locale_identifier: locale_identifier.to_owned(),
            configuration: DictationConfiguration::Custom(options),
        }
    }

    pub fn locale_identifier(&self) -> (r: &str)
        ensures
            r@ == self.locale_spec(),
    {
        self.locale_identifier.as_str()
    }

    pub fn preset(&self) -> (r: Option<DictationPreset>)
        ensures
            r == self.preset_spec(),
            r is Some <==> self.options_spec() is None,
    {
        match &self.configuration {
            DictationConfiguration::Preset(preset) => Some(*preset),
            DictationConfiguration::Custom(_) => None,
        }
    }

    pub fn options(&self) -> (r: Option<&DictationTranscriberOptions>)
        ensures
            match r {
                Some(o) => self.options_spec() == Some(*o),
                None => self.options_spec() is None,
            },
    {
        match &self.configuration {
            DictationConfiguration::Preset(_) => None,
            DictationConfiguration::Custom(options) => Some(options),
        }
    }
}

} // verus!

verus! {

/// The plain values the bridge receives for a content hint.
#[derive(Debug, Clone, PartialEq, Eq)]
pub struct DictationContentHintPayload {
    pub kind: String,
    pub language_model: Option<LanguageModelConfigurationPayload>,
}

/// The bridge's name of a content hint's kind.
pub open spec fn content_hint_kind(h: DictationContentHint) -> Seq<char> {
    match h {
        DictationContentHint::ShortForm => "shortForm"@,
        DictationContentHint::FarField => "farField"@,
        DictationContentHint::AtypicalSpeech => "atypicalSpeech"@,
        DictationContentHint::CustomizedLanguageModel(_) => "customizedLanguage"@,
    }
}

/// The payload carries the hint's kind and, for a customized language model,
/// its configuration.
pub open spec fn content_hint_payload_matches(
    h: DictationContentHint,
    p: DictationContentHintPayload,
) -> bool {
    &&& p.kind@ == content_hint_kind(h)
    &&& match h {
        DictationContentHint::CustomizedLanguageModel(c) => p.language_model is Some
            && p.language_model->0@ == c@,
        _ => p.language_model is None,
    }
}

impl DictationContentHintPayload {
    /// The payload for `hint`.
    pub fn from_hint(hint: &DictationContentHint) -> (r: Self)
        ensures
            content_hint_payload_matches(*hint, r),
    {
        match hint {
            DictationContentHint::ShortForm => DictationContentHintPayload {
                kind: "shortForm".to_owned(),
                language_model: None,
            },
            DictationContentHint::FarField => DictationContentHintPayload {
                kind: "farField".to_owned(),
                language_model: None,
            },
            DictationContentHint::AtypicalSpeech => DictationContentHintPayload {
                kind: "atypicalSpeech".to_owned(),
                language_model: None,
            },
            DictationContentHint::CustomizedLanguageModel(configuration) => {
                DictationContentHintPayload {
                    kind: "customizedLanguage".to_owned(),
                    language_model: Some(configuration.to_payload()),
                }
            },
        }
    }
}

/// The plain values the bridge receives for a dictation transcriber.
#[derive(Debug, Clone, PartialEq, Eq)]
pub struct DictationPayload {
    pub locale_identifier: String,
    pub preset: Option<String>,
    pub content_hints: Option<Vec<DictationContentHintPayload>>,
    pub transcription_options: Option<Vec<String>>,
    pub reporting_options: Option<Vec<String>>,
    pub attribute_options: Option<Vec<String>>,
}

/// A list of names stands for `values` under `name_of`: absent when there are
/// no values, the names in order otherwise.
pub open spec fn names_match<T>(
    values: Seq<T>,
    names: Option<Vec<String>>,
    name_of: spec_fn(T) -> Seq<char>,
) -> bool {
    match names {
        Some(v) => values.len() > 0 && strings_model(v@) == values.map_values(name_of),
        None => values.len() == 0,
    }
}

/// A list of hint payloads stands for `hints`: absent when there are no
/// hints, one matching payload per hint otherwise.
pub open spec fn hints_match(
    hints: Seq<DictationContentHint>,
    payloads: Option<Vec<DictationContentHintPayload>>,
) -> bool {
    match payloads {
        Some(v) => hints.len() > 0 && v@.len() == hints.len() && forall|i: int|
            0 <= i < hints.len() ==> content_hint_payload_matches(hints[i], #[trigger] v@[i]),
        None => hints.len() == 0,
    }
}

/// The payload describes the transcriber: its locale and either its preset's
/// name or its explicit options.
pub open spec fn dictation_payload_matches(t: DictationTranscriber, p: DictationPayload) -> bool {
    &&& p.locale_identifier@ == t.locale_spec()
    &&& match t.preset_spec() {
        Some(preset) => {
            &&& p.preset is Some
            &&& p.preset->0@ == preset_name(preset)
            &&& p.content_hints is None
            &&& p.transcription_options is None
            &&& p.reporting_options is None
            &&& p.attribute_options is None
        },
        None => {
            let o = t.options_spec()->0;
            &&& p.preset is None
            &&& hints_match(o.content_hints_spec(), p.content_hints)
            &&& names_match(
                o.transcription_options_spec(),
                p.transcription_options,
                |x: DictationTranscriptionOption| transcription_option_name(x),
            )
            &&& names_match(
                o.reporting_options_spec(),
                p.reporting_options,
                |x: DictationReportingOption| reporting_option_name(x),
            )
            &&& names_match(
                o.attribute_options_spec(),
                p.attribute_options,
                |x: DictationResultAttributeOption| attribute_option_name(x),
            )
        },
    }
}

fn transcription_option_names(values: &Vec<DictationTranscriptionOption>) -> (r: Option<Vec<String>>)
    ensures
        names_match(values@, r, |x: DictationTranscriptionOption| transcription_option_name(x)),
{
    if values.len() == 0 {
        return None;
    }
    let mut names: Vec<String> = Vec::new();
    let mut i: usize = 0;
    while i < values.len()
        invariant
            i <= values@.len(),
            strings_model(names@) == values@.take(i as int).map_values(
                |x: DictationTranscriptionOption| transcription_option_name(x),
            ),
        decreases values@.len() - i,
    {
        let ghost before = names@;
        names.push(values[i].as_str().to_owned());
        assert(strings_model(names@) =~= strings_model(before).push(
            transcription_option_name(values@[i as int]),
        ));
        assert(values@.take(i + 1).map_values(
            |x: DictationTranscriptionOption| transcription_option_name(x),
        ) =~= values@.take(i as int).map_values(
            |x: DictationTranscriptionOption| transcription_option_name(x),
        ).push(transcription_option_name(values@[i as int])));
        i += 1;
    }
    assert(values@.take(values@.len() as int) == values@);
    Some(names)
}

fn reporting_option_names(values: &Vec<DictationReportingOption>) -> (r: Option<Vec<String>>)
    ensures
        names_match(values@, r, |x: DictationReportingOption| reporting_option_name(x)),
{
    if values.len() == 0 {
        return None;
    }
    let mut names: Vec<String> = Vec::new();
    let mut i: usize = 0;
    while i < values.len()
        invariant
            i <= values@.len(),
            strings_model(names@) == values@.take(i as int).map_values(
                |x: DictationReportingOption| reporting_option_name(x),
            ),
        decreases values@.len() - i,
    {
        let ghost before = names@;
        names.push(values[i].as_str().to_owned());
        assert(strings_model(names@) =~= strings_model(before).push(
            reporting_option_name(values@[i as int]),
        ));
        assert(values@.take(i + 1).map_values(|x: DictationReportingOption| reporting_option_name(x))
            =~= values@.take(i as int).map_values(
            |x: DictationReportingOption| reporting_option_name(x),
        ).push(reporting_option_name(values@[i as int])));
        i += 1;
    }
    assert(values@.take(values@.len() as int) == values@);
    Some(names)
}

fn attribute_option_names(values: &Vec<DictationResultAttributeOption>) -> (r: Option<Vec<String>>)
    ensures
        names_match(values@, r, |x: DictationResultAttributeOption| attribute_option_name(x)),
{
    if values.len() == 0 {
        return None;
    }
    let mut names: Vec<String> = Vec::new();
    let mut i: usize = 0;
    while i < values.len()
        invariant
            i <= values@.len(),
            strings_model(names@) == values@.take(i as int).map_values(
                |x: DictationResultAttributeOption| attribute_option_name(x),
            ),
        decreases values@.len() - i,
    {
        let ghost before = names@;
        names.push(values[i].as_str().to_owned());
        assert(strings_model(names@) =~= strings_model(before).push(
            attribute_option_name(values@[i as int]),
        ));
        assert(values@.take(i + 1).map_values(
            |x: DictationResultAttributeOption| attribute_option_name(x),
        ) =~= values@.take(i as int).map_values(
            |x: DictationResultAttributeOption| attribute_option_name(x),
        ).push(attribute_option_name(values@[i as int])));
        i += 1;
    }
    assert(values@.take(values@.len() as int) == values@);
    Some(names)
}

fn content_hint_payloads(hints: &Vec<DictationContentHint>) -> (r: Option<
    Vec<DictationContentHintPayload>,
>)
    ensures
        hints_match(hints@, r),
{
    if hints.len() == 0 {
        return None;
    }
    let mut payloads: Vec<DictationContentHintPayload> = Vec::new();
    let mut i: usize = 0;
    while i < hints.len()
        invariant
            i <= hints@.len(),
            payloads@.len() == i,
            forall|j: int|
                0 <= j < i ==> content_hint_payload_matches(hints@[j], #[trigger] payloads@[j]),
        decreases hints@.len() - i,
    {
        payloads.push(DictationContentHintPayload::from_hint(&hints[i]));
        i += 1;
    }
    Some(payloads)
}

impl DictationPayload {
    /// The payload for `transcriber`.
    pub fn from_transcriber(transcriber: &DictationTranscriber) -> (r: Self)
        ensures
            dictation_payload_matches(*transcriber, r),
    {
        let locale_identifier = transcriber.locale_identifier.clone();
        match &transcriber.configuration {
            DictationConfiguration::Preset(preset) => DictationPayload {
                locale_identifier,
                preset: Some(preset.as_str().to_owned()),
                content_hints: None,
                transcription_options: None,
                reporting_options: None,
                attribute_options: None,
            },
            DictationConfiguration::Custom(options) => DictationPayload {
                locale_identifier,
                preset: None,
                content_hints: content_hint_payloads(&options.content_hints),
                transcription_options: transcription_option_names(&options.transcription_options),
                reporting_options: reporting_option_names(&options.reporting_options),
                attribute_options: attribute_option_names(&options.attribute_options),
            },
        }
    }
}

} // verus!

verus! {

/// The bridge's name of each dictation preset is the preset's own name in
/// lower camel case.
pub proof fn law_preset_names()
    ensures
        preset_name(DictationPreset::Phrase) == "phrase"@,
        preset_name(DictationPreset::ShortDictation) == "shortDictation"@,
        preset_name(DictationPreset::ProgressiveShortDictation) == "progressiveShortDictation"@,
        preset_name(DictationPreset::LongDictation) == "longDictation"@,
        preset_name(DictationPreset::ProgressiveLongDictation) == "progressiveLongDictation"@,
        preset_name(DictationPreset::TimeIndexedLongDictation) == "timeIndexedLongDictation"@,
{
}

/// The bridge's name of each transcription, reporting and attribute option
/// is the option's own name in lower camel case.
pub proof fn law_option_names()
    ensures
        transcription_option_name(DictationTranscriptionOption::Punctuation) == "punctuation"@,
        transcription_option_name(DictationTranscriptionOption::Emoji) == "emoji"@,
        transcription_option_name(DictationTranscriptionOption::EtiquetteReplacements)
            == "etiquetteReplacements"@,
        reporting_option_name(DictationReportingOption::VolatileResults) == "volatileResults"@,
        reporting_option_name(DictationReportingOption::AlternativeTranscriptions)
            == "alternativeTranscriptions"@,
        reporting_option_name(DictationReportingOption::FrequentFinalization)
            == "frequentFinalization"@,
        attribute_option_name(DictationResultAttributeOption::AudioTimeRange) == "audioTimeRange"@,
        attribute_option_name(DictationResultAttributeOption::TranscriptionConfidence)
            == "transcriptionConfidence"@,
{
}

/// The bridge's kind of each content hint, and a customized language model
/// hint carries its configuration while the others carry none.
pub proof fn law_content_hint_kinds(c: LanguageModelConfiguration, p: DictationContentHintPayload)
    ensures
        content_hint_kind(DictationContentHint::ShortForm) == "shortForm"@,
        content_hint_kind(DictationContentHint::FarField) == "farField"@,
        content_hint_kind(DictationContentHint::AtypicalSpeech) == "atypicalSpeech"@,
        content_hint_kind(DictationContentHint::CustomizedLanguageModel(c)) == "customizedLanguage"@,
        content_hint_payload_matches(DictationContentHint::CustomizedLanguageModel(c), p) ==> (
        p.language_model matches Some(m) && m@ == c@),
        content_hint_payload_matches(DictationContentHint::ShortForm, p) ==> p.language_model is None,
{
}

} // verus!
