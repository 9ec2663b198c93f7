//! Configuration of a custom language model (`SFSpeechLanguageModel.Configuration`).

use vstd::prelude::*;

verus! {

/// Abstract value of a [`LanguageModelConfiguration`].
pub struct LanguageModelConfigurationModel {
    pub language_model: Seq<char>,
    pub vocabulary: Option<Seq<char>>,
}

/// The location of a prepared custom language model and, optionally, its
/// vocabulary.
#[derive(Debug, Clone, PartialEq, Eq)]
pub struct LanguageModelConfiguration {
    language_model: String,
    vocabulary: Option<String>,
}

/// The character sequence of an optional string.
pub open spec fn opt_string_model(s: Option<String>) -> Option<Seq<char>> {
    match s {
        Some(v) => Some(v@),
        None => None,
    }
}

impl View for LanguageModelConfiguration {
    type V = LanguageModelConfigurationModel;

    closed spec fn view(&self) -> LanguageModelConfigurationModel {
        LanguageModelConfigurationModel {
            language_model: self.language_model@,
            vocabulary: opt_string_model(self.vocabulary),
        }
    }
}

/// The plain values the bridge receives for a language model configuration.
#[derive(Debug, Clone, PartialEq, Eq)]
pub struct LanguageModelConfigurationPayload {
    pub language_model: String,
    pub vocabulary: Option<String>,
}

impl View for LanguageModelConfigurationPayload {
    type V = LanguageModelConfigurationModel;

    open spec fn view(&self) -> LanguageModelConfigurationModel {
        LanguageModelConfigurationModel {
            language_model: self.language_model@,
            vocabulary: opt_string_model(self.vocabulary),
        }
    }
}

/// Copies an optional string.
pub fn copy_opt_string(s: &Option<String>) -> (r: Option<String>)
    ensures
        opt_string_model(r) == opt_string_model(*s),
{
    match s {
        Some(v) => Some(v.clone()),
        None => None,
    }
}

impl LanguageModelConfiguration {
    /// A configuration for the language model at `language_model`, without a
    /// vocabulary.
    pub fn new(language_model: &str) -> (r: Self)
        ensures
            r@ == (LanguageModelConfigurationModel {
                language_model: language_model@,
                vocabulary: None,
            }),
    {
        LanguageModelConfiguration { language_model: language_model.to_owned(), vocabulary: None }
    }

    /// The same configuration with the vocabulary at `vocabulary`.
    pub fn with_vocabulary(self, vocabulary: &str) -> (r: Self)
        ensures
            r@ == (LanguageModelConfigurationModel {
                language_model: self@.language_model,
                vocabulary: Some(vocabulary@),
            }),
    {
        LanguageModelConfiguration {
            language_model: self.language_model,
            vocabulary: Some(vocabulary.to_owned()),
        }
    }

    pub fn language_model(&self) -> (r: &str)
        ensures
            r@ == self@.language_model,
    {
        self.language_model.as_str()
    }

    pub fn vocabulary(&self) -> (r: Option<&str>)
        ensures
            match r {
                Some(v) => self@.vocabulary == Some(v@),
                None => self@.vocabulary is None,
            },
    {
        match &self.vocabulary {
            Some(v) => Some(v.as_str()),
            None => None,
        }
    }

    /// An independent copy of this configuration.
    pub fn copy(&self) -> (r: Self)
        ensures
            r@ == self@,
    {
        LanguageModelConfiguration {
            language_model: self.language_model.clone(),
            vocabulary: copy_opt_string(&self.vocabulary),
        }
    }

    /// The plain values the bridge receives for this configuration.
    pub fn to_payload(&self) -> (r: LanguageModelConfigurationPayload)
        ensures
            r@ == self@,
    {
        LanguageModelConfigurationPayload {
            language_model: self.language_model.clone(),
            vocabulary: copy_opt_string(&self.vocabulary),
        }
    }
}

} // verus!
