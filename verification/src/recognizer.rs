//! The configuration of a speech recognizer: the locale it recognizes.

use vstd::prelude::*;

use crate::text::chars_of;

verus! {

broadcast use vstd::string::group_string_axioms;

/// The text holds no NUL character, so the bridge can receive it as a C string.
pub open spec fn c_compatible(s: Seq<char>) -> bool {
    forall|i: int| 0 <= i < s.len() ==> s[i] != '\0'
}

/// Whether `s` holds no NUL character.
pub fn is_c_compatible(s: &str) -> (r: bool)
    ensures
        r == c_compatible(s@),
{
    let chars = chars_of(s);
    let mut i: usize = 0;
    while i < chars.len()
        invariant
            i <= chars@.len(),
            chars@ == s@,
            forall|j: int| 0 <= j < i ==> chars@[j] != '\0',
        decreases chars@.len() - i,
    {
        if chars[i] == '\0' {
            return false;
        }
        i += 1;
    }
    true
}

/// Speech recognition engine configuration: the device's default locale, or
/// an explicit one.
#[derive(Debug)]
pub struct SpeechRecognizer {
    locale_id: Option<String>,
}

impl Clone for SpeechRecognizer {
    /// A recognizer for the same locale.
    fn clone(&self) -> (r: Self)
        ensures
            r.locale_spec() == self.locale_spec(),
    {
        proof {
            use_type_invariant(self);
        }
        let locale_id = match &self.locale_id {
            Some(l) => Some(l.clone()),
            None => None,
        };
        SpeechRecognizer { locale_id }
    }
}

impl Default for SpeechRecognizer {
    fn default() -> (r: Self)
        ensures
            r.locale_spec() is None,
    {
        SpeechRecognizer::new()
    }
}

impl SpeechRecognizer {
    /// The explicit locale, if any.
    pub closed spec fn locale_spec(&self) -> Option<Seq<char>> {
        match self.locale_id {
            Some(l) => Some(l@),
            None => None,
        }
    }

    /// The explicit locale, if any, holds no NUL character.
    #[verifier::type_invariant]
    pub closed spec fn wf(&self) -> bool {
        match self.locale_id {
            Some(l) => c_compatible(l@),
            None => true,
        }
    }

    /// A recognizer for the device's default locale.
    pub fn new() -> (r: Self)
        ensures
            r.locale_spec() is None,
            r.wf(),
    {
        SpeechRecognizer { locale_id: None }
    }

    /// A recognizer for `locale_id` (e.g. `"en-US"`); the locale may not
    /// hold a NUL character.
    pub fn with_locale(locale_id: &str) -> (r: Self)
        requires
            c_compatible(locale_id@),
        ensures
            r.locale_spec() == Some(locale_id@),
            r.wf(),
    {
        SpeechRecognizer { locale_id: Some(locale_id.to_owned()) }
    }

    /// A recognizer for `locale_id`, or `None` when the locale holds a NUL
    /// character.
    pub fn with_locale_checked(locale_id: &str) -> (r: Option<Self>)
        ensures
            match r {
                Some(rec) => c_compatible(locale_id@) && rec.locale_spec() == Some(locale_id@)
                    && rec.wf(),
                None => !c_compatible(locale_id@),
            },
    {
        if is_c_compatible(locale_id) {
            Some(SpeechRecognizer::with_locale(locale_id))
        } else {
            None
        }
    }

    /// The explicit locale, if any.
    pub fn locale_identifier(&self) -> (r: Option<&str>)
        ensures
            match r {
                Some(l) => self.locale_spec() == Some(l@) && c_compatible(l@),
                None => self.locale_spec() is None,
            },
    {
        proof {
            use_type_invariant(self);
        }
        match &self.locale_id {
            Some(l) => Some(l.as_str()),
            None => None,
        }
    }
}

} // verus!
