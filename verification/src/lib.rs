//! Safe, verified model of the logic behind Apple's Speech framework bindings:
//! request configuration, dictation configuration, custom language model
//! authoring (including template expansion) and the mapping of framework
//! status codes to errors.

pub mod error;
pub mod language_model;
pub mod request;
pub mod text;
pub mod custom_language_model;
pub mod dictation;
pub mod argument;
pub mod asset_inventory;
pub mod live;
pub mod recognizer;
pub mod reply;
pub mod transcription;
