use vstd::prelude::*;

verus! {

/// Ask for the base form, part of speech and meaning of a word seen in context.
#[derive(Debug, Clone, PartialEq, Eq)]
pub struct ExplainWordRequest {
    pub word: String,
    pub context: String,
    pub native_language: String,
}

/// The explanation of a word, as sent back to the client.
#[derive(Debug, Clone, PartialEq, Eq)]
pub struct ExplainWordResponse {
    pub word_or_phrase: String,
    pub part_of_speech: String,
    pub attached_word_meaning: String,
    pub attached_word_meaning_native: String,
}

/// Ask for a spoken rendering of a text.
#[derive(Debug, Clone, PartialEq, Eq)]
pub struct TtsRequest {
    pub text: String,
    pub instruction: String,
}

/// Spoken audio, Base64-encoded.
#[derive(Debug, Clone, PartialEq, Eq)]
pub struct TtsResponse {
    pub base64_data: String,
}

/// Ask for a study card of a word: explanation, picture and voice.
#[derive(Debug, Clone, PartialEq, Eq)]
pub struct WordCardRequest {
    pub word: String,
    pub part_of_speech: String,
}

/// A study card: picture and voice (both Base64-encoded) and the explanation.
#[derive(Debug, Clone, PartialEq, Eq)]
pub struct WordCardResponse {
    pub img_base64: String,
    pub voice_base64: String,
    pub explanation: String,
}

/// Ask for the CEFR level of a word.
#[derive(Debug, Clone, PartialEq, Eq)]
pub struct GuessCefrlLevelRequest {
    pub word: String,
    pub part_of_speech: String,
}

/// The CEFR level of a word, such as `B2`.
#[derive(Debug, Clone, PartialEq, Eq)]
pub struct GuessCefrlLevelResponse {
    pub level: String,
}

/// Ask for the restaurant's menu.
#[derive(Debug, Clone, PartialEq, Eq)]
pub struct MenuRequest {}

/// One dish of the menu. The price is held in hundredths of the currency unit.
#[derive(Debug, Clone, PartialEq, Eq)]
pub struct MenuItem {
    pub name: Option<String>,
    pub price_cents: u64,
}

/// The restaurant's menu.
#[derive(Debug, Clone, PartialEq, Eq)]
pub struct MenuResponse {
    pub items: Vec<MenuItem>,
}

/// Place an order.
#[derive(Debug, Clone, PartialEq, Eq)]
pub struct OrderRequest {}

/// The answer to an order.
#[derive(Debug, Clone, PartialEq, Eq)]
pub struct OrderResponse {}

/// The body of an internal-error answer.
#[derive(Debug, Clone, PartialEq, Eq)]
pub struct InternalErrorResponse {
    pub error_message: String,
}

} // verus!
