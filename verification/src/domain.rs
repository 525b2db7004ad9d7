use vstd::prelude::*;
use crate::transport::ExplainWordResponse;

verus! {

/// Failures of the language-model back end.
#[derive(Debug, Clone, PartialEq, Eq)]
pub enum Error {
    /// The model call failed, or its answer held no usable content.
    AiError(String),
    /// Anything else, such as an answer that did not have the expected shape.
    GeneralError(String),
}

impl Error {
    /// The text that this error displays as.
    pub open spec fn text(self) -> Seq<char> {
        match self {
            Error::AiError(msg) => "AI error: "@ + msg@,
            Error::GeneralError(msg) => "General error: "@ + msg@,
        }
    }

    /// The text of an error is a fixed label for its kind followed by the whole
    /// message, and the two kinds have different labels.
    pub proof fn lemma_text_keeps_message(msg: String, empty: String)
        requires
            empty@.len() == 0,
        ensures
            Error::AiError(msg).text() == Error::AiError(empty).text() + msg@,
            Error::GeneralError(msg).text() == Error::GeneralError(empty).text() + msg@,
            Error::AiError(empty).text() != Error::GeneralError(empty).text(),
    {
        assert(Error::AiError(msg).text() =~= Error::AiError(empty).text() + msg@);
        assert(Error::GeneralError(msg).text() =~= Error::GeneralError(empty).text() + msg@);
        reveal_strlit("AI error: ");
        reveal_strlit("General error: ");
        assert(Error::AiError(empty).text()[0] != Error::GeneralError(empty).text()[0]);
    }

    /// Renders the error for a human reader: its kind, a colon, and its message.
    pub fn to_string(&self) -> (res: String)
        ensures
            res@ == self.text(),
    {
        match self {
            Error::AiError(msg) => {
                let mut res = String::new();
                res.append("AI error: ");
                res.append(msg.as_str());
                res
            },
            Error::GeneralError(msg) => {
                let mut res = String::new();
                res.append("General error: ");
                res.append(msg.as_str());
                res
            },
        }
    }
}

/// The explanation of a word as the model gives it, before it is sent on.
#[derive(Debug, Clone, PartialEq, Eq)]
pub struct ExplainWordOutput {
    pub word_or_phrase: String,
    pub part_of_speech: String,
    pub attached_word_meaning: String,
    pub attached_word_meaning_native: String,
}

/// The CEFR level of a word as the model gives it.
#[derive(Debug, Clone, PartialEq, Eq)]
pub struct GuessCefrWordLevelOutput {
    pub level: String,
}

impl From<ExplainWordOutput> for ExplainWordResponse {
    /// Carries each of the four fields over unchanged.
    fn from(src: ExplainWordOutput) -> (res: Self) {
        ExplainWordResponse {
            word_or_phrase: src.word_or_phrase,
            part_of_speech: src.part_of_speech,
            attached_word_meaning: src.attached_word_meaning,
            attached_word_meaning_native: src.attached_word_meaning_native,
        }
    }
}

impl vstd::std_specs::convert::FromSpecImpl<ExplainWordOutput> for ExplainWordResponse {
    open spec fn obeys_from_spec() -> bool {
        true
    }

    open spec fn from_spec(src: ExplainWordOutput) -> Self {
        ExplainWordResponse {
            word_or_phrase: src.word_or_phrase,
            part_of_speech: src.part_of_speech,
            attached_word_meaning: src.attached_word_meaning,
            attached_word_meaning_native: src.attached_word_meaning_native,
        }
    }
}

} // verus!
