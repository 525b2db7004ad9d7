//! The HTTP endpoints of the tutor: what each answers for each outcome of the
//! language-model calls it makes, and the multi-call word-card flow.
use vstd::prelude::*;
use crate::domain::{Error, ExplainWordOutput, GuessCefrWordLevelOutput};
use crate::openai::texts;
use crate::text::ends_with_whole;
use crate::transport::{
    ExplainWordResponse, GuessCefrlLevelResponse, TtsResponse, WordCardRequest, WordCardResponse,
};

verus! {

/// An error answer: HTTP status and message.
#[derive(Debug, Clone, PartialEq, Eq)]
pub struct ErrorReply {
    pub status: u16,
    pub message: String,
}

fn owned(s: &str) -> (res: String)
    ensures
        res@ == s@,
{
    s.to_owned()
}

/// The parts of speech that an explanation may name, each once.
pub open spec fn spec_parts_of_speech() -> Seq<Seq<char>> {
    seq![
        "adjective"@,
        "noun"@,
        "verb"@,
        "phrasal verb"@,
        "adverb"@,
        "pronoun"@,
        "preposition"@,
        "conjunction"@,
        "interjection"@,
        "other"@,
    ]
}

/// The parts of speech that an explanation may name.
pub fn parts_of_speech() -> (res: Vec<String>)
    ensures
        texts(res@) == spec_parts_of_speech(),
        texts(res@).no_duplicates(),
{
    let res = vec![
        owned("adjective"),
        owned("noun"),
        owned("verb"),
        owned("phrasal verb"),
        owned("adverb"),
        owned("pronoun"),
        owned("preposition"),
        owned("conjunction"),
        owned("interjection"),
        owned("other"),
    ];
    assert(texts(res@) =~= spec_parts_of_speech());
    proof {
        lemma_parts_of_speech_distinct();
    }
    res
}

/// No part of speech is offered twice.
pub proof fn lemma_parts_of_speech_distinct()
    ensures
        forall|i: int, j: int|
            0 <= i < j < spec_parts_of_speech().len() ==> spec_parts_of_speech()[i]
                != spec_parts_of_speech()[j],
{
    reveal_strlit("adjective");
    reveal_strlit("noun");
    reveal_strlit("verb");
    reveal_strlit("phrasal verb");
    reveal_strlit("adverb");
    reveal_strlit("pronoun");
    reveal_strlit("preposition");
    reveal_strlit("conjunction");
    reveal_strlit("interjection");
    reveal_strlit("other");
    let p = spec_parts_of_speech();
    assert forall|i: int, j: int| 0 <= i < j < p.len() implies p[i] != p[j] by {
        if p[i].len() == p[j].len() {
            assert(p[i][0] != p[j][0]);
        }
    }
}

/// `r` is an error answer with the given status and message.
pub open spec fn is_error_reply(r: ErrorReply, status: u16, message: Seq<char>) -> bool {
    r.status == status && r.message@ == message
}

/// The answer to a request that a model call failed for: `500` with the error's text.
pub fn internal_error_reply(e: &Error) -> (res: ErrorReply)
    ensures
        is_error_reply(res, 500, e.text()),
{
    ErrorReply { status: 500, message: e.to_string() }
}

/// The message for a request that no route serves: `No route for <uri>`.
pub open spec fn fallback_message(uri: Seq<char>) -> Seq<char> {
    "No route for "@ + uri
}

/// The message names the whole URI at its end: it is the message for an empty
/// URI followed by the URI, uncut.
pub proof fn lemma_fallback_message_keeps_uri(uri: Seq<char>)
    ensures
        ends_with_whole(fallback_message(uri), fallback_message(Seq::empty()), uri),
{
    let base = fallback_message(Seq::empty());
    assert(fallback_message(uri).take(base.len() as int) =~= base);
    assert(fallback_message(uri).skip(base.len() as int) =~= uri);
}

/// The answer to a request that no route serves: `404` and `No route for <uri>`.
pub fn fallback_reply(uri: &str) -> (res: ErrorReply)
    ensures
        is_error_reply(res, 404, fallback_message(uri@)),
{
    let mut message = String::new();
    message.append("No route for ");
    message.append(uri);
    ErrorReply { status: 404, message }
}

/// The answer of `/explain-word` once the model has explained the word.
pub fn explain_word_reply(outcome: Result<ExplainWordOutput, Error>) -> (res: Result<
    ExplainWordResponse,
    ErrorReply,
>)
    ensures
        outcome matches Ok(o) ==> res == Ok::<ExplainWordResponse, ErrorReply>(
            ExplainWordResponse {
                word_or_phrase: o.word_or_phrase,
                part_of_speech: o.part_of_speech,
                attached_word_meaning: o.attached_word_meaning,
                attached_word_meaning_native: o.attached_word_meaning_native,
            },
        ),
        outcome matches Err(e) ==> res matches Err(r) && is_error_reply(r, 500, e.text()),
{
    match outcome {
        Ok(output) => Ok(ExplainWordResponse::from(output)),
        Err(e) => Err(internal_error_reply(&e)),
    }
}

/// The answer of `/text-to-speech` once the audio has been produced.
pub fn tts_reply(outcome: Result<String, Error>) -> (res: Result<TtsResponse, ErrorReply>)
    ensures
        outcome matches Ok(audio) ==> res == Ok::<TtsResponse, ErrorReply>(
            TtsResponse { base64_data: audio },
        ),
        outcome matches Err(e) ==> res matches Err(r) && is_error_reply(r, 500, e.text()),
{
    match outcome {
        Ok(audio) => Ok(TtsResponse { base64_data: audio }),
        Err(e) => Err(internal_error_reply(&e)),
    }
}

/// The answer of `/guess-cefr-word-level` once the model has named a level.
pub fn cefr_reply(outcome: Result<GuessCefrWordLevelOutput, Error>) -> (res: Result<
    GuessCefrlLevelResponse,
    ErrorReply,
>)
    ensures
        outcome matches Ok(o) ==> res == Ok::<GuessCefrlLevelResponse, ErrorReply>(
            GuessCefrlLevelResponse { level: o.level },
        ),
        outcome matches Err(e) ==> res matches Err(r) && is_error_reply(r, 500, e.text()),
{
    match outcome {
        Ok(output) => Ok(GuessCefrlLevelResponse { level: output.level }),
        Err(e) => Err(internal_error_reply(&e)),
    }
}

} // verus!
