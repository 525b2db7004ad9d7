//! The `/word-card` flow: four model calls in a row, each fed by the answers
//! before it, written as a state machine that the caller drives.
use vstd::prelude::*;
use crate::domain::Error;
use crate::endpoints::{internal_error_reply, ErrorReply};
use crate::transport::{WordCardRequest, WordCardResponse};
use crate::text::{ends_with_whole, holds_whole_at};

verus! {

/// A call that the flow asks the caller to make.
#[derive(Debug, Clone, PartialEq, Eq)]
pub enum AiCall {
    /// Put `prompt` to the chat model and answer with its text.
    Ask { prompt: String },
    /// Have a picture of `prompt` drawn and answer with it, Base64-encoded.
    GenImage { prompt: String },
    /// Have `text` spoken following `instructions` and answer with the audio, Base64-encoded.
    Speak { text: String, instructions: String },
}

/// How far the flow has come, with the answers that it still needs.
#[derive(Debug, Clone, PartialEq, Eq)]
pub enum WordCardStage {
    /// Waiting for the explanation of the word.
    AwaitingMeaning,
    /// Waiting for the description of a picture that illustrates `meaning`.
    AwaitingPicturePrompt { meaning: String },
    /// Waiting for the picture.
    AwaitingPicture { meaning: String },
    /// Waiting for the spoken explanation.
    AwaitingVoice { meaning: String, picture: String },
}

/// A word-card request under way.
#[derive(Debug, Clone, PartialEq, Eq)]
pub struct WordCardFlow {
    pub word: String,
    pub part_of_speech: String,
    pub stage: WordCardStage,
}

/// What follows an answer: the next call, or the final reply.
#[derive(Debug, PartialEq, Eq)]
pub enum WordCardStep {
    Next(WordCardFlow, AiCall),
    Done(Result<WordCardResponse, ErrorReply>),
}

/// A call, by its texts.
pub enum CallView {
    Ask(Seq<char>),
    GenImage(Seq<char>),
    Speak(Seq<char>, Seq<char>),
}

/// A stage, by its texts.
pub enum StageView {
    AwaitingMeaning,
    AwaitingPicturePrompt(Seq<char>),
    AwaitingPicture(Seq<char>),
    AwaitingVoice(Seq<char>, Seq<char>),
}

/// A flow, by its texts.
pub struct FlowView {
    pub word: Seq<char>,
    pub part_of_speech: Seq<char>,
    pub stage: StageView,
}

/// A step, by its texts. A finished card is (picture, voice, explanation); an
/// error answer is (status, message).
pub enum StepView {
    Next(FlowView, CallView),
    Done(Result<(Seq<char>, Seq<char>, Seq<char>), (u16, Seq<char>)>),
}

impl View for AiCall {
    type V = CallView;

    open spec fn view(&self) -> CallView {
        match self {
            AiCall::Ask { prompt } => CallView::Ask(prompt@),
            AiCall::GenImage { prompt } => CallView::GenImage(prompt@),
            AiCall::Speak { text, instructions } => CallView::Speak(text@, instructions@),
        }
    }
}

impl View for WordCardStage {
    type V = StageView;

    open spec fn view(&self) -> StageView {
        match self {
            WordCardStage::AwaitingMeaning => StageView::AwaitingMeaning,
            WordCardStage::AwaitingPicturePrompt { meaning } => StageView::AwaitingPicturePrompt(
                meaning@,
            ),
            WordCardStage::AwaitingPicture { meaning } => StageView::AwaitingPicture(meaning@),
            WordCardStage::AwaitingVoice { meaning, picture } => StageView::AwaitingVoice(
                meaning@,
                picture@,
            ),
        }
    }
}

impl View for WordCardFlow {
    type V = FlowView;

    open spec fn view(&self) -> FlowView {
        FlowView { word: self.word@, part_of_speech: self.part_of_speech@, stage: self.stage@ }
    }
}

impl View for WordCardStep {
    type V = StepView;

    open spec fn view(&self) -> StepView {
        match self {
            WordCardStep::Next(flow, call) => StepView::Next(flow@, call@),
            WordCardStep::Done(Ok(card)) => StepView::Done(
                Ok((card.img_base64@, card.voice_base64@, card.explanation@)),
            ),
            WordCardStep::Done(Err(reply)) => StepView::Done(Err((reply.status, reply.message@))),
        }
    }
}

/// The question that asks for a short, simple explanation of the word.
pub open spec fn meaning_prompt(word: Seq<char>, part_of_speech: Seq<char>) -> Seq<char> {
    "Explain meaning of English word '"@ + word + "("@ + part_of_speech
        + ")' in 60 words. Provide examples. Use simple English and very simple vocabulary. Use plain formatting (not markdown)."@
}

/// The question that asks for the description of a picture illustrating one
/// example of `meaning`.
pub open spec fn picture_prompt(
    word: Seq<char>,
    part_of_speech: Seq<char>,
    meaning: Seq<char>,
) -> Seq<char> {
    "Extract one example from the given bellow definition that better fits for visualizing $"@
        + part_of_speech + " English word '$"@ + word
        + "'. Give me extended 100 words description of a picture or photo of the extracted example. Do not provide the extracted example. Just give me the picture description. Definition: "@
        + meaning
}

/// The flow as it begins, and its first call.
pub open spec fn spec_start(word: Seq<char>, part_of_speech: Seq<char>) -> (FlowView, CallView) {
    (
        FlowView { word, part_of_speech, stage: StageView::AwaitingMeaning },
        CallView::Ask(meaning_prompt(word, part_of_speech)),
    )
}

/// What follows `answer` in `flow`. A failed call ends the flow with `500` and
/// the error's text. Otherwise the explanation leads to the picture question,
/// the picture description to the picture, the picture to speaking the
/// explanation with no instructions, and the voice to the finished card.
pub open spec fn spec_step(flow: FlowView, answer: Result<Seq<char>, Error>) -> StepView {
    match answer {
        Err(e) => StepView::Done(Err((500u16, e.text()))),
        Ok(text) => match flow.stage {
            StageView::AwaitingMeaning => StepView::Next(
                FlowView { stage: StageView::AwaitingPicturePrompt(text), ..flow },
                CallView::Ask(picture_prompt(flow.word, flow.part_of_speech, text)),
            ),
            StageView::AwaitingPicturePrompt(meaning) => StepView::Next(
                FlowView { stage: StageView::AwaitingPicture(meaning), ..flow },
                CallView::GenImage(text),
            ),
            StageView::AwaitingPicture(meaning) => StepView::Next(
                FlowView { stage: StageView::AwaitingVoice(meaning, text), ..flow },
                CallView::Speak(meaning, Seq::empty()),
            ),
            StageView::AwaitingVoice(meaning, picture) => StepView::Done(
                Ok((picture, text, meaning)),
            ),
        },
    }
}

/// The texts of a call's outcome.
pub open spec fn answer_view(answer: Result<String, Error>) -> Result<Seq<char>, Error> {
    match answer {
        Ok(text) => Ok(text@),
        Err(e) => Err(e),
    }
}

impl WordCardFlow {
    /// Begins the flow for a word card: the first call asks for the explanation.
    pub fn start(request: WordCardRequest) -> (res: (WordCardFlow, AiCall))
        ensures
            (res.0@, res.1@) == spec_start(request.word@, request.part_of_speech@),
    {
        let mut prompt = String::new();
        prompt.append("Explain meaning of English word '");
        prompt.append(request.word.as_str());
        prompt.append("(");
        prompt.append(request.part_of_speech.as_str());
        prompt.append(
            ")' in 60 words. Provide examples. Use simple English and very simple vocabulary. Use plain formatting (not markdown).",
        );
        let flow = WordCardFlow {
            word: request.word,
            part_of_speech: request.part_of_speech,
            stage: WordCardStage::AwaitingMeaning,
        };
        (flow, AiCall::Ask { prompt })
    }

    /// Takes the outcome of the last call and says what comes next.
    pub fn step(self, answer: Result<String, Error>) -> (res: WordCardStep)
        ensures
            res@ == spec_step(self@, answer_view(answer)),
    {
        let text = match answer {
            Ok(text) => text,
            Err(e) => {
                return WordCardStep::Done(Err(internal_error_reply(&e)));
            },
        };
        let WordCardFlow { word, part_of_speech, stage } = self;
        match stage {
            WordCardStage::AwaitingMeaning => {
                let mut prompt = String::new();
                prompt.append(
                    "Extract one example from the given bellow definition that better fits for visualizing $",
                );
                prompt.append(part_of_speech.as_str());
                prompt.append(" English word '$");
                prompt.append(word.as_str());
                prompt.append(
                    "'. Give me extended 100 words description of a picture or photo of the extracted example. Do not provide the extracted example. Just give me the picture description. Definition: ",
                );
                prompt.append(text.as_str());
                let flow = WordCardFlow {
                    word,
                    part_of_speech,
                    stage: WordCardStage::AwaitingPicturePrompt { meaning: text },
                };
                WordCardStep::Next(flow, AiCall::Ask { prompt })
            },
            WordCardStage::AwaitingPicturePrompt { meaning } => {
                let flow = WordCardFlow {
                    word,
                    part_of_speech,
                    stage: WordCardStage::AwaitingPicture { meaning },
                };
                WordCardStep::Next(flow, AiCall::GenImage { prompt: text })
            },
            WordCardStage::AwaitingPicture { meaning } => {
                let call = AiCall::Speak { text: meaning.clone(), instructions: String::new() };
                let flow = WordCardFlow {
                    word,
                    part_of_speech,
                    stage: WordCardStage::AwaitingVoice { meaning, picture: text },
                };
                WordCardStep::Next(flow, call)
            },
            WordCardStage::AwaitingVoice { meaning, picture } => {
                WordCardStep::Done(
                    Ok(
                        WordCardResponse {
                            img_base64: picture,
                            voice_base64: text,
                            explanation: meaning,
                        },
                    ),
                )
            },
        }
    }
}


/// How many answers a stage has received.
pub open spec fn stage_rank(stage: StageView) -> nat {
    match stage {
        StageView::AwaitingMeaning => 0,
        StageView::AwaitingPicturePrompt(_) => 1,
        StageView::AwaitingPicture(_) => 2,
        StageView::AwaitingVoice(_, _) => 3,
    }
}

/// When every call succeeds, the flow makes exactly four calls (the
/// explanation, the picture description, the picture, the voice) and the card
/// holds the picture, the voice and the explanation.
pub proof fn lemma_word_card_success(
    word: Seq<char>,
    part_of_speech: Seq<char>,
    meaning: Seq<char>,
    description: Seq<char>,
    picture: Seq<char>,
    voice: Seq<char>,
)
    ensures
        ({
            let (f0, c0) = spec_start(word, part_of_speech);
            &&& c0 == CallView::Ask(meaning_prompt(word, part_of_speech))
            &&& spec_step(f0, Ok(meaning)) matches StepView::Next(f1, c1)
            &&& c1 == CallView::Ask(picture_prompt(word, part_of_speech, meaning))
            &&& spec_step(f1, Ok(description)) matches StepView::Next(f2, c2)
            &&& c2 == CallView::GenImage(description)
            &&& spec_step(f2, Ok(picture)) matches StepView::Next(f3, c3)
            &&& c3 == CallView::Speak(meaning, Seq::empty())
            &&& spec_step(f3, Ok(voice)) == StepView::Done(Ok((picture, voice, meaning)))
        }),
{
}

/// A failed call ends the flow at once, whatever stage it is in, with `500` and
/// the error's text.
pub proof fn lemma_word_card_failure(flow: FlowView, e: Error)
    ensures
        spec_step(flow, Err(e)) == StepView::Done(Err((500u16, e.text()))),
{
}

/// Each answer moves the flow one stage on and keeps its word and part of
/// speech, so no flow makes more than four calls.
pub proof fn lemma_word_card_progress(flow: FlowView, answer: Result<Seq<char>, Error>)
    ensures
        stage_rank(flow.stage) <= 3,
        spec_step(flow, answer) matches StepView::Next(next, _) ==> {
            &&& stage_rank(next.stage) == stage_rank(flow.stage) + 1
            &&& next.word == flow.word
            &&& next.part_of_speech == flow.part_of_speech
        },
{
}

/// The text that a call puts to the chat model, if it is a question.
pub open spec fn question_of(call: CallView) -> Option<Seq<char>> {
    match call {
        CallView::Ask(q) => Some(q),
        _ => None,
    }
}

/// The first question names the whole word and the whole part of speech: each
/// is put in at a place that does not depend on it, and nothing else of the
/// question changes with it.
pub proof fn lemma_first_question_keeps_request(word: Seq<char>, part_of_speech: Seq<char>)
    ensures
        question_of(spec_start(word, part_of_speech).1) is Some,
        holds_whole_at(
            question_of(spec_start(word, part_of_speech).1)->Some_0,
            question_of(spec_start(word, Seq::empty()).1)->Some_0,
            ("Explain meaning of English word '"@ + word + "("@).len() as int,
            part_of_speech,
        ),
        holds_whole_at(
            question_of(spec_start(word, part_of_speech).1)->Some_0,
            question_of(spec_start(Seq::empty(), part_of_speech).1)->Some_0,
            "Explain meaning of English word '"@.len() as int,
            word,
        ),
{
    let q = meaning_prompt(word, part_of_speech);
    let b1 = meaning_prompt(word, Seq::empty());
    let k1 = ("Explain meaning of English word '"@ + word + "("@).len() as int;
    assert(q =~= b1.take(k1) + part_of_speech + b1.skip(k1));
    let b2 = meaning_prompt(Seq::empty(), part_of_speech);
    let k2 = "Explain meaning of English word '"@.len() as int;
    assert(q =~= b2.take(k2) + word + b2.skip(k2));
}

/// Once the explanation `meaning` arrives, the next call is a question that
/// ends with the whole of `meaning`: it is the question that an empty
/// explanation would give, followed by `meaning`, uncut.
pub proof fn lemma_picture_question_keeps_explanation(flow: FlowView, meaning: Seq<char>)
    requires
        flow.stage is AwaitingMeaning,
    ensures
        spec_step(flow, Ok(meaning)) is Next,
        spec_step(flow, Ok(Seq::empty())) is Next,
        question_of(spec_step(flow, Ok(meaning))->Next_1) is Some,
        question_of(spec_step(flow, Ok(Seq::empty()))->Next_1) is Some,
        ends_with_whole(
            question_of(spec_step(flow, Ok(meaning))->Next_1)->Some_0,
            question_of(spec_step(flow, Ok(Seq::empty()))->Next_1)->Some_0,
            meaning,
        ),
{
    let q = picture_prompt(flow.word, flow.part_of_speech, meaning);
    let q0 = picture_prompt(flow.word, flow.part_of_speech, Seq::empty());
    assert(q.take(q0.len() as int) =~= q0);
    assert(q.skip(q0.len() as int) =~= meaning);
}

/// The picture question names the whole part of speech and the whole word, each
/// at a place that does not depend on it.
pub proof fn lemma_picture_question_keeps_request(
    word: Seq<char>,
    part_of_speech: Seq<char>,
    meaning: Seq<char>,
)
    ensures
        holds_whole_at(
            picture_prompt(word, part_of_speech, meaning),
            picture_prompt(word, Seq::empty(), meaning),
            "Extract one example from the given bellow definition that better fits for visualizing $"@.len() as int,
            part_of_speech,
        ),
        holds_whole_at(
            picture_prompt(word, part_of_speech, meaning),
            picture_prompt(Seq::empty(), part_of_speech, meaning),
            ("Extract one example from the given bellow definition that better fits for visualizing $"@
                + part_of_speech + " English word '$"@).len() as int,
            word,
        ),
{
    let q = picture_prompt(word, part_of_speech, meaning);
    let b1 = picture_prompt(word, Seq::empty(), meaning);
    let k1 = "Extract one example from the given bellow definition that better fits for visualizing $"@.len() as int;
    assert(q =~= b1.take(k1) + part_of_speech + b1.skip(k1));
    let b2 = picture_prompt(Seq::empty(), part_of_speech, meaning);
    let k2 = ("Extract one example from the given bellow definition that better fits for visualizing $"@
        + part_of_speech + " English word '$"@).len() as int;
    assert(q =~= b2.take(k2) + word + b2.skip(k2));
}

} // verus!
