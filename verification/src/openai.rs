//! What is asked of the language model and how its answers are read.
use vstd::prelude::*;
use crate::domain::Error;
use crate::text::{ends_with_whole, holds_whole_at};

verus! {

/// The text of an optional string.
pub open spec fn opt_text(o: Option<String>) -> Option<Seq<char>> {
    match o {
        Some(s) => Some(s@),
        None => None,
    }
}

/// The texts of a list of strings.
pub open spec fn texts(v: Seq<String>) -> Seq<Seq<char>> {
    v.map_values(|s: String| s@)
}

/// The texts of an optional list of strings.
pub open spec fn opt_texts(o: Option<Vec<String>>) -> Option<Seq<Seq<char>>> {
    match o {
        Some(v) => Some(texts(v@)),
        None => None,
    }
}

/// One property of an object schema: its name, and optionally its JSON type,
/// the values it may take and a description for the model.
#[derive(Debug, Clone)]
pub struct PropertySchema {
    pub name: String,
    pub value_type: Option<String>,
    pub choices: Option<Vec<String>>,
    pub description: Option<String>,
}

/// A JSON schema of type `object`.
#[derive(Debug, Clone)]
pub struct ObjectSchema {
    pub properties: Vec<PropertySchema>,
    pub required: Vec<String>,
    pub additional_properties: bool,
}

/// A named JSON schema that the model's answer must follow.
#[derive(Debug, Clone)]
pub struct JsonSchemaFormat {
    pub name: String,
    pub description: Option<String>,
    pub strict: Option<bool>,
    pub schema: ObjectSchema,
}

/// The shape asked of the model's answer.
#[derive(Debug, Clone)]
pub enum ResponseFormat {
    /// Nothing is asked; the service decides.
    Unspecified,
    /// Plain text.
    Text,
    /// JSON that follows a schema.
    JsonSchema(JsonSchemaFormat),
}

/// A chat completion request holding one user message.
#[derive(Debug, Clone)]
pub struct ChatRequest {
    pub model: String,
    pub user_message: String,
    pub response_format: ResponseFormat,
    pub max_tokens: Option<u16>,
}

/// Text-to-speech models.
#[derive(Debug, Clone, Copy, PartialEq, Eq)]
pub enum SpeechModel {
    Tts1,
}

/// Voices of the text-to-speech service.
#[derive(Debug, Clone, Copy, PartialEq, Eq)]
pub enum Voice {
    Alloy,
}

/// A text-to-speech request.
#[derive(Debug, Clone)]
pub struct SpeechRequest {
    pub model: SpeechModel,
    pub voice: Voice,
    pub input: String,
    pub instructions: String,
}

/// Image qualities.
#[derive(Debug, Clone, Copy, PartialEq, Eq)]
pub enum ImageQuality {
    Medium,
}

/// Image sizes.
#[derive(Debug, Clone, Copy, PartialEq, Eq)]
pub enum ImageSize {
    S1024x1024,
}

/// An image generation request.
#[derive(Debug, Clone)]
pub struct ImageRequest {
    pub prompt: String,
    pub n: u8,
    pub model: String,
    pub quality: ImageQuality,
    pub size: ImageSize,
    pub user: String,
}

/// One generated image as the service returns it.
#[derive(Debug, Clone, PartialEq, Eq)]
pub enum ImageData {
    /// Where the image can be fetched.
    Url(String),
    /// The image itself, Base64-encoded.
    B64Json(String),
}

/// `p` is a property with the given name, type, allowed values and description.
pub open spec fn property_is(
    p: PropertySchema,
    name: Seq<char>,
    value_type: Option<Seq<char>>,
    choices: Option<Seq<Seq<char>>>,
    description: Option<Seq<char>>,
) -> bool {
    &&& p.name@ == name
    &&& opt_text(p.value_type) == value_type
    &&& opt_texts(p.choices) == choices
    &&& opt_text(p.description) == description
}

/// The user message that asks for the base form and part of speech of `word`.
pub open spec fn explain_word_prompt(word: Seq<char>, context: Seq<char>) -> Seq<char> {
    "Give me a bare infinitive form for '"@ + word
        + "' along with the identified part of speech. If this is phrasal verb then prioritize it over verb part of speech. The context where this text was taken from: \n+"@
        + context
}

/// The description of the `word_or_phrase` property.
pub open spec fn base_form_description(word: Seq<char>) -> Seq<char> {
    "Bare Infinitive form for word or phrasal verb '"@ + word + "' "@
}

/// The description of the `attached_word_meaning_native` property.
pub open spec fn native_meaning_description(native_language: Seq<char>) -> Seq<char> {
    "Translation to "@ + native_language + " or brief meaning in "@ + native_language + "."@
}

/// The schema that an explanation of a word must follow.
pub open spec fn is_explain_word_schema(
    s: ObjectSchema,
    word: Seq<char>,
    native_language: Seq<char>,
    parts_of_speech: Seq<Seq<char>>,
) -> bool {
    &&& s.properties@.len() == 4
    &&& property_is(
        s.properties@[0],
        "word_or_phrase"@,
        Some("string"@),
        None,
        Some(base_form_description(word)),
    )
    &&& property_is(
        s.properties@[1],
        "part_of_speech"@,
        Some("string"@),
        Some(parts_of_speech),
        Some("Identified part of speech of the word"@),
    )
    &&& property_is(
        s.properties@[2],
        "attached_word_meaning"@,
        Some("string"@),
        None,
        Some("Brief meaning of the word."@),
    )
    &&& property_is(
        s.properties@[3],
        "attached_word_meaning_native"@,
        Some("string"@),
        None,
        Some(native_meaning_description(native_language)),
    )
    &&& texts(s.required@) == seq![
        "word_or_phrase"@,
        "part_of_speech"@,
        "attached_word_meaning"@,
        "attached_word_meaning_native"@,
    ]
    &&& !s.additional_properties
}

/// `f` is the strict schema format named `name` with no description.
pub open spec fn is_strict_format(f: ResponseFormat, name: Seq<char>) -> bool {
    &&& f is JsonSchema
    &&& f->JsonSchema_0.name@ == name
    &&& f->JsonSchema_0.description is None
    &&& f->JsonSchema_0.strict == Some(true)
}

fn owned(s: &str) -> (res: String)
    ensures
        res@ == s@,
{
    s.to_owned()
}

fn concat3(a: &str, b: &str, c: &str) -> (res: String)
    ensures
        res@ == a@ + b@ + c@,
{
    let mut res = String::new();
    res.append(a);
    res.append(b);
    res.append(c);
    res
}

fn property(
    name: &str,
    value_type: Option<String>,
    choices: Option<Vec<String>>,
    description: String,
) -> (res: PropertySchema)
    ensures
        res.name@ == name@,
        res.value_type == value_type,
        res.choices == choices,
        res.description == Some(description),
{
    PropertySchema { name: owned(name), value_type, choices, description: Some(description) }
}

/// Whether no text occurs twice in `v`.
pub fn distinct_texts(v: &Vec<String>) -> (res: bool)
    ensures
        res == texts(v@).no_duplicates(),
{
    let n = v.len();
    let mut i: usize = 0;
    while i < n
        invariant
            n == v@.len(),
            i <= n,
            forall|a: int, b: int|
                0 <= a < i && 0 <= b < n && a != b ==> #[trigger] v@[a]@ != #[trigger] v@[b]@,
        decreases n - i,
    {
        let mut j: usize = 0;
        while j < n
            invariant
                n == v@.len(),
                i < n,
                j <= n,
                forall|a: int, b: int|
                    0 <= a < i && 0 <= b < n && a != b ==> #[trigger] v@[a]@ != #[trigger] v@[b]@,
                forall|b: int| 0 <= b < j && b != i ==> v@[i as int]@ != #[trigger] v@[b]@,
            decreases n - j,
        {
            if j != i && crate::text::same_text(v[i].as_str(), v[j].as_str()) {
                assert(texts(v@)[i as int] == texts(v@)[j as int]);
                return false;
            }
            j = j + 1;
        }
        i = i + 1;
    }
    assert forall|a: int, b: int|
        0 <= a < texts(v@).len() && 0 <= b < texts(v@).len() && a != b implies texts(v@)[a]
        != texts(v@)[b] by {
        assert(v@[a]@ != v@[b]@);
    }
    true
}

/// The request that asks the model to explain `word`, seen in `context`, and to
/// translate its meaning into `native_language`. The answer must be JSON whose
/// part of speech is one of `parts_of_speech`, which names each part once.
pub fn explain_word_request(
    word: &str,
    context: &str,
    native_language: &str,
    parts_of_speech: Vec<String>,
) -> (res: ChatRequest)
    requires
        texts(parts_of_speech@).no_duplicates(),
    ensures
        res.model@ == "gpt-4.1"@,
        res.user_message@ == explain_word_prompt(word@, context@),
        res.max_tokens is None,
        is_strict_format(res.response_format, "explain_word"@),
        is_explain_word_schema(
            res.response_format->JsonSchema_0.schema,
            word@,
            native_language@,
            texts(parts_of_speech@),
        ),
{
    let ghost parts = texts(parts_of_speech@);
    let p0 = property(
        "word_or_phrase",
        Some(owned("string")),
        None,
        concat3("Bare Infinitive form for word or phrasal verb '", word, "' "),
    );
    let p1 = property(
        "part_of_speech",
        Some(owned("string")),
        Some(parts_of_speech),
        owned("Identified part of speech of the word"),
    );
    let p2 = property(
        "attached_word_meaning",
        Some(owned("string")),
        None,
        owned("Brief meaning of the word."),
    );
    let mut native = concat3("Translation to ", native_language, " or brief meaning in ");
    native.append(native_language);
    native.append(".");
    let p3 = property("attached_word_meaning_native", Some(owned("string")), None, native);
    let required = vec![
        owned("word_or_phrase"),
        owned("part_of_speech"),
        owned("attached_word_meaning"),
        owned("attached_word_meaning_native"),
    ];
    let properties = vec![p0, p1, p2, p3];
    let schema = ObjectSchema { properties, required, additional_properties: false };
    assert(texts(schema.required@) =~= seq![
        "word_or_phrase"@,
        "part_of_speech"@,
        "attached_word_meaning"@,
        "attached_word_meaning_native"@,
    ]);
    let format = JsonSchemaFormat {
        name: owned("explain_word"),
        description: None,
        strict: Some(true),
        schema,
    };
    let mut message = concat3("Give me a bare infinitive form for '", word, "' along with the identified part of speech. If this is phrasal verb then prioritize it over verb part of speech. The context where this text was taken from: \n+");
    message.append(context);
    ChatRequest {
        model: owned("gpt-4.1"),
        user_message: message,
        response_format: ResponseFormat::JsonSchema(format),
        max_tokens: None,
    }
}


/// The user message that asks for the CEFR level of `word`.
pub open spec fn cefr_prompt(word: Seq<char>, part_of_speech: Seq<char>) -> Seq<char> {
    "Guess CERF english level for word '"@ + word + "'(part of speech: "@ + part_of_speech + ")"@
}

/// The CEFR levels that an answer may name, from lowest to highest.
pub open spec fn cefr_levels() -> Seq<Seq<char>> {
    seq!["A1"@, "A2"@, "B1"@, "B2"@, "C1"@, "C2"@]
}

/// The schema that a CEFR level answer must follow.
pub open spec fn is_cefr_schema(s: ObjectSchema) -> bool {
    &&& s.properties@.len() == 1
    &&& property_is(s.properties@[0], "level"@, None, Some(cefr_levels()), Some("CEFR level"@))
    &&& texts(s.required@) == seq!["level"@]
    &&& !s.additional_properties
}

/// The request that asks the model for the CEFR level of `word`, used as
/// `part_of_speech`. The answer must be JSON naming one of the six levels.
pub fn cefr_word_level_request(word: &str, part_of_speech: &str) -> (res: ChatRequest)
    ensures
        res.model@ == "gpt-4.1"@,
        res.user_message@ == cefr_prompt(word@, part_of_speech@),
        res.max_tokens is None,
        is_strict_format(res.response_format, "explain_word"@),
        is_cefr_schema(res.response_format->JsonSchema_0.schema),
{
    let levels = vec![owned("A1"), owned("A2"), owned("B1"), owned("B2"), owned("C1"), owned("C2")];
    assert(texts(levels@) =~= cefr_levels());
    let level = property("level", None, Some(levels), owned("CEFR level"));
    let required = vec![owned("level")];
    assert(texts(required@) =~= seq!["level"@]);
    let schema = ObjectSchema { properties: vec![level], required, additional_properties: false };
    let format = JsonSchemaFormat {
        name: owned("explain_word"),
        description: None,
        strict: Some(true),
        schema,
    };
    let mut message = concat3("Guess CERF english level for word '", word, "'(part of speech: ");
    message.append(part_of_speech);
    message.append(")");
    ChatRequest {
        model: owned("gpt-4.1"),
        user_message: message,
        response_format: ResponseFormat::JsonSchema(format),
        max_tokens: None,
    }
}

/// The request that puts `prompt` to the model as it stands, asking for plain text.
pub fn ask_request(prompt: &str) -> (res: ChatRequest)
    ensures
        res.model@ == "gpt-4.1"@,
        res.user_message@ == prompt@,
        res.response_format is Text,
        res.max_tokens is None,
{
    ChatRequest {
        model: owned("gpt-4.1"),
        user_message: owned(prompt),
        response_format: ResponseFormat::Text,
        max_tokens: None,
    }
}

/// The request that has `text` spoken by the `alloy` voice of `tts-1`, following
/// `instructions`.
pub fn speech_request(text: &str, instructions: &str) -> (res: SpeechRequest)
    ensures
        res.model == SpeechModel::Tts1,
        res.voice == Voice::Alloy,
        res.input@ == text@,
        res.instructions@ == instructions@,
{
    SpeechRequest {
        model: SpeechModel::Tts1,
        voice: Voice::Alloy,
        input: owned(text),
        instructions: owned(instructions),
    }
}

/// The request for one medium-quality 1024x1024 picture of `prompt` from
/// `gpt-image-1`.
pub fn image_request(prompt: &str) -> (res: ImageRequest)
    ensures
        res.prompt@ == prompt@,
        res.n == 1,
        res.model@ == "gpt-image-1"@,
        res.quality == ImageQuality::Medium,
        res.size == ImageSize::S1024x1024,
        res.user@ == "async-openai"@,
{
    ImageRequest {
        prompt: owned(prompt),
        n: 1,
        model: owned("gpt-image-1"),
        quality: ImageQuality::Medium,
        size: ImageSize::S1024x1024,
        user: owned("async-openai"),
    }
}

/// `e` is the AI error with message `msg`.
pub open spec fn is_ai_error(e: Error, msg: Seq<char>) -> bool {
    e matches Error::AiError(m) && m@ == msg
}

/// Reads the model's answer, given the content of each choice in order: the
/// content of the first choice. It fails with `AiError("No content in result")`
/// when there is no choice or the first one holds no content; later choices are
/// never looked at.
pub fn chat_content(choices: Vec<Option<String>>) -> (res: Result<String, Error>)
    ensures
        choices@.len() > 0 && choices@[0] is Some ==> res == Ok::<String, Error>(choices@[0]->Some_0),
        !(choices@.len() > 0 && choices@[0] is Some) ==> res is Err && is_ai_error(
            res->Err_0,
            "No content in result"@,
        ),
{
    let mut choices = choices;
    if choices.len() > 0 {
        let first = choices.remove(0);
        if let Some(content) = first {
            return Ok(content);
        }
    }
    Err(Error::AiError(owned("No content in result")))
}

/// Reads the answer of the image service: the first image, which must be
/// Base64-encoded; `AiError("No images returned")` when there is none.
pub fn first_image_base64(images: Vec<ImageData>) -> (res: Result<String, Error>)
    requires
        images@.len() == 0 || images@[0] is B64Json,
    ensures
        images@.len() > 0 ==> res == Ok::<String, Error>(images@[0]->B64Json_0),
        images@.len() == 0 ==> res is Err && is_ai_error(res->Err_0, "No images returned"@),
{
    let mut images = images;
    if images.len() == 0 {
        return Err(Error::AiError(owned("No images returned")));
    }
    match images.remove(0) {
        ImageData::B64Json(data) => Ok(data),
        ImageData::Url(_) => unreached(),
    }
}

/// The explanation question carries the whole context at its end: for every
/// context it is the question asked with no context, followed by the context.
pub proof fn lemma_explain_prompt_keeps_context(word: Seq<char>, context: Seq<char>)
    ensures
        ends_with_whole(
            explain_word_prompt(word, context),
            explain_word_prompt(word, Seq::empty()),
            context,
        ),
{
    let base = explain_word_prompt(word, Seq::empty());
    let full = explain_word_prompt(word, context);
    assert(base =~= explain_word_prompt(word, context).take(base.len() as int));
    assert(full.skip(base.len() as int) =~= context);
}

/// The explanation question carries the whole word, right after the opening
/// quote, whatever the context.
pub proof fn lemma_explain_prompt_keeps_word(word: Seq<char>, context: Seq<char>)
    ensures
        holds_whole_at(
            explain_word_prompt(word, context),
            explain_word_prompt(Seq::empty(), context),
            "Give me a bare infinitive form for '"@.len() as int,
            word,
        ),
{
    let base = explain_word_prompt(Seq::empty(), context);
    let k = "Give me a bare infinitive form for '"@.len() as int;
    assert(explain_word_prompt(word, context) =~= base.take(k) + word + base.skip(k));
}

/// The CEFR question names the whole part of speech, at the same place for
/// every part of speech, and the whole word, at the same place for every word.
pub proof fn lemma_cefr_prompt_keeps_arguments(word: Seq<char>, part_of_speech: Seq<char>)
    ensures
        holds_whole_at(
            cefr_prompt(word, part_of_speech),
            cefr_prompt(word, Seq::empty()),
            cefr_prompt(word, Seq::empty()).len() - 1,
            part_of_speech,
        ),
        holds_whole_at(
            cefr_prompt(word, part_of_speech),
            cefr_prompt(Seq::empty(), part_of_speech),
            "Guess CERF english level for word '"@.len() as int,
            word,
        ),
{
    let base = cefr_prompt(word, Seq::empty());
    let k = base.len() - 1;
    assert(")"@.len() == 1) by {
        reveal_strlit(")");
    }
    assert(cefr_prompt(word, part_of_speech) =~= base.take(k) + part_of_speech + base.skip(k));
    let base2 = cefr_prompt(Seq::empty(), part_of_speech);
    let k2 = "Guess CERF english level for word '"@.len() as int;
    assert(cefr_prompt(word, part_of_speech) =~= base2.take(k2) + word + base2.skip(k2));
}

/// The description of the base form holds the whole word, after the opening quote.
pub proof fn lemma_base_form_description_keeps_word(word: Seq<char>)
    ensures
        holds_whole_at(
            base_form_description(word),
            base_form_description(Seq::empty()),
            "Bare Infinitive form for word or phrasal verb '"@.len() as int,
            word,
        ),
{
    let base = base_form_description(Seq::empty());
    let k = "Bare Infinitive form for word or phrasal verb '"@.len() as int;
    assert(base_form_description(word) =~= base.take(k) + word + base.skip(k));
}

/// The description of the translation names the whole native language twice:
/// once after "Translation to " and once before the final full stop.
pub proof fn lemma_native_description_keeps_language(language: Seq<char>)
    ensures
        native_meaning_description(language).len()
            == native_meaning_description(Seq::empty()).len() + 2 * language.len(),
        native_meaning_description(language).subrange(
            "Translation to "@.len() as int,
            ("Translation to "@.len() + language.len()) as int,
        ) == language,
        native_meaning_description(language).subrange(
            native_meaning_description(language).len() - 1 - language.len(),
            native_meaning_description(language).len() - 1,
        ) == language,
{
    let full = native_meaning_description(language);
    let a = "Translation to "@;
    let b = " or brief meaning in "@;
    let c = "."@;
    assert(c.len() == 1) by {
        reveal_strlit(".");
    }
    assert(full =~= a + language + b + language + c);
    assert(full.subrange(a.len() as int, (a.len() + language.len()) as int) =~= language);
    assert(full.subrange(full.len() - 1 - language.len(), full.len() - 1) =~= language);
}

} // verus!
