use base64::Engine;
use word_tutor::codec::{decode_text, speech_base64};
use word_tutor::domain::{Error, ExplainWordOutput, GuessCefrWordLevelOutput};
use word_tutor::endpoints::{
    cefr_reply, explain_word_reply, fallback_reply, internal_error_reply, parts_of_speech,
    tts_reply, ErrorReply,
};
use word_tutor::gateway::{
    body_from_bytes, json_reply, lambda_route, not_found_reply, routed_path, stage_of,
    strip_stage, text_reply, GatewayContext, LambdaBody, LambdaRoute,
};
use word_tutor::grpc;
use word_tutor::grpc_services::{menu_failure_reply, status_error_reply, RestaurantServiceImp};
use word_tutor::http_handler::{is_served_path, recipe_request};
use word_tutor::openai::{
    distinct_texts, ask_request, cefr_word_level_request, chat_content, explain_word_request,
    first_image_base64, image_request, speech_request, ImageData, ImageQuality, ImageSize,
    ResponseFormat, SpeechModel, Voice,
};
use word_tutor::routes::{axum_routes, route_for};
use word_tutor::text::{same_text, starts_with_text, strip_prefix_text};
use word_tutor::transport::{
    ExplainWordResponse, InternalErrorResponse, MenuRequest, TtsResponse, WordCardRequest,
    WordCardResponse,
};
use word_tutor::word_card::{AiCall, WordCardFlow, WordCardStep};

#[test]
fn error_text_names_its_kind() {
    assert_eq!(Error::AiError("boom".to_string()).to_string(), "AI error: boom");
    assert_eq!(Error::GeneralError("bad json".to_string()).to_string(), "General error: bad json");
}

#[test]
fn explanation_fields_carry_over() {
    let out = ExplainWordOutput {
        word_or_phrase: "give up".to_string(),
        part_of_speech: "phrasal verb".to_string(),
        attached_word_meaning: "stop trying".to_string(),
        attached_word_meaning_native: "aufgeben".to_string(),
    };
    let resp = ExplainWordResponse::from(out);
    assert_eq!(resp.word_or_phrase, "give up");
    assert_eq!(resp.part_of_speech, "phrasal verb");
    assert_eq!(resp.attached_word_meaning, "stop trying");
    assert_eq!(resp.attached_word_meaning_native, "aufgeben");
}

#[test]
fn explain_word_request_holds_prompt_and_schema() {
    let req = explain_word_request("ran", "He ran home.", "German", parts_of_speech());
    assert_eq!(req.model, "gpt-4.1");
    assert_eq!(
        req.user_message,
        "Give me a bare infinitive form for 'ran' along with the identified part of speech. If this is phrasal verb then prioritize it over verb part of speech. The context where this text was taken from: \n+He ran home."
    );
    assert_eq!(req.max_tokens, None);
    let f = match req.response_format {
        ResponseFormat::JsonSchema(f) => f,
        _ => panic!("expected a schema"),
    };
    assert_eq!(f.name, "explain_word");
    assert_eq!(f.strict, Some(true));
    assert_eq!(f.description, None);
    let props = &f.schema.properties;
    assert_eq!(props.len(), 4);
    assert_eq!(props[0].name, "word_or_phrase");
    assert_eq!(props[0].value_type.as_deref(), Some("string"));
    assert_eq!(
        props[0].description.as_deref(),
        Some("Bare Infinitive form for word or phrasal verb 'ran' ")
    );
    assert_eq!(props[1].name, "part_of_speech");
    assert_eq!(props[1].choices.as_ref().map(|c| c.len()), Some(10));
    assert_eq!(props[2].description.as_deref(), Some("Brief meaning of the word."));
    assert_eq!(
        props[3].description.as_deref(),
        Some("Translation to German or brief meaning in German.")
    );
    assert_eq!(
        f.schema.required,
        vec!["word_or_phrase", "part_of_speech", "attached_word_meaning", "attached_word_meaning_native"]
    );
    assert!(!f.schema.additional_properties);
}

#[test]
fn parts_of_speech_are_distinct() {
    let parts = parts_of_speech();
    assert_eq!(parts.len(), 10);
    for i in 0..parts.len() {
        for j in (i + 1)..parts.len() {
            assert_ne!(parts[i], parts[j]);
        }
    }
    assert!(parts.iter().any(|p| p == "phrasal verb"));
}

#[test]
fn cefr_request_lists_six_levels() {
    let req = cefr_word_level_request("serendipity", "noun");
    assert_eq!(
        req.user_message,
        "Guess CERF english level for word 'serendipity'(part of speech: noun)"
    );
    let f = match req.response_format {
        ResponseFormat::JsonSchema(f) => f,
        _ => panic!("expected a schema"),
    };
    assert_eq!(f.name, "explain_word");
    assert_eq!(f.schema.properties.len(), 1);
    assert_eq!(f.schema.properties[0].name, "level");
    assert_eq!(f.schema.properties[0].value_type, None);
    assert_eq!(
        f.schema.properties[0].choices,
        Some(vec!["A1".to_string(), "A2".into(), "B1".into(), "B2".into(), "C1".into(), "C2".into()])
    );
    assert_eq!(f.schema.required, vec!["level".to_string()]);
}

#[test]
fn ask_speech_image_and_recipe_requests() {
    let ask = ask_request("Hi there");
    assert_eq!(ask.user_message, "Hi there");
    assert!(matches!(ask.response_format, ResponseFormat::Text));
    let speech = speech_request("hello", "slowly");
    assert_eq!(speech.model, SpeechModel::Tts1);
    assert_eq!(speech.voice, Voice::Alloy);
    assert_eq!(speech.input, "hello");
    assert_eq!(speech.instructions, "slowly");
    let image = image_request("a cat");
    assert_eq!(image.prompt, "a cat");
    assert_eq!(image.n, 1);
    assert_eq!(image.model, "gpt-image-1");
    assert_eq!(image.quality, ImageQuality::Medium);
    assert_eq!(image.size, ImageSize::S1024x1024);
    assert_eq!(image.user, "async-openai");
    let recipe = recipe_request();
    assert_eq!(recipe.model, "gpt-4");
    assert_eq!(recipe.user_message, "Give me a recipe of shrimps");
    assert_eq!(recipe.max_tokens, Some(300));
    assert!(matches!(recipe.response_format, ResponseFormat::Unspecified));
}

#[test]
fn chat_content_takes_first_choice() {
    assert_eq!(
        chat_content(vec![Some("first".to_string()), Some("second".to_string())]),
        Ok("first".to_string())
    );
    assert_eq!(
        chat_content(vec![]),
        Err(Error::AiError("No content in result".to_string()))
    );
    assert_eq!(
        chat_content(vec![None, Some("second".to_string())]),
        Err(Error::AiError("No content in result".to_string()))
    );
}

#[test]
fn first_image_or_error() {
    assert_eq!(
        first_image_base64(vec![ImageData::B64Json("AAAA".to_string()), ImageData::Url("u".into())]),
        Ok("AAAA".to_string())
    );
    assert_eq!(
        first_image_base64(vec![]),
        Err(Error::AiError("No images returned".to_string()))
    );
}

#[test]
fn speech_is_standard_base64() {
    assert_eq!(speech_base64(b""), "");
    assert_eq!(speech_base64(b"f"), "Zg==");
    assert_eq!(speech_base64(b"fo"), "Zm8=");
    assert_eq!(speech_base64(b"foo"), "Zm9v");
    assert_eq!(speech_base64(b"hello"), "aGVsbG8=");
    assert_eq!(speech_base64(&[0xfb, 0xff]), "+/8=");
    let s = speech_base64(&[1, 2, 3, 4, 5, 6, 7]);
    assert_eq!(s.len(), 12);
    assert!(s.chars().all(|c| c.is_ascii_alphanumeric() || c == '+' || c == '/' || c == '='));
}

#[test]
fn utf8_decoding() {
    assert_eq!(decode_text("héllo".as_bytes()), Some("héllo".to_string()));
    assert_eq!(decode_text(&[0xff, 0xfe]), None);
}

#[test]
fn text_helpers() {
    assert!(same_text("abc", "abc"));
    assert!(!same_text("abc", "abd"));
    assert!(!same_text("abc", "ab"));
    assert!(starts_with_text("/prod/x", "/prod"));
    assert!(!starts_with_text("/pr", "/prod"));
    assert_eq!(strip_prefix_text("/prod/x", "/prod"), Some("/x".to_string()));
    assert_eq!(strip_prefix_text("/dev/x", "/prod"), None);
    assert_eq!(strip_prefix_text("é/x", "é"), Some("/x".to_string()));
}

#[test]
fn stage_is_stripped_from_path() {
    assert_eq!(strip_stage("/prod/explain-word", "prod"), "/explain-word");
    assert_eq!(strip_stage("/explain-word", ""), "/explain-word");
    assert_eq!(strip_stage("/dev/explain-word", "prod"), "/dev/explain-word");
    assert_eq!(strip_stage("/prodx/a", "prod"), "x/a");
    let v2 = GatewayContext::ApiGatewayV2 { stage: Some("prod".to_string()) };
    let v1 = GatewayContext::ApiGatewayV1 { stage: None };
    assert_eq!(stage_of(&v2), "prod");
    assert_eq!(stage_of(&v1), "");
    assert_eq!(stage_of(&GatewayContext::Other), "");
    assert_eq!(routed_path(&v2, "/prod/word-card"), "/word-card");
    assert_eq!(routed_path(&GatewayContext::Other, "/prod/word-card"), "/prod/word-card");
}

#[test]
fn body_classification() {
    assert_eq!(body_from_bytes(vec![]), LambdaBody::Empty);
    assert_eq!(body_from_bytes(b"{\"a\":1}".to_vec()), LambdaBody::Text("{\"a\":1}".to_string()));
    assert_eq!(body_from_bytes(vec![0xc3, 0x28]), LambdaBody::Binary(vec![0xc3, 0x28]));
}

#[test]
fn lambda_routes_and_replies() {
    assert_eq!(lambda_route("POST", "/menu"), LambdaRoute::Menu);
    assert_eq!(lambda_route("GET", "/menu"), LambdaRoute::NotFound);
    assert_eq!(lambda_route("POST", "/menus"), LambdaRoute::NotFound);
    let nf = not_found_reply();
    assert_eq!(nf.status, 404);
    assert_eq!(nf.content_type, None);
    assert_eq!(nf.body, "Not Found");
    let js = json_reply("{}".to_string());
    assert_eq!(js.status, 200);
    assert_eq!(js.content_type.as_deref(), Some("application/json"));
    assert_eq!(js.body, "{}");
    let tx = text_reply("recipe".to_string());
    assert_eq!(tx.content_type.as_deref(), Some("text/plain"));
    assert_eq!(tx.body, "recipe");
}

#[test]
fn endpoint_replies() {
    let err = Error::AiError("down".to_string());
    assert_eq!(
        internal_error_reply(&err),
        ErrorReply { status: 500, message: "AI error: down".to_string() }
    );
    assert_eq!(
        fallback_reply("/nope"),
        ErrorReply { status: 404, message: "No route for /nope".to_string() }
    );
    assert_eq!(
        tts_reply(Ok("QUJD".to_string())),
        Ok(TtsResponse { base64_data: "QUJD".to_string() })
    );
    assert_eq!(
        tts_reply(Err(Error::GeneralError("x".to_string()))),
        Err(ErrorReply { status: 500, message: "General error: x".to_string() })
    );
    let level = cefr_reply(Ok(GuessCefrWordLevelOutput { level: "B2".to_string() })).unwrap();
    assert_eq!(level.level, "B2");
    assert!(explain_word_reply(Err(err)).is_err());
}

#[test]
fn word_card_flow_runs_four_calls() {
    let (flow, call) = WordCardFlow::start(WordCardRequest {
        word: "run".to_string(),
        part_of_speech: "verb".to_string(),
    });
    assert_eq!(
        call,
        AiCall::Ask {
            prompt: "Explain meaning of English word 'run(verb)' in 60 words. Provide examples. Use simple English and very simple vocabulary. Use plain formatting (not markdown).".to_string()
        }
    );
    let (flow, call) = match flow.step(Ok("to move fast".to_string())) {
        WordCardStep::Next(f, c) => (f, c),
        other => panic!("unexpected {:?}", other),
    };
    assert_eq!(
        call,
        AiCall::Ask {
            prompt: "Extract one example from the given bellow definition that better fits for visualizing $verb English word '$run'. Give me extended 100 words description of a picture or photo of the extracted example. Do not provide the extracted example. Just give me the picture description. Definition: to move fast".to_string()
        }
    );
    let (flow, call) = match flow.step(Ok("a boy running".to_string())) {
        WordCardStep::Next(f, c) => (f, c),
        other => panic!("unexpected {:?}", other),
    };
    assert_eq!(call, AiCall::GenImage { prompt: "a boy running".to_string() });
    let (flow, call) = match flow.step(Ok("IMG".to_string())) {
        WordCardStep::Next(f, c) => (f, c),
        other => panic!("unexpected {:?}", other),
    };
    assert_eq!(
        call,
        AiCall::Speak { text: "to move fast".to_string(), instructions: String::new() }
    );
    assert_eq!(
        flow.step(Ok("VOICE".to_string())),
        WordCardStep::Done(Ok(WordCardResponse {
            img_base64: "IMG".to_string(),
            voice_base64: "VOICE".to_string(),
            explanation: "to move fast".to_string(),
        }))
    );
}

#[test]
fn word_card_flow_stops_on_failure() {
    let (flow, _) = WordCardFlow::start(WordCardRequest {
        word: "run".to_string(),
        part_of_speech: "verb".to_string(),
    });
    let (flow, _) = match flow.step(Ok("to move fast".to_string())) {
        WordCardStep::Next(f, c) => (f, c),
        other => panic!("unexpected {:?}", other),
    };
    assert_eq!(
        flow.step(Err(Error::AiError("quota".to_string()))),
        WordCardStep::Done(Err(ErrorReply { status: 500, message: "AI error: quota".to_string() }))
    );
}

#[test]
fn menus() {
    let menu = RestaurantServiceImp::default().get_menu(&MenuRequest {});
    assert_eq!(menu.items.len(), 1);
    assert_eq!(menu.items[0].name.as_deref(), Some("Pizza"));
    assert_eq!(menu.items[0].price_cents, 1000);
    assert!(grpc::RestaurantServiceImp::default().get_menu(&MenuRequest {}).items.is_empty());
}

#[test]
fn menu_failures_name_the_status() {
    let reply = status_error_reply(
        &InternalErrorResponse { error_message: "oops".to_string() },
        "Internal error",
    );
    assert_eq!(reply.status, 500);
    assert_eq!(reply.message, "Error: oops. Status code: Internal error");
    let reply = menu_failure_reply(5);
    assert_eq!(reply.message, "Error: oops. Status code: Some requested entity was not found");
}

#[test]
fn served_paths() {
    assert!(is_served_path("/path1"));
    assert!(is_served_path("/path2"));
    assert!(!is_served_path("/path3"));
}

#[test]
fn routes_use_snake_case_names() {
    let routes = axum_routes("RestaurantService");
    assert_eq!(routes.len(), 2);
    assert_eq!(routes[0].path, "/restaurant_service/get_menu");
    assert_eq!(routes[0].handler_name, "get_menu_handler");
    assert_eq!(routes[0].request_type, "MenuRequest");
    assert_eq!(routes[1].path, "/restaurant_service/place_order");
    assert_eq!(routes[1].response_type, "OrderResponse");
    let r = route_for("svc", "doIt", "do_it", "A", "B");
    assert_eq!(r.path, "/svc/do_it");
    assert_eq!(r.handler_name, "doIt_handler");
    assert_eq!(r.method_name, "doIt");
}

#[test]
fn speech_text_decodes_back() {
    for audio in [&b""[..], b"a", b"ab", b"abc", b"\x00\xff\x10\x80", b"hello world~"] {
        let text = speech_base64(audio);
        assert_eq!(text.len(), 4 * ((audio.len() + 2) / 3));
        assert_eq!(
            base64::engine::general_purpose::STANDARD.decode(&text).unwrap(),
            audio.to_vec()
        );
    }
}

#[test]
fn distinct_text_lists() {
    assert!(distinct_texts(&parts_of_speech()));
    assert!(distinct_texts(&vec![]));
    assert!(!distinct_texts(&vec!["noun".to_string(), "verb".to_string(), "noun".to_string()]));
}

#[test]
fn grpc_code_descriptions() {
    assert_eq!(menu_failure_reply(0).message, "Error: oops. Status code: The operation completed successfully");
    assert_eq!(menu_failure_reply(13).message, "Error: oops. Status code: Internal error");
    assert_eq!(menu_failure_reply(2).message, "Error: oops. Status code: Unknown error");
    assert_eq!(menu_failure_reply(99).message, "Error: oops. Status code: Unknown error");
    assert_eq!(
        menu_failure_reply(16).message,
        "Error: oops. Status code: The request does not have valid authentication credentials"
    );
}
