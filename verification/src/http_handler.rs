//! The first serverless handler: two known paths, answered with a recipe.
use vstd::prelude::*;
use crate::openai::{ChatRequest, ResponseFormat};
use crate::text::same_text;

verus! {

/// Whether the handler serves `path`; it serves `/path1` and `/path2`.
pub fn is_served_path(path: &str) -> (res: bool)
    ensures
        res == (path@ == "/path1"@ || path@ == "/path2"@),
{
    same_text(path, "/path1") || same_text(path, "/path2")
}

/// The request for a shrimp recipe from `gpt-4`, at most 300 tokens long.
pub fn recipe_request() -> (res: ChatRequest)
    ensures
        res.model@ == "gpt-4"@,
        res.user_message@ == "Give me a recipe of shrimps"@,
        res.response_format is Unspecified,
        res.max_tokens == Some(300u16),
{
    ChatRequest {
        model: "gpt-4".to_owned(),
        user_message: "Give me a recipe of shrimps".to_owned(),
        response_format: ResponseFormat::Unspecified,
        max_tokens: Some(300),
    }
}

} // verus!
