//! The chat-completion adapter, for OpenAI or any backend that speaks its
//! protocol: the translation is asked for in a prompt.

use vstd::prelude::*;
use vstd::string::*;
use crate::json::{field, field_of, item, item_of, str_of, string};
use crate::request::{error_result, error_view, pair, pairs_view, success_result, success_view,
    Body, BodyView, HttpRequest, Method, RequestView};
use crate::text::{or_text, str_eq, text_or, trim, trimmed};
use crate::translate::{TranslateResult, TranslationView};

verus! {

/// The most tokens a completion may have.
pub const MAX_TOKENS: u32 = 4096;

/// The name under which failures of this adapter are reported.
pub open spec fn ai_service() -> Seq<char> {
    "AI"@
}

/// The name under which translations of this adapter are reported.
pub open spec fn ai_service_for(model: Seq<char>) -> Seq<char> {
    "AI ("@ + model + ")"@
}

/// The English name of a language for the prompt; an unknown code stands
/// for itself.
pub open spec fn language_name(code: Seq<char>) -> Seq<char> {
    if code == "zh-CN"@ {
        "Simplified Chinese"@
    } else if code == "zh-TW"@ {
        "Traditional Chinese"@
    } else if code == "en"@ {
        "English"@
    } else if code == "ja"@ {
        "Japanese"@
    } else if code == "ko"@ {
        "Korean"@
    } else if code == "fr"@ {
        "French"@
    } else if code == "de"@ {
        "German"@
    } else if code == "es"@ {
        "Spanish"@
    } else if code == "ru"@ {
        "Russian"@
    } else {
        code
    }
}

/// Names a language for the prompt.
pub fn lang_name(code: &str) -> (name: String)
    ensures
        name@ == language_name(code@),
{
    if str_eq(code, "zh-CN") {
        "Simplified Chinese".to_owned()
    } else if str_eq(code, "zh-TW") {
        "Traditional Chinese".to_owned()
    } else if str_eq(code, "en") {
        "English".to_owned()
    } else if str_eq(code, "ja") {
        "Japanese".to_owned()
    } else if str_eq(code, "ko") {
        "Korean".to_owned()
    } else if str_eq(code, "fr") {
        "French".to_owned()
    } else if str_eq(code, "de") {
        "German".to_owned()
    } else if str_eq(code, "es") {
        "Spanish".to_owned()
    } else if str_eq(code, "ru") {
        "Russian".to_owned()
    } else {
        code.to_owned()
    }
}

/// How the prompt speaks of the source language.
pub open spec fn source_description(source: Seq<char>) -> Seq<char> {
    if source == "auto"@ {
        "auto-detected language"@
    } else {
        language_name(source)
    }
}

/// The instruction given to the model.
pub open spec fn system_prompt(source: Seq<char>, target: Seq<char>) -> Seq<char> {
    "You are a professional translator. Translate the following text from "@
        + source_description(source) + " to "@ + language_name(target)
        + ". Only output the translation, no explanations or extra text."@
}

/// The request that asks the model for a translation.
pub open spec fn openai_request_view(
    text: Seq<char>,
    source: Seq<char>,
    target: Seq<char>,
    api_key: Seq<char>,
    api_url: Seq<char>,
    model: Seq<char>,
) -> RequestView {
    RequestView {
        method: Method::Post,
        url: api_url,
        headers: seq![
            ("Authorization"@, "Bearer "@ + api_key),
            ("Content-Type"@, "application/json"@),
        ],
        body: BodyView::Chat {
            model,
            system: system_prompt(source, target),
            user: text,
            max_tokens: 4096,
        },
    }
}

/// The result for a request that was never sent for want of a key.
pub open spec fn openai_unconfigured(source: Seq<char>, target: Seq<char>) -> TranslationView {
    error_view(ai_service(), source, target, "API key not configured"@)
}

/// Prepares the chat-completion request, or the result that stands for it:
/// without a key nothing is sent and the result is the "not configured"
/// error.
pub fn openai_request(
    text: &str,
    source: &str,
    target: &str,
    api_key: &str,
    api_url: &str,
    model: &str,
) -> (r: Result<HttpRequest, TranslateResult>)
    ensures
        match r {
            Ok(request) => api_key@.len() > 0 && request@ == openai_request_view(
                text@,
                source@,
                target@,
                api_key@,
                api_url@,
                model@,
            ),
            Err(e) => api_key@.len() == 0 && e@ == openai_unconfigured(source@, target@),
        },
{
    if api_key.is_empty() {
        return Err(error_result("AI", source, target, "API key not configured".to_owned()));
    }
    let source_desc = if str_eq(source, "auto") {
        "auto-detected language".to_owned()
    } else {
        lang_name(source)
    };
    let target_desc = lang_name(target);
    let mut system =
        "You are a professional translator. Translate the following text from ".to_owned();
    system.append(source_desc.as_str());
    system.append(" to ");
    system.append(target_desc.as_str());
    system.append(". Only output the translation, no explanations or extra text.");
    let mut bearer = "Bearer ".to_owned();
    bearer.append(api_key);
    let headers = vec![
        pair("Authorization", bearer.as_str()),
        pair("Content-Type", "application/json"),
    ];
    let r = HttpRequest {
        method: Method::Post,
        url: api_url.to_owned(),
        headers,
        body: Body::Chat {
            model: model.to_owned(),
            system,
            user: text.to_owned(),
            max_tokens: MAX_TOKENS,
        },
    };
    proof {
        let want = openai_request_view(text@, source@, target@, api_key@, api_url@, model@);
        assert(pairs_view(headers@) =~= want.headers);
    }
    Ok(r)
}

/// The result for the content of the first choice of a completion: the
/// content without the white space around it, or nothing where there is no
/// content. The source language is reported as it was asked for.
pub open spec fn openai_outcome_view(
    content: Option<Seq<char>>,
    source: Seq<char>,
    target: Seq<char>,
    model: Seq<char>,
) -> TranslationView {
    success_view(ai_service_for(model), trimmed(or_text(content, Seq::empty())), source, target)
}

/// Turns the content of a completion into a result.
pub fn openai_outcome(content: Option<&str>, source: &str, target: &str, model: &str) -> (r:
    TranslateResult)
    ensures
        r@ == openai_outcome_view(
            match content {
                Some(c) => Some(c@),
                None => None,
            },
            source@,
            target@,
            model@,
        ),
{
    let raw = text_or(content, "");
    proof {
        reveal_strlit("");
        assert(""@ =~= Seq::<char>::empty());
    }
    let translated = trim(raw.as_str());
    let mut service = "AI (".to_owned();
    service.append(model);
    service.append(")");
    success_result(service, translated, source.to_owned(), target)
}

/// The result for a decoded completion.
pub open spec fn openai_result_view(
    json: serde_json::Value,
    source: Seq<char>,
    target: Seq<char>,
    model: Seq<char>,
) -> TranslationView {
    openai_outcome_view(
        str_of(
            field_of(
                field_of(item_of(json_choices(json), 0), "message"@),
                "content"@,
            ),
        ),
        source,
        target,
        model,
    )
}

/// The choices of a completion.
pub open spec fn json_choices(json: serde_json::Value) -> Option<serde_json::Value> {
    field_of(Some(json), "choices"@)
}

/// Reads a decoded completion.
pub fn openai_result(json: &serde_json::Value, source: &str, target: &str, model: &str) -> (r:
    TranslateResult)
    ensures
        r@ == openai_result_view(*json, source@, target@, model@),
{
    let content = string(
        field(field(item(field(Some(json), "choices"), 0), "message"), "content"),
    );
    openai_outcome(content, source, target, model)
}

} // verus!
