//! The DeepL adapter: a form-encoded POST with the key in a header.

use vstd::prelude::*;
use vstd::string::*;
use crate::json::{field, field_of, item, item_of, str_of, string};
use crate::request::{error_result, error_view, pair, pairs_view, success_result, success_view,
    Body, BodyView, HttpRequest, Method, RequestView};
use crate::text::{ends_with, has_suffix, lowercased, or_text, str_eq, text_or, to_lowercase};
use crate::translate::{TranslateResult, TranslationView};

verus! {

/// The name under which DeepL's results are reported.
pub open spec fn deepl_service() -> Seq<char> {
    "DeepL"@
}

/// DeepL's code for a language: one code for both Chinese scripts, upper
/// case for Chinese and English, every other code as it is.
pub open spec fn deepl_code(lang: Seq<char>) -> Seq<char> {
    if lang == "zh-CN"@ || lang == "zh-TW"@ {
        "ZH"@
    } else if lang == "en"@ {
        "EN"@
    } else {
        lang
    }
}

/// Maps a language code to DeepL's vocabulary.
pub fn deepl_lang(lang: &str) -> (code: String)
    ensures
        code@ == deepl_code(lang@),
{
    if str_eq(lang, "zh-CN") || str_eq(lang, "zh-TW") {
        "ZH".to_owned()
    } else if str_eq(lang, "en") {
        "EN".to_owned()
    } else {
        lang.to_owned()
    }
}

/// The endpoint for a key: keys of the free plan end in ":fx".
pub open spec fn deepl_endpoint(api_key: Seq<char>) -> Seq<char> {
    if has_suffix(api_key, ":fx"@) {
        "https://api-free.deepl.com/v2/translate"@
    } else {
        "https://api.deepl.com/v2/translate"@
    }
}

/// The form fields: the text, the target and, unless it is left to DeepL,
/// the source.
pub open spec fn deepl_form(text: Seq<char>, source: Seq<char>, target: Seq<char>) -> Seq<
    (Seq<char>, Seq<char>),
> {
    if source == "auto"@ {
        seq![("text"@, text), ("target_lang"@, deepl_code(target))]
    } else {
        seq![
            ("text"@, text),
            ("target_lang"@, deepl_code(target)),
            ("source_lang"@, deepl_code(source)),
        ]
    }
}

/// The request that asks DeepL for a translation.
pub open spec fn deepl_request_view(
    text: Seq<char>,
    source: Seq<char>,
    target: Seq<char>,
    api_key: Seq<char>,
) -> RequestView {
    RequestView {
        method: Method::Post,
        url: deepl_endpoint(api_key),
        headers: seq![("Authorization"@, "DeepL-Auth-Key "@ + api_key)],
        body: BodyView::Form(deepl_form(text, source, target)),
    }
}

/// The result for a request that was never sent for want of a key.
pub open spec fn deepl_unconfigured(source: Seq<char>, target: Seq<char>) -> TranslationView {
    error_view(deepl_service(), source, target, "API key not configured"@)
}

/// Prepares the request for DeepL, or the result that stands for it:
/// without a key nothing is sent and the result is the "not configured"
/// error.
pub fn deepl_request(text: &str, source: &str, target: &str, api_key: &str) -> (r: Result<
    HttpRequest,
    TranslateResult,
>)
    ensures
        match r {
            Ok(request) => api_key@.len() > 0 && request@ == deepl_request_view(
                text@,
                source@,
                target@,
                api_key@,
            ),
            Err(e) => api_key@.len() == 0 && e@ == deepl_unconfigured(source@, target@),
        },
{
    if api_key.is_empty() {
        return Err(error_result("DeepL", source, target, "API key not configured".to_owned()));
    }
    let url = if ends_with(api_key, ":fx") {
        "https://api-free.deepl.com/v2/translate".to_owned()
    } else {
        "https://api.deepl.com/v2/translate".to_owned()
    };
    let to = deepl_lang(target);
    let mut fields = vec![pair("text", text), pair("target_lang", to.as_str())];
    if !str_eq(source, "auto") {
        let from = deepl_lang(source);
        fields.push(pair("source_lang", from.as_str()));
    }
    let mut auth = "DeepL-Auth-Key ".to_owned();
    auth.append(api_key);
    let headers = vec![pair("Authorization", auth.as_str())];
    let r = HttpRequest { method: Method::Post, url, headers, body: Body::Form(fields) };
    proof {
        let want = deepl_request_view(text@, source@, target@, api_key@);
        assert(pairs_view(headers@) =~= want.headers);
        assert(pairs_view(fields@) =~= deepl_form(text@, source@, target@));
    }
    Ok(r)
}

/// The result for what a reply of DeepL holds: the text of the first
/// translation, or nothing, and the source language that DeepL found, or
/// the one asked for, in lower case.
pub open spec fn deepl_outcome_view(
    translation: Option<Seq<char>>,
    detected: Option<Seq<char>>,
    source: Seq<char>,
    target: Seq<char>,
) -> TranslationView {
    success_view(
        deepl_service(),
        or_text(translation, Seq::empty()),
        lowercased(or_text(detected, source)),
        target,
    )
}

/// Turns what a reply of DeepL holds into a result.
pub fn deepl_outcome(
    translation: Option<&str>,
    detected: Option<&str>,
    source: &str,
    target: &str,
) -> (r: TranslateResult)
    ensures
        r@ == deepl_outcome_view(
            match translation {
                Some(t) => Some(t@),
                None => None,
            },
            match detected {
                Some(d) => Some(d@),
                None => None,
            },
            source@,
            target@,
        ),
{
    proof {
        reveal_strlit("");
        assert(""@ =~= Seq::<char>::empty());
    }
    let translated = text_or(translation, "");
    let found = text_or(detected, source);
    let lower = to_lowercase(found.as_str());
    success_result("DeepL".to_owned(), translated, lower, target)
}

/// The first translation of a reply.
pub open spec fn deepl_first(json: serde_json::Value) -> Option<serde_json::Value> {
    item_of(field_of(Some(json), "translations"@), 0)
}

/// The result for a decoded reply of DeepL.
pub open spec fn deepl_result_view(json: serde_json::Value, source: Seq<char>, target: Seq<char>)
    -> TranslationView {
    deepl_outcome_view(
        str_of(field_of(deepl_first(json), "text"@)),
        str_of(field_of(deepl_first(json), "detected_source_language"@)),
        source,
        target,
    )
}

/// Reads a decoded reply of DeepL.
pub fn deepl_result(json: &serde_json::Value, source: &str, target: &str) -> (r: TranslateResult)
    ensures
        r@ == deepl_result_view(*json, source@, target@),
{
    let first = item(field(Some(json), "translations"), 0);
    let translation = string(field(first, "text"));
    let detected = string(field(first, "detected_source_language"));
    deepl_outcome(translation, detected, source, target)
}

} // verus!
