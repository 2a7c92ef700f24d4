//! The Bing adapter: a JSON POST to Microsoft's translator.

use vstd::prelude::*;
use vstd::string::*;
use crate::json::{field, field_of, item, item_of, str_of, string};
use crate::request::{pair, pairs_view, success_result, success_view, Body, BodyView, HttpRequest,
    Method, RequestView};
use crate::text::{or_text, str_eq, text_or};
use crate::translate::{TranslateResult, TranslationView};

verus! {

/// The name under which Bing's results are reported.
pub open spec fn bing_service() -> Seq<char> {
    "Bing"@
}

/// Bing's code for a language: it names the Chinese scripts, and takes
/// every other code as it is.
pub open spec fn bing_code(lang: Seq<char>) -> Seq<char> {
    if lang == "zh-CN"@ {
        "zh-Hans"@
    } else if lang == "zh-TW"@ {
        "zh-Hant"@
    } else {
        lang
    }
}

/// Maps a language code to Bing's vocabulary.
pub fn bing_lang(lang: &str) -> (code: String)
    ensures
        code@ == bing_code(lang@),
{
    if str_eq(lang, "zh-CN") {
        "zh-Hans".to_owned()
    } else if str_eq(lang, "zh-TW") {
        "zh-Hant".to_owned()
    } else {
        lang.to_owned()
    }
}

/// The address without the languages.
pub open spec fn bing_base() -> Seq<char> {
    "https://api.cognitive.microsofttranslator.com/translate?api-version=3.0"@
}

/// The address for a pair of languages. The source is left out, for Bing
/// to detect, when it is "auto" or empty.
pub open spec fn bing_url(source: Seq<char>, target: Seq<char>) -> Seq<char> {
    if source == "auto"@ || source.len() == 0 {
        bing_base() + "&to="@ + bing_code(target)
    } else {
        bing_base() + "&from="@ + bing_code(source) + "&to="@ + bing_code(target)
    }
}

/// The request that asks Bing for a translation.
pub open spec fn bing_request_view(text: Seq<char>, source: Seq<char>, target: Seq<char>)
    -> RequestView {
    RequestView {
        method: Method::Post,
        url: bing_url(source, target),
        headers: seq![("Content-Type"@, "application/json"@)],
        body: BodyView::TextItems(text),
    }
}

/// Prepares the request for Bing.
pub fn bing_request(text: &str, source: &str, target: &str) -> (r: HttpRequest)
    ensures
        r@ == bing_request_view(text@, source@, target@),
{
    let to = bing_lang(target);
    let mut url =
        "https://api.cognitive.microsofttranslator.com/translate?api-version=3.0".to_owned();
    if !(str_eq(source, "auto") || source.is_empty()) {
        let from = bing_lang(source);
        url.append("&from=");
        url.append(from.as_str());
    }
    url.append("&to=");
    url.append(to.as_str());
    let headers = vec![pair("Content-Type", "application/json")];
    let r = HttpRequest {
        method: Method::Post,
        url,
        headers,
        body: Body::TextItems(text.to_owned()),
    };
    proof {
        assert(pairs_view(headers@) =~= bing_request_view(text@, source@, target@).headers);
    }
    r
}

/// The result for what a reply of Bing holds: the text of the first
/// translation, or nothing, and the language that Bing detected, or the
/// one asked for.
pub open spec fn bing_outcome_view(
    translation: Option<Seq<char>>,
    detected: Option<Seq<char>>,
    source: Seq<char>,
    target: Seq<char>,
) -> TranslationView {
    success_view(
        bing_service(),
        or_text(translation, Seq::empty()),
        or_text(detected, source),
        target,
    )
}

/// Turns what a reply of Bing holds into a result.
pub fn bing_outcome(
    translation: Option<&str>,
    detected: Option<&str>,
    source: &str,
    target: &str,
) -> (r: TranslateResult)
    ensures
        r@ == bing_outcome_view(
            match translation {
                Some(t) => Some(t@),
                None => None,
            },
            match detected {
                Some(d) => Some(d@),
                None => None,
            },
            source@,
            target@,
        ),
{
    proof {
        reveal_strlit("");
        assert(""@ =~= Seq::<char>::empty());
    }
    let translated = text_or(translation, "");
    let found = text_or(detected, source);
    success_result("Bing".to_owned(), translated, found, target)
}

/// The first entry of a reply.
pub open spec fn bing_first(json: serde_json::Value) -> Option<serde_json::Value> {
    item_of(Some(json), 0)
}

/// The result for a decoded reply of Bing.
pub open spec fn bing_result_view(json: serde_json::Value, source: Seq<char>, target: Seq<char>)
    -> TranslationView {
    bing_outcome_view(
        str_of(field_of(item_of(field_of(bing_first(json), "translations"@), 0), "text"@)),
        str_of(field_of(field_of(bing_first(json), "detectedLanguage"@), "language"@)),
        source,
        target,
    )
}

/// Reads a decoded reply of Bing.
pub fn bing_result(json: &serde_json::Value, source: &str, target: &str) -> (r: TranslateResult)
    ensures
        r@ == bing_result_view(*json, source@, target@),
{
    let first = item(Some(json), 0);
    let translation = string(field(item(field(first, "translations"), 0), "text"));
    let detected = string(field(field(first, "detectedLanguage"), "language"));
    bing_outcome(translation, detected, source, target)
}

} // verus!
