//! The Google adapter: a GET with everything in the query string.

use vstd::prelude::*;
use vstd::string::*;
use crate::codec::{percent_encoded, url_encode};
use crate::json::{element_strings, element_texts, item, item_of, items, items_of, str_of, string};
use crate::request::{pairs_view, success_result, success_view, Body, BodyView, HttpRequest,
    Method, Pair, RequestView};
use crate::text::{concat_present, concat_texts, or_text, text_or, texts_view};
use crate::translate::{TranslateResult, TranslationView};

verus! {

/// The name under which Google's results are reported.
pub open spec fn google_service() -> Seq<char> {
    "Google"@
}

/// The address for a query that is encoded already and a pair of
/// languages; the source may be "auto".
pub open spec fn google_url(query: Seq<char>, source: Seq<char>, target: Seq<char>) -> Seq<char> {
    "https://translate.googleapis.com/translate_a/single?client=gtx&sl="@ + source + "&tl="@
        + target + "&dt=t&q="@ + query
}

/// The request for a query that is encoded already.
pub open spec fn google_query_view(query: Seq<char>, source: Seq<char>, target: Seq<char>)
    -> RequestView {
    RequestView {
        method: Method::Get,
        url: google_url(query, source, target),
        headers: Seq::empty(),
        body: BodyView::Empty,
    }
}

/// The request that asks Google for a translation: the text goes into the
/// query percent-encoded.
pub open spec fn google_request_view(text: Seq<char>, source: Seq<char>, target: Seq<char>)
    -> RequestView {
    google_query_view(percent_encoded(text), source, target)
}

/// Builds the request around a query that is encoded already.
pub fn google_query_request(query: &str, source: &str, target: &str) -> (r: HttpRequest)
    ensures
        r@ == google_query_view(query@, source@, target@),
{
    let mut url =
        "https://translate.googleapis.com/translate_a/single?client=gtx&sl=".to_owned();
    url.append(source);
    url.append("&tl=");
    url.append(target);
    url.append("&dt=t&q=");
    url.append(query);
    let headers: Vec<Pair> = Vec::new();
    let r = HttpRequest { method: Method::Get, url, headers, body: Body::Empty };
    proof {
        assert(pairs_view(headers@) =~= Seq::empty());
    }
    r
}

/// Prepares the request for Google.
pub fn google_request(text: &str, source: &str, target: &str) -> (r: HttpRequest)
    ensures
        r@ == google_request_view(text@, source@, target@),
{
    let query = url_encode(text);
    google_query_request(query.as_str(), source, target)
}

/// The result for what a reply of Google holds: the translated sentences
/// one after the other, a sentence without a text counting for nothing,
/// and the language that Google detected, or the one asked for.
pub open spec fn google_outcome_view(
    sentences: Seq<Option<Seq<char>>>,
    detected: Option<Seq<char>>,
    source: Seq<char>,
    target: Seq<char>,
) -> TranslationView {
    success_view(google_service(), concat_present(sentences), or_text(detected, source), target)
}

/// Turns what a reply of Google holds into a result.
pub fn google_outcome(
    sentences: &Vec<Option<String>>,
    detected: Option<&str>,
    source: &str,
    target: &str,
) -> (r: TranslateResult)
    ensures
        r@ == google_outcome_view(
            texts_view(sentences@),
            match detected {
                Some(d) => Some(d@),
                None => None,
            },
            source@,
            target@,
        ),
{
    let translated = concat_texts(sentences);
    let found = text_or(detected, source);
    success_result("Google".to_owned(), translated, found, target)
}

/// The result for a decoded reply of Google: an array whose first element
/// lists the sentences, each an array that begins with the translated
/// text, and whose third element names the detected language.
pub open spec fn google_result_view(json: serde_json::Value, source: Seq<char>, target: Seq<char>)
    -> TranslationView {
    google_outcome_view(
        match items_of(item_of(Some(json), 0)) {
            Some(list) => element_texts(list, 0),
            None => Seq::empty(),
        },
        str_of(item_of(Some(json), 2)),
        source,
        target,
    )
}

/// Reads a decoded reply of Google.
pub fn google_result(json: &serde_json::Value, source: &str, target: &str) -> (r: TranslateResult)
    ensures
        r@ == google_result_view(*json, source@, target@),
{
    let detected = string(item(Some(json), 2));
    let sentences = match items(item(Some(json), 0)) {
        Some(list) => element_strings(list, 0),
        None => Vec::new(),
    };
    proof {
        assert(items_of(item_of(Some(*json), 0)) is None ==> texts_view(sentences@)
            =~= Seq::empty());
    }
    google_outcome(&sentences, detected, source, target)
}

} // verus!
