//! The Baidu adapter: a form-encoded POST signed with a digest over the
//! application id, the text, a salt and the secret key.

use vstd::prelude::*;
use vstd::string::*;
use vstd::utf8::encode_utf8;
use crate::codec::{md5_compute, md5_digest, random_u32};
use crate::json::{field, items, items_of, json_member, json_text, member_strings, member_texts,
    render, str_of, string};
use crate::request::{error_result, error_view, pair, pairs_view, success_result, success_view,
    Body, BodyView, HttpRequest, Method, Pair, RequestView};
use crate::text::{decimal, hex_lower, join_lines, join_present, or_text, push_decimal, str_eq,
    text_or, to_hex, texts_view};
use crate::translate::{TranslateResult, TranslationView};

verus! {

/// The name under which Baidu's results are reported.
pub open spec fn baidu_service() -> Seq<char> {
    "Baidu"@
}

/// The address of Baidu's translation endpoint.
pub open spec fn baidu_endpoint() -> Seq<char> {
    "https://fanyi-api.baidu.com/api/trans/vip/translate"@
}

/// Baidu's code for a language: it does not tell the Chinese scripts apart
/// and has its own codes for Japanese, Korean, French and Spanish. Every
/// other code, "auto" among them, is passed on as it is.
pub open spec fn baidu_code(lang: Seq<char>) -> Seq<char> {
    if lang == "zh-CN"@ || lang == "zh-TW"@ {
        "zh"@
    } else if lang == "ja"@ {
        "jp"@
    } else if lang == "ko"@ {
        "kor"@
    } else if lang == "fr"@ {
        "fra"@
    } else if lang == "es"@ {
        "spa"@
    } else {
        lang
    }
}

/// Maps a language code to Baidu's vocabulary.
pub fn baidu_lang(lang: &str) -> (code: String)
    ensures
        code@ == baidu_code(lang@),
{
    if str_eq(lang, "zh-CN") || str_eq(lang, "zh-TW") {
        "zh".to_owned()
    } else if str_eq(lang, "ja") {
        "jp".to_owned()
    } else if str_eq(lang, "ko") {
        "kor".to_owned()
    } else if str_eq(lang, "fr") {
        "fra".to_owned()
    } else if str_eq(lang, "es") {
        "spa".to_owned()
    } else {
        lang.to_owned()
    }
}

/// Both credentials are there.
pub open spec fn baidu_configured(app_id: Seq<char>, secret_key: Seq<char>) -> bool {
    app_id.len() > 0 && secret_key.len() > 0
}

/// What the signature is the digest of.
pub open spec fn baidu_signed_text(
    app_id: Seq<char>,
    text: Seq<char>,
    salt: u32,
    secret_key: Seq<char>,
) -> Seq<char> {
    app_id + text + decimal(salt as nat) + secret_key
}

/// The signature of a text: the MD5 digest of its UTF-8 bytes, in
/// lower-case hexadecimal.
pub open spec fn signature_of(signed: Seq<char>) -> Seq<char> {
    hex_lower(md5_digest(encode_utf8(signed)))
}

/// Signs a text.
pub fn sign_text(signed: &str) -> (sign: String)
    ensures
        sign@ == signature_of(signed@),
{
    let digest = md5_compute(signed.as_bytes());
    to_hex(&digest)
}

/// The request that carries a given signature.
pub open spec fn baidu_form_view(
    text: Seq<char>,
    source: Seq<char>,
    target: Seq<char>,
    app_id: Seq<char>,
    salt: u32,
    sign: Seq<char>,
) -> RequestView {
    RequestView {
        method: Method::Post,
        url: baidu_endpoint(),
        headers: Seq::empty(),
        body: BodyView::Form(
            seq![
                ("q"@, text),
                ("from"@, baidu_code(source)),
                ("to"@, baidu_code(target)),
                ("appid"@, app_id),
                ("salt"@, decimal(salt as nat)),
                ("sign"@, sign),
            ],
        ),
    }
}

/// The request that asks Baidu for a translation, for a given salt: its
/// signature is the digest of the application id, the text, the salt and
/// the secret key, in this order.
pub open spec fn baidu_request_view(
    text: Seq<char>,
    source: Seq<char>,
    target: Seq<char>,
    app_id: Seq<char>,
    secret_key: Seq<char>,
    salt: u32,
) -> RequestView {
    baidu_form_view(
        text,
        source,
        target,
        app_id,
        salt,
        signature_of(baidu_signed_text(app_id, text, salt, secret_key)),
    )
}

/// The result for a request that was never sent for want of credentials.
pub open spec fn baidu_unconfigured(source: Seq<char>, target: Seq<char>) -> TranslationView {
    error_view(baidu_service(), source, target, "API credentials not configured"@)
}

/// The decimal notation of a salt.
pub fn salt_text(salt: u32) -> (r: String)
    ensures
        r@ == decimal(salt as nat),
{
    let mut r = String::new();
    push_decimal(&mut r, salt);
    assert(r@ =~= decimal(salt as nat));
    r
}

/// Builds the request around a signature that is computed already.
pub fn baidu_form_request(
    text: &str,
    source: &str,
    target: &str,
    app_id: &str,
    salt: u32,
    sign: &str,
) -> (r: HttpRequest)
    ensures
        r@ == baidu_form_view(text@, source@, target@, app_id@, salt, sign@),
{
    let salt_digits = salt_text(salt);
    let from = baidu_lang(source);
    let to = baidu_lang(target);
    let fields = vec![
        pair("q", text),
        pair("from", from.as_str()),
        pair("to", to.as_str()),
        pair("appid", app_id),
        pair("salt", salt_digits.as_str()),
        pair("sign", sign),
    ];
    let headers: Vec<Pair> = Vec::new();
    let r = HttpRequest {
        method: Method::Post,
        url: "https://fanyi-api.baidu.com/api/trans/vip/translate".to_owned(),
        headers,
        body: Body::Form(fields),
    };
    proof {
        let want = baidu_form_view(text@, source@, target@, app_id@, salt, sign@);
        assert(pairs_view(fields@) =~= want.body->Form_0);
        assert(pairs_view(headers@) =~= want.headers);
    }
    r
}

/// Builds the signed request for a given salt.
pub fn baidu_signed_request(
    text: &str,
    source: &str,
    target: &str,
    app_id: &str,
    secret_key: &str,
    salt: u32,
) -> (r: HttpRequest)
    ensures
        r@ == baidu_request_view(text@, source@, target@, app_id@, secret_key@, salt),
{
    let salt_digits = salt_text(salt);
    let mut signed = app_id.to_owned();
    signed.append(text);
    signed.append(salt_digits.as_str());
    signed.append(secret_key);
    let sign = sign_text(signed.as_str());
    baidu_form_request(text, source, target, app_id, salt, sign.as_str())
}

/// Prepares the request for Baidu, or the result that stands for it.
///
/// Without an application id or without a secret key nothing is sent: the
/// result is the "not configured" error. Otherwise the request is signed
/// with a salt drawn at random.
pub fn baidu_request(text: &str, source: &str, target: &str, app_id: &str, secret_key: &str) -> (r:
    Result<HttpRequest, TranslateResult>)
    ensures
        match r {
            Ok(request) => baidu_configured(app_id@, secret_key@) && exists|salt: u32|
                request@ == baidu_request_view(text@, source@, target@, app_id@, secret_key@, salt),
            Err(e) => !baidu_configured(app_id@, secret_key@) && e@ == baidu_unconfigured(
                source@,
                target@,
            ),
        },
{
    if app_id.is_empty() || secret_key.is_empty() {
        Err(error_result("Baidu", source, target, "API credentials not configured".to_owned()))
    } else {
        let salt = random_u32();
        Ok(baidu_signed_request(text, source, target, app_id, secret_key, salt))
    }
}

/// The message for a reply that reports an error: the code as the reply
/// writes it, and the reply's explanation or "Unknown".
pub open spec fn baidu_error_message(code: Seq<char>, explanation: Option<Seq<char>>) -> Seq<char> {
    "Error "@ + code + ": "@ + or_text(explanation, "Unknown"@)
}

/// The result for what a reply of Baidu holds.
///
/// `error` is the reply's error code, as JSON text, with its explanation,
/// if the reply reports one. `segments` are the translated segments, a
/// missing one for each entry without a text; `from` is the source
/// language that Baidu found.
pub open spec fn baidu_outcome_view(
    error: Option<(Seq<char>, Option<Seq<char>>)>,
    segments: Seq<Option<Seq<char>>>,
    from: Option<Seq<char>>,
    source: Seq<char>,
    target: Seq<char>,
) -> TranslationView {
    match error {
        Some(e) => error_view(baidu_service(), source, target, baidu_error_message(e.0, e.1)),
        None => success_view(
            baidu_service(),
            join_present(segments),
            or_text(from, source),
            target,
        ),
    }
}

/// Turns what a reply of Baidu holds into a result: an error reply gives
/// its message, any other the segments joined by line feeds.
pub fn baidu_outcome(
    error_code: Option<&str>,
    explanation: Option<&str>,
    segments: &Vec<Option<String>>,
    from: Option<&str>,
    source: &str,
    target: &str,
) -> (r: TranslateResult)
    ensures
        r@ == baidu_outcome_view(
            match error_code {
                Some(c) => Some(
                    (
                        c@,
                        match explanation {
                            Some(x) => Some(x@),
                            None => None,
                        },
                    ),
                ),
                None => None,
            },
            texts_view(segments@),
            match from {
                Some(f) => Some(f@),
                None => None,
            },
            source@,
            target@,
        ),
{
    match error_code {
        Some(code) => {
            let mut message = "Error ".to_owned();
            message.append(code);
            message.append(": ");
            let what = text_or(explanation, "Unknown");
            message.append(what.as_str());
            error_result("Baidu", source, target, message)
        },
        None => {
            let translated = join_lines(segments);
            let detected = text_or(from, source);
            success_result("Baidu".to_owned(), translated, detected, target)
        },
    }
}

/// The result for a decoded reply of Baidu.
pub open spec fn baidu_result_view(json: serde_json::Value, source: Seq<char>, target: Seq<char>)
    -> TranslationView {
    baidu_outcome_view(
        match json_member(json, "error_code"@) {
            Some(code) => Some((json_text(code), str_of(json_member(json, "error_msg"@)))),
            None => None,
        },
        match items_of(json_member(json, "trans_result"@)) {
            Some(list) => member_texts(list, "dst"@),
            None => Seq::empty(),
        },
        str_of(json_member(json, "from"@)),
        source,
        target,
    )
}

/// Reads a decoded reply of Baidu.
pub fn baidu_result(json: &serde_json::Value, source: &str, target: &str) -> (r: TranslateResult)
    ensures
        r@ == baidu_result_view(*json, source@, target@),
{
    let code = field(Some(json), "error_code");
    let from = string(field(Some(json), "from"));
    match code {
        Some(c) => {
            let code_text = render(c);
            let explanation = string(field(Some(json), "error_msg"));
            let none: Vec<Option<String>> = Vec::new();
            baidu_outcome(Some(code_text.as_str()), explanation, &none, from, source, target)
        },
        None => {
            let segments = match items(field(Some(json), "trans_result")) {
                Some(list) => member_strings(list, "dst"),
                None => Vec::new(),
            };
            proof {
                assert(items_of(json_member(*json, "trans_result"@)) is None ==> texts_view(
                    segments@,
                ) =~= Seq::empty());
            }
            baidu_outcome(None, None, &segments, from, source, target)
        },
    }
}

} // verus!
