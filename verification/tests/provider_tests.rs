use easydict::baidu::{
    baidu_form_request, baidu_lang, baidu_outcome, baidu_request, baidu_result,
    baidu_signed_request, salt_text, sign_text,
};
use easydict::bing::{bing_lang, bing_outcome, bing_request, bing_result};
use easydict::deepl::{deepl_lang, deepl_outcome, deepl_request, deepl_result};
use easydict::google::{google_outcome, google_query_request, google_request, google_result};
use easydict::json::{element_strings, field, item, items, member_strings, string};
use easydict::openai::{lang_name, openai_outcome, openai_request, openai_result, MAX_TOKENS};
use easydict::request::{
    error_result, failed_result, pair, success_result, Body, Failure, HttpRequest, Method, Pair,
};
use easydict::text::{concat_texts, join_lines, text_or};
use easydict::translate::TranslateResult;
use serde_json::Value;

fn json(text: &str) -> Value {
    serde_json::from_str(text).expect("the test's JSON is well formed")
}

fn pairs(list: &[Pair]) -> Vec<(String, String)> {
    list.iter().map(|p| (p.name.clone(), p.value.clone())).collect()
}

fn owned(list: &[(&str, &str)]) -> Vec<(String, String)> {
    list.iter().map(|(a, b)| (a.to_string(), b.to_string())).collect()
}

fn form(r: &HttpRequest) -> Vec<(String, String)> {
    match &r.body {
        Body::Form(fields) => pairs(fields),
        _ => panic!("the request carries no form"),
    }
}

fn check(
    r: &TranslateResult,
    service: &str,
    translated: &str,
    source: &str,
    target: &str,
    error: Option<&str>,
) {
    assert_eq!(r.service, service);
    assert_eq!(r.translated, translated);
    assert_eq!(r.source_lang, source);
    assert_eq!(r.target_lang, target);
    assert_eq!(r.error.as_deref(), error);
}

// ---- reading JSON ----

#[test]
fn json_traversal_tolerates_anything() {
    let v = json(r#"{"a": [10, {"b": "text"}], "n": 5, "s": "str"}"#);
    assert_eq!(string(field(Some(&v), "s")), Some("str"));
    assert_eq!(string(field(Some(&v), "n")), None);
    assert_eq!(string(field(Some(&v), "missing")), None);
    assert_eq!(string(field(item(field(Some(&v), "a"), 1), "b")), Some("text"));
    assert_eq!(string(field(item(field(Some(&v), "a"), 2), "b")), None);
    assert_eq!(string(field(item(field(Some(&v), "a"), 0), "b")), None);
    assert!(item(Some(&v), 0).is_none());
    assert!(field(item(Some(&v), 0), "a").is_none());
    assert!(field(None, "a").is_none());
    assert!(item(None, 0).is_none());
    assert!(string(None).is_none());
    assert!(items(None).is_none());
    assert!(items(field(Some(&v), "s")).is_none());
    assert_eq!(items(field(Some(&v), "a")).map(|l| l.len()), Some(2));
    assert_eq!(field(Some(&v), "n"), Some(&json("5")));
}

#[test]
fn lists_of_strings_are_read_with_gaps() {
    let v = json(r#"[{"dst": "a"}, {"dst": 1}, {}, "x", {"dst": "b"}]"#);
    let list = v.as_array().unwrap();
    assert_eq!(
        member_strings(list, "dst"),
        vec![Some("a".to_string()), None, None, None, Some("b".to_string())]
    );
    let v = json(r#"[["a", "b"], [], [1], "x", ["c"]]"#);
    let list = v.as_array().unwrap();
    assert_eq!(
        element_strings(list, 0),
        vec![Some("a".to_string()), None, None, None, Some("c".to_string())]
    );
    assert_eq!(element_strings(list, 1), vec![Some("b".to_string()), None, None, None, None]);
}

#[test]
fn texts_are_concatenated_and_joined() {
    let s = |t: &str| Some(t.to_string());
    assert_eq!(concat_texts(&vec![s("a"), None, s("b"), s(""), s("c")]), "abc");
    assert_eq!(concat_texts(&Vec::new()), "");
    assert_eq!(join_lines(&vec![s("a"), None, s("b"), s("c")]), "a\nb\nc");
    // no line feed after an empty beginning
    assert_eq!(join_lines(&vec![s(""), s("a"), s(""), s("b")]), "a\n\nb");
    assert_eq!(join_lines(&vec![None, None]), "");
    assert_eq!(text_or(Some("a"), "b"), "a");
    assert_eq!(text_or(None, "b"), "b");
}

// ---- shared shapes ----

#[test]
fn shared_result_builders() {
    check(
        &error_result("S", "auto", "en", "boom".to_string()),
        "S",
        "",
        "auto",
        "en",
        Some("boom"),
    );
    check(
        &success_result("S".to_string(), "out".to_string(), "fr".to_string(), "en"),
        "S",
        "out",
        "fr",
        "en",
        None,
    );
    check(
        &failed_result("Google", "auto", "en", Failure::Network, "timed out"),
        "Google",
        "",
        "auto",
        "en",
        Some("Network error: timed out"),
    );
    check(
        &failed_result("Bing", "ja", "en", Failure::Parse, "expected value"),
        "Bing",
        "",
        "ja",
        "en",
        Some("Parse error: expected value"),
    );
    let p = pair("name", "value");
    assert_eq!((p.name.as_str(), p.value.as_str()), ("name", "value"));
}

// ---- Google ----

#[test]
fn google_request_puts_everything_in_the_query() {
    let r = google_request("hello world & more", "auto", "zh-CN");
    assert_eq!(r.method, Method::Get);
    assert_eq!(
        r.url,
        "https://translate.googleapis.com/translate_a/single?client=gtx&sl=auto&tl=zh-CN&dt=t&q=hello%20world%20%26%20more"
    );
    assert!(r.headers.is_empty());
    assert!(matches!(r.body, Body::Empty));
    let r = google_request("你好", "zh-CN", "en");
    assert!(r.url.ends_with("&sl=zh-CN&tl=en&dt=t&q=%E4%BD%A0%E5%A5%BD"));
}

#[test]
fn google_query_keeps_only_unreserved_bytes() {
    let r = google_request("AZaz09-_.~", "auto", "en");
    assert!(r.url.ends_with("&dt=t&q=AZaz09-_.~"));
    let r = google_request(" !\"#$%&'()*+,/:;<=>?@[\\]^`{|}", "auto", "en");
    assert!(r.url.ends_with(
        "&dt=t&q=%20%21%22%23%24%25%26%27%28%29%2A%2B%2C%2F%3A%3B%3C%3D%3E%3F%40%5B%5C%5D%5E%60%7B%7C%7D"
    ));
    let r = google_request("é\n😀", "auto", "en");
    assert!(r.url.ends_with("&dt=t&q=%C3%A9%0A%F0%9F%98%80"));
    let r = google_request("", "auto", "en");
    assert!(r.url.ends_with("&dt=t&q="));
    let r = google_query_request("already%20encoded", "fr", "de");
    assert_eq!(
        r.url,
        "https://translate.googleapis.com/translate_a/single?client=gtx&sl=fr&tl=de&dt=t&q=already%20encoded"
    );
}

#[test]
fn google_reply_is_read() {
    let v = json(r#"[[["你好", "hello", null], ["世界", "world"], [null, "x"], "junk"], null, "en"]"#);
    check(&google_result(&v, "auto", "zh-CN"), "Google", "你好世界", "en", "zh-CN", None);
}

#[test]
fn google_reply_without_the_expected_parts() {
    check(&google_result(&json("{}"), "auto", "en"), "Google", "", "auto", "en", None);
    check(&google_result(&json("[]"), "fr", "en"), "Google", "", "fr", "en", None);
    check(&google_result(&json(r#"["x", 1, 2]"#), "fr", "en"), "Google", "", "fr", "en", None);
    check(&google_result(&json(r#"[[["a"]]]"#), "fr", "en"), "Google", "a", "fr", "en", None);
}

#[test]
fn google_outcome_on_plain_values() {
    let sentences = vec![Some("A".to_string()), None, Some("B".to_string())];
    check(&google_outcome(&sentences, Some("de"), "auto", "en"), "Google", "AB", "de", "en", None);
    check(&google_outcome(&Vec::new(), None, "auto", "en"), "Google", "", "auto", "en", None);
}

// ---- Bing ----

#[test]
fn bing_names_the_chinese_scripts() {
    assert_eq!(bing_lang("zh-CN"), "zh-Hans");
    assert_eq!(bing_lang("zh-TW"), "zh-Hant");
    assert_eq!(bing_lang("en"), "en");
    assert_eq!(bing_lang("auto"), "auto");
    assert_eq!(bing_lang(""), "");
}

#[test]
fn bing_request_leaves_out_an_open_source() {
    let r = bing_request("hello", "auto", "zh-CN");
    assert_eq!(r.method, Method::Post);
    assert_eq!(
        r.url,
        "https://api.cognitive.microsofttranslator.com/translate?api-version=3.0&to=zh-Hans"
    );
    assert_eq!(pairs(&r.headers), owned(&[("Content-Type", "application/json")]));
    assert!(matches!(r.body, Body::TextItems(ref t) if t == "hello"));
    let r = bing_request("hello", "", "en");
    assert_eq!(
        r.url,
        "https://api.cognitive.microsofttranslator.com/translate?api-version=3.0&to=en"
    );
}

#[test]
fn bing_request_names_a_given_source() {
    let r = bing_request("你好", "zh-TW", "ja");
    assert_eq!(
        r.url,
        "https://api.cognitive.microsofttranslator.com/translate?api-version=3.0&from=zh-Hant&to=ja"
    );
}

#[test]
fn bing_reply_is_read() {
    let v = json(
        r#"[{"detectedLanguage": {"language": "en", "score": 1.0},
             "translations": [{"text": "你好", "to": "zh-Hans"}, {"text": "second"}]}]"#,
    );
    check(&bing_result(&v, "auto", "zh-CN"), "Bing", "你好", "en", "zh-CN", None);
    let v = json(r#"[{"translations": [{"text": "hi"}]}]"#);
    check(&bing_result(&v, "zh-CN", "en"), "Bing", "hi", "zh-CN", "en", None);
}

#[test]
fn bing_reply_without_the_expected_parts() {
    let v = json(r#"{"error": {"code": 401000, "message": "no"}}"#);
    check(&bing_result(&v, "auto", "en"), "Bing", "", "auto", "en", None);
    check(&bing_result(&json("[]"), "auto", "en"), "Bing", "", "auto", "en", None);
    check(&bing_outcome(None, Some("fr"), "auto", "en"), "Bing", "", "fr", "en", None);
    check(&bing_outcome(Some("x"), None, "auto", "en"), "Bing", "x", "auto", "en", None);
}

// ---- DeepL ----

#[test]
fn deepl_codes() {
    assert_eq!(deepl_lang("zh-CN"), "ZH");
    assert_eq!(deepl_lang("zh-TW"), "ZH");
    assert_eq!(deepl_lang("en"), "EN");
    assert_eq!(deepl_lang("ja"), "ja");
}

#[test]
fn deepl_without_key_is_not_configured() {
    let e = deepl_request("hello", "auto", "zh-CN", "").expect_err("no key, no request");
    check(&e, "DeepL", "", "auto", "zh-CN", Some("API key not configured"));
}

#[test]
fn deepl_request_for_a_paid_key() {
    let r = deepl_request("hello", "auto", "zh-CN", "secret").unwrap();
    assert_eq!(r.method, Method::Post);
    assert_eq!(r.url, "https://api.deepl.com/v2/translate");
    assert_eq!(pairs(&r.headers), owned(&[("Authorization", "DeepL-Auth-Key secret")]));
    assert_eq!(form(&r), owned(&[("text", "hello"), ("target_lang", "ZH")]));
}

#[test]
fn deepl_request_for_a_free_key_and_a_given_source() {
    let r = deepl_request("你好", "zh-CN", "en", "secret:fx").unwrap();
    assert_eq!(r.url, "https://api-free.deepl.com/v2/translate");
    assert_eq!(pairs(&r.headers), owned(&[("Authorization", "DeepL-Auth-Key secret:fx")]));
    assert_eq!(
        form(&r),
        owned(&[("text", "你好"), ("target_lang", "EN"), ("source_lang", "ZH")])
    );
    let r = deepl_request("x", "ja", "fr", ":fx").unwrap();
    assert_eq!(r.url, "https://api-free.deepl.com/v2/translate");
    assert_eq!(form(&r), owned(&[("text", "x"), ("target_lang", "fr"), ("source_lang", "ja")]));
}

#[test]
fn deepl_reply_is_read_and_the_language_lowered() {
    let v = json(r#"{"translations": [{"detected_source_language": "EN", "text": "你好"}]}"#);
    check(&deepl_result(&v, "auto", "zh-CN"), "DeepL", "你好", "en", "zh-CN", None);
    let v = json(r#"{"translations": [{"text": "hi"}]}"#);
    check(&deepl_result(&v, "zh-CN", "en"), "DeepL", "hi", "zh-cn", "en", None);
    check(&deepl_result(&json(r#"{"message": "quota"}"#), "AUTO", "en"), "DeepL", "", "auto", "en", None);
    check(&deepl_outcome(Some("t"), Some("DE"), "auto", "en"), "DeepL", "t", "de", "en", None);
}

// ---- Baidu ----

#[test]
fn baidu_codes() {
    for (code, want) in [
        ("auto", "auto"),
        ("zh-CN", "zh"),
        ("zh-TW", "zh"),
        ("en", "en"),
        ("ja", "jp"),
        ("ko", "kor"),
        ("fr", "fra"),
        ("de", "de"),
        ("es", "spa"),
        ("ru", "ru"),
        ("th", "th"),
        ("", ""),
    ] {
        assert_eq!(baidu_lang(code), want);
    }
}

#[test]
fn baidu_without_credentials_is_not_configured() {
    for (id, key) in [("", ""), ("id", ""), ("", "key")] {
        let e = baidu_request("hello", "auto", "zh-CN", id, key).expect_err("nothing is sent");
        check(&e, "Baidu", "", "auto", "zh-CN", Some("API credentials not configured"));
    }
}

#[test]
fn baidu_request_is_signed() {
    // the digest of the digits 1234567890, eight times over
    let r = baidu_signed_request(
        "1234567890123456789012345678901234567890",
        "ja",
        "zh-CN",
        "1234567890",
        "12345678901234567890",
        1234567890,
    );
    assert_eq!(r.method, Method::Post);
    assert_eq!(r.url, "https://fanyi-api.baidu.com/api/trans/vip/translate");
    assert!(r.headers.is_empty());
    assert_eq!(
        form(&r),
        owned(&[
            ("q", "1234567890123456789012345678901234567890"),
            ("from", "jp"),
            ("to", "zh"),
            ("appid", "1234567890"),
            ("salt", "1234567890"),
            ("sign", "57edf4a22be3c955ac49da2e2107b67a"),
        ])
    );
}

#[test]
fn baidu_signature_covers_id_text_salt_and_key() {
    // "a" + "b" + "0" + "c"
    let r = baidu_signed_request("b", "auto", "en", "a", "c", 0);
    let sign = format!("{:x}", md5::compute("ab0c"));
    assert_eq!(
        form(&r),
        owned(&[
            ("q", "b"),
            ("from", "auto"),
            ("to", "en"),
            ("appid", "a"),
            ("salt", "0"),
            ("sign", sign.as_str()),
        ])
    );
    assert_ne!(sign, "ab0c");
}

#[test]
fn baidu_signature_is_the_digest_in_hexadecimal() {
    assert_eq!(sign_text(""), "d41d8cd98f00b204e9800998ecf8427e");
    assert_eq!(sign_text("a"), "0cc175b9c0f1b6a831c399e269772661");
    assert_eq!(sign_text("abc"), "900150983cd24fb0d6963f7d28e17f72");
    assert_eq!(sign_text("message digest"), "f96b697d7cb7938d525a2f31aaf161d0");
    assert_eq!(salt_text(0), "0");
    assert_eq!(salt_text(4294967295), "4294967295");
    let r = baidu_form_request("q", "ko", "fr", "id", 77, "sig");
    assert_eq!(
        form(&r),
        owned(&[
            ("q", "q"),
            ("from", "kor"),
            ("to", "fra"),
            ("appid", "id"),
            ("salt", "77"),
            ("sign", "sig"),
        ])
    );
}

#[test]
fn baidu_request_draws_a_salt() {
    let r = baidu_request("hello", "en", "zh-CN", "id", "key").unwrap();
    let fields = form(&r);
    assert_eq!(fields.len(), 6);
    assert_eq!(fields[0], ("q".to_string(), "hello".to_string()));
    assert_eq!(fields[3], ("appid".to_string(), "id".to_string()));
    assert_eq!(fields[4].0, "salt");
    let salt: u32 = fields[4].1.parse().expect("the salt is a number");
    let same = baidu_signed_request("hello", "en", "zh-CN", "id", "key", salt);
    assert_eq!(form(&same), fields);
    assert_eq!(fields[5].1.len(), 32);
}

#[test]
fn baidu_reply_is_read() {
    let v = json(
        r#"{"from": "en", "to": "zh",
            "trans_result": [{"src": "a", "dst": "甲"}, {"src": "b"}, {"src": "c", "dst": "丙"}]}"#,
    );
    check(&baidu_result(&v, "auto", "zh-CN"), "Baidu", "甲\n丙", "en", "zh-CN", None);
    check(&baidu_result(&json("{}"), "auto", "en"), "Baidu", "", "auto", "en", None);
    check(&baidu_result(&json("[]"), "ja", "en"), "Baidu", "", "ja", "en", None);
}

#[test]
fn baidu_error_reply_is_reported() {
    let v = json(r#"{"error_code": "54001", "error_msg": "Invalid Sign"}"#);
    check(
        &baidu_result(&v, "auto", "en"),
        "Baidu",
        "",
        "auto",
        "en",
        Some("Error \"54001\": Invalid Sign"),
    );
    let v = json(r#"{"error_code": 52003, "trans_result": [{"dst": "x"}], "from": "en"}"#);
    check(&baidu_result(&v, "auto", "en"), "Baidu", "", "auto", "en", Some("Error 52003: Unknown"));
    let v = json(r#"{"error_code": null, "error_msg": 7}"#);
    check(&baidu_result(&v, "auto", "en"), "Baidu", "", "auto", "en", Some("Error null: Unknown"));
    let v = json(r#"{"error_code": {"a": [1, "b"]}}"#);
    check(
        &baidu_result(&v, "auto", "en"),
        "Baidu",
        "",
        "auto",
        "en",
        Some("Error {\"a\":[1,\"b\"]}: Unknown"),
    );
}

#[test]
fn baidu_outcome_on_plain_values() {
    let segments = vec![Some("one".to_string()), Some("two".to_string())];
    check(
        &baidu_outcome(None, None, &segments, Some("en"), "auto", "zh-CN"),
        "Baidu",
        "one\ntwo",
        "en",
        "zh-CN",
        None,
    );
    check(
        &baidu_outcome(Some("58000"), Some("denied"), &segments, Some("en"), "auto", "zh-CN"),
        "Baidu",
        "",
        "auto",
        "zh-CN",
        Some("Error 58000: denied"),
    );
}

// ---- chat completion ----

#[test]
fn language_names() {
    for (code, want) in [
        ("zh-CN", "Simplified Chinese"),
        ("zh-TW", "Traditional Chinese"),
        ("en", "English"),
        ("ja", "Japanese"),
        ("ko", "Korean"),
        ("fr", "French"),
        ("de", "German"),
        ("es", "Spanish"),
        ("ru", "Russian"),
        ("th", "th"),
        ("auto", "auto"),
    ] {
        assert_eq!(lang_name(code), want);
    }
}

#[test]
fn openai_without_key_is_not_configured() {
    let e = openai_request("hello", "auto", "zh-CN", "", "https://x", "m").expect_err("no key");
    check(&e, "AI", "", "auto", "zh-CN", Some("API key not configured"));
}

#[test]
fn openai_request_holds_the_prompt() {
    let r = openai_request("hello", "auto", "zh-CN", "sk-1", "https://api.example/v1", "gpt-4o-mini")
        .unwrap();
    assert_eq!(r.method, Method::Post);
    assert_eq!(r.url, "https://api.example/v1");
    assert_eq!(
        pairs(&r.headers),
        owned(&[("Authorization", "Bearer sk-1"), ("Content-Type", "application/json")])
    );
    match &r.body {
        Body::Chat { model, system, user, max_tokens } => {
            assert_eq!(model, "gpt-4o-mini");
            assert_eq!(
                system,
                "You are a professional translator. Translate the following text from auto-detected language to Simplified Chinese. Only output the translation, no explanations or extra text."
            );
            assert_eq!(user, "hello");
            assert_eq!(*max_tokens, 4096);
            assert_eq!(MAX_TOKENS, 4096);
        }
        _ => panic!("the request carries no chat"),
    }
    let r = openai_request("hallo", "de", "tlh", "k", "u", "m").unwrap();
    match &r.body {
        Body::Chat { system, .. } => assert_eq!(
            system,
            "You are a professional translator. Translate the following text from German to tlh. Only output the translation, no explanations or extra text."
        ),
        _ => panic!("the request carries no chat"),
    }
}

#[test]
fn openai_reply_is_read_and_trimmed() {
    let v = json(r#"{"choices": [{"message": {"role": "assistant", "content": "\n  你好 世界 \n"}}]}"#);
    check(&openai_result(&v, "auto", "zh-CN", "gpt-4o-mini"), "AI (gpt-4o-mini)", "你好 世界", "auto", "zh-CN", None);
    let v = json(r#"{"error": {"message": "bad key"}}"#);
    check(&openai_result(&v, "en", "ja", "m"), "AI (m)", "", "en", "ja", None);
    check(&openai_outcome(Some(" x "), "en", "ja", ""), "AI ()", "x", "en", "ja", None);
    check(&openai_outcome(None, "en", "ja", "m"), "AI (m)", "", "en", "ja", None);
}
