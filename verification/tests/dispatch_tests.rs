use easydict::config::{AppConfig, ServicesConfig};
use easydict::dispatch::{
    gather, plan_dispatch, plan_translation, task_failed, unit_failure, unit_request, unit_result,
    DispatchUnit, Provider,
};
use easydict::request::{error_result, success_result, Body, Failure, Method};
use easydict::translate::TranslateResult;

fn services(google: bool, bing: bool, deepl: bool, baidu: bool, openai: bool) -> ServicesConfig {
    let mut s = AppConfig::default().services;
    s.google.enabled = google;
    s.bing.enabled = bing;
    s.deepl.enabled = deepl;
    s.deepl.api_key = "deepl-key".to_string();
    s.baidu.enabled = baidu;
    s.baidu.app_id = "baidu-id".to_string();
    s.baidu.secret_key = "baidu-secret".to_string();
    s.openai.enabled = openai;
    s.openai.api_key = "sk-key".to_string();
    s
}

fn providers(units: &[DispatchUnit]) -> Vec<Provider> {
    units.iter().map(|u| u.provider).collect()
}

#[test]
fn every_subset_gets_one_unit_per_enabled_provider() {
    for bits in 0u32..32 {
        let on = |i: u32| bits & (1 << i) != 0;
        let s = services(on(0), on(1), on(2), on(3), on(4));
        let units = plan_dispatch(&s, "text", "auto", "en");
        assert_eq!(units.len() as u32, bits.count_ones());
        let mut want = Vec::new();
        if on(0) {
            want.push(Provider::Google);
        }
        if on(1) {
            want.push(Provider::Bing);
        }
        if on(2) {
            want.push(Provider::DeepL);
        }
        if on(3) {
            want.push(Provider::Baidu);
        }
        if on(4) {
            want.push(Provider::OpenAI);
        }
        assert_eq!(providers(&units), want);
        // whatever becomes of the units, there is one result for each
        let outcomes: Vec<Result<TranslateResult, String>> = units
            .iter()
            .enumerate()
            .map(|(i, u)| match i % 3 {
                0 => Ok(success_result("S".to_string(), "t".to_string(), "en".to_string(), "zh")),
                1 => Ok(unit_failure(u, Failure::Network, "down")),
                _ => Err("panicked".to_string()),
            })
            .collect();
        assert_eq!(gather(&units, outcomes).len() as u32, bits.count_ones());
    }
}

#[test]
fn units_carry_their_own_copies_and_credentials() {
    let s = services(true, true, true, true, true);
    let units = plan_dispatch(&s, "hello", "auto", "zh-CN");
    assert_eq!(units.len(), 5);
    for u in &units {
        assert_eq!(u.text, "hello");
        // the source is passed on as it was asked for
        assert_eq!(u.source, "auto");
        assert_eq!(u.target, "zh-CN");
    }
    let creds = |u: &DispatchUnit| {
        (u.api_key.clone(), u.app_id.clone(), u.secret_key.clone(), u.api_url.clone(), u.model.clone())
    };
    let e = String::new;
    assert_eq!(creds(&units[0]), (e(), e(), e(), e(), e()));
    assert_eq!(creds(&units[1]), (e(), e(), e(), e(), e()));
    assert_eq!(creds(&units[2]), ("deepl-key".to_string(), e(), e(), e(), e()));
    assert_eq!(
        creds(&units[3]),
        (e(), "baidu-id".to_string(), "baidu-secret".to_string(), e(), e())
    );
    assert_eq!(
        creds(&units[4]),
        (
            "sk-key".to_string(),
            e(),
            e(),
            "https://api.openai.com/v1/chat/completions".to_string(),
            "gpt-4o-mini".to_string()
        )
    );
}

#[test]
fn plan_resolves_the_target_but_not_the_source() {
    let s = services(true, false, false, false, false);
    let units = plan_translation(&s, "zh-CN", "你好世界", "auto", "auto");
    assert_eq!(units.len(), 1);
    assert_eq!(units[0].source, "auto");
    assert_eq!(units[0].target, "en");
    let units = plan_translation(&s, "zh-CN", "Hello world", "auto", "auto");
    assert_eq!(units[0].target, "zh-CN");
    let units = plan_translation(&s, "zh-CN", "Hello world", "en", "ja");
    assert_eq!((units[0].source.as_str(), units[0].target.as_str()), ("en", "ja"));
    let none = services(false, false, false, false, false);
    assert!(plan_translation(&none, "zh-CN", "Hello", "auto", "auto").is_empty());
}

#[test]
fn default_configuration_asks_google_and_bing() {
    let units = plan_dispatch(&AppConfig::default().services, "x", "auto", "en");
    assert_eq!(providers(&units), vec![Provider::Google, Provider::Bing]);
}

#[test]
fn unit_requests_go_through_the_adapters() {
    let s = services(true, true, true, true, true);
    let units = plan_dispatch(&s, "hi", "en", "zh-CN");
    let r = unit_request(&units[0]).unwrap();
    assert_eq!(r.method, Method::Get);
    assert!(r.url.starts_with("https://translate.googleapis.com/"));
    assert!(r.url.ends_with("sl=en&tl=zh-CN&dt=t&q=hi"));
    let r = unit_request(&units[1]).unwrap();
    assert!(r.url.ends_with("&from=en&to=zh-Hans"));
    let r = unit_request(&units[2]).unwrap();
    assert_eq!(r.url, "https://api.deepl.com/v2/translate");
    let r = unit_request(&units[3]).unwrap();
    assert_eq!(r.url, "https://fanyi-api.baidu.com/api/trans/vip/translate");
    let r = unit_request(&units[4]).unwrap();
    assert_eq!(r.url, "https://api.openai.com/v1/chat/completions");
    assert!(matches!(r.body, Body::Chat { .. }));
}

#[test]
fn units_without_credentials_resolve_locally() {
    let mut s = services(false, false, true, true, true);
    s.deepl.api_key.clear();
    s.baidu.secret_key.clear();
    s.openai.api_key.clear();
    let units = plan_dispatch(&s, "hi", "auto", "en");
    assert_eq!(units.len(), 3);
    let errors: Vec<(String, Option<String>)> = units
        .iter()
        .map(|u| {
            let e = unit_request(u).expect_err("nothing is sent");
            assert_eq!(e.translated, "");
            assert_eq!((e.source_lang.as_str(), e.target_lang.as_str()), ("auto", "en"));
            (e.service, e.error)
        })
        .collect();
    assert_eq!(
        errors,
        vec![
            ("DeepL".to_string(), Some("API key not configured".to_string())),
            ("Baidu".to_string(), Some("API credentials not configured".to_string())),
            ("AI".to_string(), Some("API key not configured".to_string())),
        ]
    );
}

#[test]
fn unit_results_go_through_the_adapters() {
    let s = services(true, true, true, true, true);
    let units = plan_dispatch(&s, "hi", "auto", "zh-CN");
    let json = |t: &str| -> serde_json::Value { serde_json::from_str(t).unwrap() };
    let r = unit_result(&units[0], &json(r#"[[["你好"]], null, "en"]"#));
    assert_eq!((r.service.as_str(), r.translated.as_str(), r.source_lang.as_str()), ("Google", "你好", "en"));
    let r = unit_result(&units[1], &json(r#"[{"translations": [{"text": "你好"}]}]"#));
    assert_eq!((r.service.as_str(), r.translated.as_str(), r.source_lang.as_str()), ("Bing", "你好", "auto"));
    let r = unit_result(&units[2], &json(r#"{"translations": [{"text": "你好", "detected_source_language": "EN"}]}"#));
    assert_eq!((r.service.as_str(), r.translated.as_str(), r.source_lang.as_str()), ("DeepL", "你好", "en"));
    let r = unit_result(&units[3], &json(r#"{"trans_result": [{"dst": "你好"}], "from": "en"}"#));
    assert_eq!((r.service.as_str(), r.translated.as_str(), r.source_lang.as_str()), ("Baidu", "你好", "en"));
    let r = unit_result(&units[4], &json(r#"{"choices": [{"message": {"content": " 你好 "}}]}"#));
    assert_eq!(
        (r.service.as_str(), r.translated.as_str(), r.source_lang.as_str()),
        ("AI (gpt-4o-mini)", "你好", "auto")
    );
}

#[test]
fn unit_failures_name_the_provider() {
    let s = services(true, true, true, true, true);
    let units = plan_dispatch(&s, "hi", "auto", "en");
    let names: Vec<String> =
        units.iter().map(|u| unit_failure(u, Failure::Parse, "eof").service).collect();
    assert_eq!(names, vec!["Google", "Bing", "DeepL", "Baidu", "AI"]);
    let r = unit_failure(&units[0], Failure::Network, "refused");
    assert_eq!(r.error.as_deref(), Some("Network error: refused"));
    assert_eq!(r.translated, "");
    assert_eq!((r.source_lang.as_str(), r.target_lang.as_str()), ("auto", "en"));
}

#[test]
fn abnormal_end_becomes_a_result_of_its_provider() {
    let s = services(true, true, true, true, true);
    let units = plan_dispatch(&s, "hi", "auto", "en");
    let names: Vec<String> =
        units.iter().map(|u| task_failed(u, "task 7 panicked").service).collect();
    assert_eq!(names, vec!["Google", "Bing", "DeepL", "Baidu", "AI"]);
    let r = task_failed(&units[3], "task 7 panicked");
    assert_eq!(r.service, "Baidu");
    assert_eq!(r.translated, "");
    assert_eq!(r.source_lang, "auto");
    assert_eq!(r.target_lang, "en");
    assert_eq!(r.error.as_deref(), Some("Task error: task 7 panicked"));
}

#[test]
fn gather_keeps_every_outcome_with_its_unit() {
    let s = services(true, true, true, false, false);
    let units = plan_dispatch(&s, "hi", "auto", "zh-CN");
    let outcomes = vec![
        Ok(success_result("Google".to_string(), "a".to_string(), "en".to_string(), "zh-CN")),
        Err("cancelled".to_string()),
        Ok(error_result("DeepL", "auto", "zh-CN", "API key not configured".to_string())),
    ];
    let results = gather(&units, outcomes);
    assert_eq!(results.len(), 3);
    assert_eq!(results[0].service, "Google");
    assert_eq!(results[0].translated, "a");
    assert_eq!(results[0].error, None);
    // the unit that ended abnormally is found under its own provider
    assert_eq!(results[1].service, "Bing");
    assert_eq!(results[1].translated, "");
    assert_eq!(results[1].source_lang, "auto");
    assert_eq!(results[1].target_lang, "zh-CN");
    assert_eq!(results[1].error.as_deref(), Some("Task error: cancelled"));
    assert_eq!(results[2].service, "DeepL");
    assert_eq!(results[2].error.as_deref(), Some("API key not configured"));
    assert!(gather(&Vec::new(), Vec::new()).is_empty());
}

#[test]
fn every_enabled_provider_has_one_entry_even_if_all_units_end_abnormally() {
    for bits in 0u32..32 {
        let on = |i: u32| bits & (1 << i) != 0;
        let s = services(on(0), on(1), on(2), on(3), on(4));
        let units = plan_translation(&s, "zh-CN", "你好世界", "auto", "auto");
        let outcomes: Vec<Result<TranslateResult, String>> =
            units.iter().map(|_| Err("panicked".to_string())).collect();
        let results = gather(&units, outcomes);
        let names: Vec<&str> = results.iter().map(|r| r.service.as_str()).collect();
        let mut want = Vec::new();
        for (i, name) in ["Google", "Bing", "DeepL", "Baidu", "AI"].iter().enumerate() {
            if on(i as u32) {
                want.push(*name);
            }
        }
        assert_eq!(names, want);
        for r in &results {
            assert!(r.error.is_some());
            assert_eq!(r.translated, "");
            assert_eq!(r.source_lang, "auto");
            assert_eq!(r.target_lang, "en");
        }
    }
}
