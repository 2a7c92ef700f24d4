//! The translation dispatcher's decisions: which target language a request
//! resolves to, which providers are asked with what, and how what they
//! return is gathered. The caller runs the units concurrently.

use vstd::prelude::*;
use vstd::string::*;
use crate::baidu::{baidu_request, baidu_request_view, baidu_configured, baidu_unconfigured,
    baidu_result, baidu_result_view};
use crate::bing::{bing_request, bing_request_view, bing_result, bing_result_view};
use crate::config::ServicesConfig;
use crate::deepl::{deepl_request, deepl_request_view, deepl_unconfigured, deepl_result,
    deepl_result_view};
use crate::google::{google_request, google_request_view, google_result, google_result_view};
use crate::openai::{openai_request, openai_request_view, openai_unconfigured, openai_result,
    openai_result_view};
use crate::request::{error_result, error_view, failed_result, failure_message, Failure,
    HttpRequest};
use crate::text::str_eq;
use crate::translate::{auto_target, auto_target_lang, detect_language, detected_language,
    TranslateResult, TranslationView};

verus! {

/// A translation backend.
#[derive(Debug, Clone, Copy, PartialEq, Eq, Structural)]
pub enum Provider {
    Google,
    Bing,
    DeepL,
    Baidu,
    OpenAI,
}

/// The name under which a provider's failures are reported.
pub open spec fn service_name(p: Provider) -> Seq<char> {
    match p {
        Provider::Google => "Google"@,
        Provider::Bing => "Bing"@,
        Provider::DeepL => "DeepL"@,
        Provider::Baidu => "Baidu"@,
        Provider::OpenAI => "AI"@,
    }
}

/// One unit of the fan-out: a provider with its own copy of the text, the
/// languages and its credentials. Fields that a provider does not use are
/// empty.
#[derive(Debug, Clone)]
pub struct DispatchUnit {
    pub provider: Provider,
    pub text: String,
    pub source: String,
    pub target: String,
    pub api_key: String,
    pub app_id: String,
    pub secret_key: String,
    pub api_url: String,
    pub model: String,
}

/// The mathematical value of a [`DispatchUnit`].
pub ghost struct UnitView {
    pub provider: Provider,
    pub text: Seq<char>,
    pub source: Seq<char>,
    pub target: Seq<char>,
    pub api_key: Seq<char>,
    pub app_id: Seq<char>,
    pub secret_key: Seq<char>,
    pub api_url: Seq<char>,
    pub model: Seq<char>,
}

impl View for DispatchUnit {
    type V = UnitView;

    open spec fn view(&self) -> UnitView {
        UnitView {
            provider: self.provider,
            text: self.text@,
            source: self.source@,
            target: self.target@,
            api_key: self.api_key@,
            app_id: self.app_id@,
            secret_key: self.secret_key@,
            api_url: self.api_url@,
            model: self.model@,
        }
    }
}

/// The values of a list of units.
pub open spec fn units_view(units: Seq<DispatchUnit>) -> Seq<UnitView> {
    Seq::new(units.len(), |i: int| units[i]@)
}

/// The target language of a request. A target other than "auto" stands.
/// Otherwise the source decides, guessed from the text where it is "auto"
/// too: Chinese goes to English, everything else to the default target.
pub open spec fn resolved_target(
    text: Seq<char>,
    source: Seq<char>,
    target: Seq<char>,
    default_target: Seq<char>,
) -> Seq<char> {
    if target == "auto"@ {
        auto_target(
            if source == "auto"@ {
                detected_language(text)
            } else {
                source
            },
            default_target,
        )
    } else {
        target
    }
}

/// Resolves the target language of a request.
pub fn resolve_target(text: &str, source: &str, target: &str, default_target: &str) -> (r: String)
    ensures
        r@ == resolved_target(text@, source@, target@, default_target@),
{
    if str_eq(target, "auto") {
        let actual_source = if str_eq(source, "auto") {
            detect_language(text)
        } else {
            source.to_owned()
        };
        auto_target_lang(actual_source.as_str(), default_target)
    } else {
        target.to_owned()
    }
}

/// A unit without credentials.
pub open spec fn plain_unit(p: Provider, text: Seq<char>, source: Seq<char>, target: Seq<char>)
    -> UnitView {
    UnitView {
        provider: p,
        text,
        source,
        target,
        api_key: Seq::empty(),
        app_id: Seq::empty(),
        secret_key: Seq::empty(),
        api_url: Seq::empty(),
        model: Seq::empty(),
    }
}

/// The unit for a provider, with the credentials that the configuration
/// holds for it.
pub open spec fn unit_for(
    p: Provider,
    s: ServicesConfig,
    text: Seq<char>,
    source: Seq<char>,
    target: Seq<char>,
) -> UnitView {
    let plain = plain_unit(p, text, source, target);
    match p {
        Provider::Google => plain,
        Provider::Bing => plain,
        Provider::DeepL => UnitView { api_key: s.deepl.api_key@, ..plain },
        Provider::Baidu => UnitView {
            app_id: s.baidu.app_id@,
            secret_key: s.baidu.secret_key@,
            ..plain
        },
        Provider::OpenAI => UnitView {
            api_key: s.openai.api_key@,
            api_url: s.openai.api_url@,
            model: s.openai.model@,
            ..plain
        },
    }
}

/// Whether the configuration switches a provider on.
pub open spec fn provider_enabled(s: ServicesConfig, p: Provider) -> bool {
    match p {
        Provider::Google => s.google.enabled,
        Provider::Bing => s.bing.enabled,
        Provider::DeepL => s.deepl.enabled,
        Provider::Baidu => s.baidu.enabled,
        Provider::OpenAI => s.openai.enabled,
    }
}

/// The unit of a provider if it is switched on, as a list of one or none.
pub open spec fn unit_if_enabled(
    p: Provider,
    s: ServicesConfig,
    text: Seq<char>,
    source: Seq<char>,
    target: Seq<char>,
) -> Seq<UnitView> {
    if provider_enabled(s, p) {
        seq![unit_for(p, s, text, source, target)]
    } else {
        Seq::empty()
    }
}

/// The units of a dispatch: one for each provider that is switched on, in
/// the order Google, Bing, DeepL, Baidu, OpenAI.
pub open spec fn planned_units(
    s: ServicesConfig,
    text: Seq<char>,
    source: Seq<char>,
    target: Seq<char>,
) -> Seq<UnitView> {
    unit_if_enabled(Provider::Google, s, text, source, target) + unit_if_enabled(
        Provider::Bing,
        s,
        text,
        source,
        target,
    ) + unit_if_enabled(Provider::DeepL, s, text, source, target) + unit_if_enabled(
        Provider::Baidu,
        s,
        text,
        source,
        target,
    ) + unit_if_enabled(Provider::OpenAI, s, text, source, target)
}

/// One if the condition holds, else zero.
pub open spec fn one_if(b: bool) -> nat {
    if b {
        1
    } else {
        0
    }
}

/// How many providers the configuration switches on.
pub open spec fn enabled_count(s: ServicesConfig) -> nat {
    one_if(s.google.enabled) + one_if(s.bing.enabled) + one_if(s.deepl.enabled) + one_if(
        s.baidu.enabled,
    ) + one_if(s.openai.enabled)
}

fn new_unit(p: Provider, text: &str, source: &str, target: &str) -> (u: DispatchUnit)
    ensures
        u@ == plain_unit(p, text@, source@, target@),
{
    DispatchUnit {
        provider: p,
        text: text.to_owned(),
        source: source.to_owned(),
        target: target.to_owned(),
        api_key: String::new(),
        app_id: String::new(),
        secret_key: String::new(),
        api_url: String::new(),
        model: String::new(),
    }
}

/// Plans the fan-out for a request whose target is resolved: one unit for
/// every provider that is switched on, and none for the others. The source
/// is passed on as it was asked for, "auto" included.
pub fn plan_dispatch(services: &ServicesConfig, text: &str, source: &str, target: &str) -> (units:
    Vec<DispatchUnit>)
    ensures
        units_view(units@) == planned_units(*services, text@, source@, target@),
        units@.len() == enabled_count(*services),
{
    let mut units: Vec<DispatchUnit> = Vec::new();
    let ghost s = *services;
    proof {
        assert(units_view(units@) =~= Seq::empty());
    }
    if services.google.enabled {
        let u = new_unit(Provider::Google, text, source, target);
        let ghost before = units_view(units@);
        units.push(u);
        proof {
            assert(units_view(units@) =~= before.push(u@));
        }
    }
    proof {
        assert(units_view(units@) =~= unit_if_enabled(Provider::Google, s, text@, source@, target@));
    }
    if services.bing.enabled {
        let u = new_unit(Provider::Bing, text, source, target);
        let ghost before = units_view(units@);
        units.push(u);
        proof {
            assert(units_view(units@) =~= before.push(u@));
        }
    }
    proof {
        assert(units_view(units@) =~= unit_if_enabled(Provider::Google, s, text@, source@, target@)
            + unit_if_enabled(Provider::Bing, s, text@, source@, target@));
    }
    if services.deepl.enabled {
        let mut u = new_unit(Provider::DeepL, text, source, target);
        u.api_key = services.deepl.api_key.clone();
        let ghost before = units_view(units@);
        units.push(u);
        proof {
            assert(units_view(units@) =~= before.push(u@));
        }
    }
    proof {
        assert(units_view(units@) =~= unit_if_enabled(Provider::Google, s, text@, source@, target@)
            + unit_if_enabled(Provider::Bing, s, text@, source@, target@) + unit_if_enabled(
            Provider::DeepL,
            s,
            text@,
            source@,
            target@,
        ));
    }
    if services.baidu.enabled {
        let mut u = new_unit(Provider::Baidu, text, source, target);
        u.app_id = services.baidu.app_id.clone();
        u.secret_key = services.baidu.secret_key.clone();
        let ghost before = units_view(units@);
        units.push(u);
        proof {
            assert(units_view(units@) =~= before.push(u@));
        }
    }
    proof {
        assert(units_view(units@) =~= unit_if_enabled(Provider::Google, s, text@, source@, target@)
            + unit_if_enabled(Provider::Bing, s, text@, source@, target@) + unit_if_enabled(
            Provider::DeepL,
            s,
            text@,
            source@,
            target@,
        ) + unit_if_enabled(Provider::Baidu, s, text@, source@, target@));
    }
    if services.openai.enabled {
        let mut u = new_unit(Provider::OpenAI, text, source, target);
        u.api_key = services.openai.api_key.clone();
        u.api_url = services.openai.api_url.clone();
        u.model = services.openai.model.clone();
        let ghost before = units_view(units@);
        units.push(u);
        proof {
            assert(units_view(units@) =~= before.push(u@));
        }
    }
    proof {
        assert(units_view(units@) =~= planned_units(s, text@, source@, target@));
    }
    units
}

/// Plans the fan-out for a request as the user made it: resolves the target
/// and makes one unit for every provider that is switched on.
pub fn plan_translation(
    services: &ServicesConfig,
    default_target: &str,
    text: &str,
    source: &str,
    target: &str,
) -> (units: Vec<DispatchUnit>)
    ensures
        units_view(units@) == planned_units(
            *services,
            text@,
            source@,
            resolved_target(text@, source@, target@, default_target@),
        ),
        units@.len() == enabled_count(*services),
{
    let actual_target = resolve_target(text, source, target, default_target);
    plan_dispatch(services, text, source, actual_target.as_str())
}

/// The result with which a unit resolves at once, without a request: that
/// of a provider whose credentials are missing.
pub open spec fn local_result(u: UnitView) -> Option<TranslationView> {
    match u.provider {
        Provider::Google => None,
        Provider::Bing => None,
        Provider::DeepL => if u.api_key.len() == 0 {
            Some(deepl_unconfigured(u.source, u.target))
        } else {
            None
        },
        Provider::Baidu => if !baidu_configured(u.app_id, u.secret_key) {
            Some(baidu_unconfigured(u.source, u.target))
        } else {
            None
        },
        Provider::OpenAI => if u.api_key.len() == 0 {
            Some(openai_unconfigured(u.source, u.target))
        } else {
            None
        },
    }
}

/// Prepares a unit's request by its provider's adapter.
///
/// A unit without the credentials that its provider needs resolves at once
/// to the provider's "not configured" result. Every other unit gets its
/// provider's request; Baidu's is signed with a salt drawn at random.
pub fn unit_request(unit: &DispatchUnit) -> (r: Result<HttpRequest, TranslateResult>)
    ensures
        match r {
            Ok(request) => local_result(unit@) is None && match unit.provider {
                Provider::Google => request@ == google_request_view(
                    unit.text@,
                    unit.source@,
                    unit.target@,
                ),
                Provider::Bing => request@ == bing_request_view(
                    unit.text@,
                    unit.source@,
                    unit.target@,
                ),
                Provider::DeepL => request@ == deepl_request_view(
                    unit.text@,
                    unit.source@,
                    unit.target@,
                    unit.api_key@,
                ),
                Provider::Baidu => exists|salt: u32|
                    request@ == baidu_request_view(
                        unit.text@,
                        unit.source@,
                        unit.target@,
                        unit.app_id@,
                        unit.secret_key@,
                        salt,
                    ),
                Provider::OpenAI => request@ == openai_request_view(
                    unit.text@,
                    unit.source@,
                    unit.target@,
                    unit.api_key@,
                    unit.api_url@,
                    unit.model@,
                ),
            },
            Err(e) => local_result(unit@) == Some(e@),
        },
{
    let text = unit.text.as_str();
    let source = unit.source.as_str();
    let target = unit.target.as_str();
    match unit.provider {
        Provider::Google => Ok(google_request(text, source, target)),
        Provider::Bing => Ok(bing_request(text, source, target)),
        Provider::DeepL => deepl_request(text, source, target, unit.api_key.as_str()),
        Provider::Baidu => baidu_request(
            text,
            source,
            target,
            unit.app_id.as_str(),
            unit.secret_key.as_str(),
        ),
        Provider::OpenAI => openai_request(
            text,
            source,
            target,
            unit.api_key.as_str(),
            unit.api_url.as_str(),
            unit.model.as_str(),
        ),
    }
}

/// The result of a unit for a decoded reply, by its provider's adapter.
pub open spec fn unit_result_view(u: UnitView, json: serde_json::Value) -> TranslationView {
    match u.provider {
        Provider::Google => google_result_view(json, u.source, u.target),
        Provider::Bing => bing_result_view(json, u.source, u.target),
        Provider::DeepL => deepl_result_view(json, u.source, u.target),
        Provider::Baidu => baidu_result_view(json, u.source, u.target),
        Provider::OpenAI => openai_result_view(json, u.source, u.target, u.model),
    }
}

/// Reads a unit's decoded reply by its provider's adapter.
pub fn unit_result(unit: &DispatchUnit, json: &serde_json::Value) -> (r: TranslateResult)
    ensures
        r@ == unit_result_view(unit@, *json),
{
    let source = unit.source.as_str();
    let target = unit.target.as_str();
    match unit.provider {
        Provider::Google => google_result(json, source, target),
        Provider::Bing => bing_result(json, source, target),
        Provider::DeepL => deepl_result(json, source, target),
        Provider::Baidu => baidu_result(json, source, target),
        Provider::OpenAI => openai_result(json, source, target, unit.model.as_str()),
    }
}

fn provider_name(p: Provider) -> (name: String)
    ensures
        name@ == service_name(p),
{
    match p {
        Provider::Google => "Google".to_owned(),
        Provider::Bing => "Bing".to_owned(),
        Provider::DeepL => "DeepL".to_owned(),
        Provider::Baidu => "Baidu".to_owned(),
        Provider::OpenAI => "AI".to_owned(),
    }
}

/// The result of a unit whose request failed in transport or decoding.
pub fn unit_failure(unit: &DispatchUnit, failure: Failure, detail: &str) -> (r: TranslateResult)
    ensures
        r@ == error_view(
            service_name(unit.provider),
            unit.source@,
            unit.target@,
            failure_message(failure, detail@),
        ),
{
    let name = provider_name(unit.provider);
    failed_result(name.as_str(), unit.source.as_str(), unit.target.as_str(), failure, detail)
}

/// The result that stands for a unit that ended abnormally: an error under
/// the unit's own provider, with the unit's languages.
pub open spec fn task_failed_view(u: UnitView, detail: Seq<char>) -> TranslationView {
    error_view(service_name(u.provider), u.source, u.target, "Task error: "@ + detail)
}

/// What a unit that ran to its end, or did not, contributes to the results.
pub open spec fn gathered_one(u: UnitView, outcome: Result<TranslateResult, String>)
    -> TranslationView {
    match outcome {
        Ok(r) => r@,
        Err(detail) => task_failed_view(u, detail@),
    }
}

/// The results of a dispatch: one for each unit, in the order of the units.
pub open spec fn gathered(units: Seq<UnitView>, outcomes: Seq<Result<TranslateResult, String>>)
    -> Seq<TranslationView> {
    Seq::new(units.len(), |i: int| gathered_one(units[i], outcomes[i]))
}

/// The values of a list of results.
pub open spec fn results_view(results: Seq<TranslateResult>) -> Seq<TranslationView> {
    Seq::new(results.len(), |i: int| results[i]@)
}

/// Builds the result that stands for a unit that ended abnormally.
pub fn task_failed(unit: &DispatchUnit, detail: &str) -> (r: TranslateResult)
    ensures
        r@ == task_failed_view(unit@, detail@),
{
    let mut message = "Task error: ".to_owned();
    message.append(detail);
    let name = provider_name(unit.provider);
    error_result(name.as_str(), unit.source.as_str(), unit.target.as_str(), message)
}

/// Gathers the outcomes of all units into the result set, each outcome
/// with its unit: the result of each unit that ran to its end, and for each
/// that did not an error under that unit's provider. Never fails, and drops
/// nothing.
pub fn gather(units: &Vec<DispatchUnit>, outcomes: Vec<Result<TranslateResult, String>>) -> (results:
    Vec<TranslateResult>)
    requires
        outcomes@.len() == units@.len(),
    ensures
        results@.len() == units@.len(),
        results_view(results@) == gathered(units_view(units@), outcomes@),
        forall|i: int|
            0 <= i < units@.len() ==> (#[trigger] results@[i])@ == match outcomes@[i] {
                Ok(r) => r@,
                Err(d) => error_view(
                    service_name(units@[i].provider),
                    units@[i].source@,
                    units@[i].target@,
                    "Task error: "@ + d@,
                ),
            },
{
    let mut results: Vec<TranslateResult> = Vec::new();
    let ghost all = outcomes@;
    let mut rest = outcomes;
    let n = rest.len();
    let mut i: usize = 0;
    while i < n
        invariant
            i <= n,
            n == all.len(),
            n == units@.len(),
            rest@.len() == n,
            results@.len() == i,
            forall|j: int| i <= j < n ==> rest@[j] == all[j],
            forall|j: int|
                0 <= j < i ==> (#[trigger] results@[j])@ == gathered_one(units@[j]@, all[j]),
        decreases n - i,
    {
        let mut taken: Result<TranslateResult, String> = Err(String::new());
        core::mem::swap(&mut rest[i], &mut taken);
        let r = match taken {
            Ok(r) => r,
            Err(detail) => task_failed(&units[i], detail.as_str()),
        };
        results.push(r);
        i = i + 1;
    }
    proof {
        assert(results_view(results@) =~= gathered(units_view(units@), all));
    }
    results
}

/// Where the unit of a provider stands in the plan: behind the units of
/// the providers that come before it and are switched on.
pub open spec fn position_of(s: ServicesConfig, p: Provider) -> int {
    match p {
        Provider::Google => 0,
        Provider::Bing => one_if(s.google.enabled) as int,
        Provider::DeepL => (one_if(s.google.enabled) + one_if(s.bing.enabled)) as int,
        Provider::Baidu => (one_if(s.google.enabled) + one_if(s.bing.enabled) + one_if(
            s.deepl.enabled,
        )) as int,
        Provider::OpenAI => (one_if(s.google.enabled) + one_if(s.bing.enabled) + one_if(
            s.deepl.enabled,
        ) + one_if(s.baidu.enabled)) as int,
    }
}

/// Every provider that is switched on has its unit in the plan, at its
/// position.
pub proof fn enabled_provider_has_its_unit(
    services: ServicesConfig,
    text: Seq<char>,
    source: Seq<char>,
    target: Seq<char>,
    p: Provider,
)
    requires
        provider_enabled(services, p),
    ensures
        0 <= position_of(services, p) < planned_units(services, text, source, target).len(),
        planned_units(services, text, source, target)[position_of(services, p)] == unit_for(
            p,
            services,
            text,
            source,
            target,
        ),
{
}

/// Every unit of the plan belongs to a provider that is switched on and
/// stands at that provider's position, so that no provider has two units
/// and none that is switched off has any; and it carries the text, the
/// source and the target of the dispatch.
pub proof fn unit_has_its_enabled_provider(
    services: ServicesConfig,
    text: Seq<char>,
    source: Seq<char>,
    target: Seq<char>,
    i: int,
)
    requires
        0 <= i < planned_units(services, text, source, target).len(),
    ensures
        ({
            let u = planned_units(services, text, source, target)[i];
            &&& provider_enabled(services, u.provider)
            &&& position_of(services, u.provider) == i
            &&& u == unit_for(u.provider, services, text, source, target)
            &&& u.text == text && u.source == source && u.target == target
        }),
{
}

/// A dispatch is complete: where every planned unit comes to some outcome,
/// there are as many results as providers switched on, whether the units
/// succeeded, failed or ended abnormally; and the result of a unit that
/// ended abnormally is an error under that unit's provider, with an empty
/// translation and the target of the dispatch.
pub proof fn dispatch_is_complete(
    services: ServicesConfig,
    text: Seq<char>,
    source: Seq<char>,
    target: Seq<char>,
    outcomes: Seq<Result<TranslateResult, String>>,
)
    requires
        outcomes.len() == planned_units(services, text, source, target).len(),
    ensures
        gathered(planned_units(services, text, source, target), outcomes).len() == enabled_count(
            services,
        ),
        forall|i: int|
            0 <= i < outcomes.len() && outcomes[i] is Err ==> {
                let unit = planned_units(services, text, source, target)[i];
                let r = #[trigger] gathered(
                    planned_units(services, text, source, target),
                    outcomes,
                )[i];
                &&& provider_enabled(services, unit.provider)
                &&& r.service == service_name(unit.provider)
                &&& r.error is Some
                &&& r.translated.len() == 0
                &&& r.source_lang == source
                &&& r.target_lang == target
            },
{
}

} // verus!
