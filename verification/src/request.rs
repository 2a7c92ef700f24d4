//! The shapes shared by all provider adapters: the request to send and the
//! results that a reply, or the lack of one, turns into.

use vstd::prelude::*;
use vstd::string::*;
use crate::translate::{TranslateResult, TranslationView};

verus! {

/// The HTTP method of a request.
#[derive(Debug, Clone, Copy, PartialEq, Eq, Structural)]
pub enum Method {
    Get,
    Post,
}

/// A named text: a header, or a field of a form.
#[derive(Debug, Clone)]
pub struct Pair {
    pub name: String,
    pub value: String,
}

impl View for Pair {
    type V = (Seq<char>, Seq<char>);

    open spec fn view(&self) -> (Seq<char>, Seq<char>) {
        (self.name@, self.value@)
    }
}

/// Makes a [`Pair`].
pub fn pair(name: &str, value: &str) -> (p: Pair)
    ensures
        p@ == (name@, value@),
{
    Pair { name: name.to_owned(), value: value.to_owned() }
}

/// The views of a list of pairs.
pub open spec fn pairs_view(pairs: Seq<Pair>) -> Seq<(Seq<char>, Seq<char>)> {
    pairs.map_values(|p: Pair| p@)
}

/// What a request carries.
#[derive(Debug, Clone)]
pub enum Body {
    /// Nothing.
    Empty,
    /// Form fields, sent URL-encoded.
    Form(Vec<Pair>),
    /// A JSON array of one object whose member `Text` is this text.
    TextItems(String),
    /// A chat completion: a JSON object with the model, a system message, a
    /// user message, a sampling temperature of 0.3 and a token limit.
    Chat { model: String, system: String, user: String, max_tokens: u32 },
}

/// The mathematical value of a [`Body`].
pub ghost enum BodyView {
    Empty,
    Form(Seq<(Seq<char>, Seq<char>)>),
    TextItems(Seq<char>),
    Chat { model: Seq<char>, system: Seq<char>, user: Seq<char>, max_tokens: u32 },
}

impl View for Body {
    type V = BodyView;

    open spec fn view(&self) -> BodyView {
        match self {
            Body::Empty => BodyView::Empty,
            Body::Form(fields) => BodyView::Form(pairs_view(fields@)),
            Body::TextItems(t) => BodyView::TextItems(t@),
            Body::Chat { model, system, user, max_tokens } => BodyView::Chat {
                model: model@,
                system: system@,
                user: user@,
                max_tokens: *max_tokens,
            },
        }
    }
}

/// A request for a translation backend, ready to be sent.
#[derive(Debug, Clone)]
pub struct HttpRequest {
    pub method: Method,
    pub url: String,
    pub headers: Vec<Pair>,
    pub body: Body,
}

/// The mathematical value of an [`HttpRequest`].
pub ghost struct RequestView {
    pub method: Method,
    pub url: Seq<char>,
    pub headers: Seq<(Seq<char>, Seq<char>)>,
    pub body: BodyView,
}

impl View for HttpRequest {
    type V = RequestView;

    open spec fn view(&self) -> RequestView {
        RequestView {
            method: self.method,
            url: self.url@,
            headers: pairs_view(self.headers@),
            body: self.body@,
        }
    }
}

/// Why no decoded reply came back.
#[derive(Debug, Clone, Copy, PartialEq, Eq, Structural)]
pub enum Failure {
    /// The request could not be sent or answered.
    Network,
    /// The answer was not the JSON expected.
    Parse,
}

/// The result of a provider that produced no translation.
pub open spec fn error_view(
    service: Seq<char>,
    source: Seq<char>,
    target: Seq<char>,
    message: Seq<char>,
) -> TranslationView {
    TranslationView {
        service,
        translated: Seq::empty(),
        source_lang: source,
        target_lang: target,
        error: Some(message),
    }
}

/// The result of a provider that translated.
pub open spec fn success_view(
    service: Seq<char>,
    translated: Seq<char>,
    source: Seq<char>,
    target: Seq<char>,
) -> TranslationView {
    TranslationView { service, translated, source_lang: source, target_lang: target, error: None }
}

/// The message for a failure with the detail that the transport reported.
pub open spec fn failure_message(failure: Failure, detail: Seq<char>) -> Seq<char> {
    match failure {
        Failure::Network => "Network error: "@ + detail,
        Failure::Parse => "Parse error: "@ + detail,
    }
}

/// Builds the result of a provider that produced no translation.
pub fn error_result(service: &str, source: &str, target: &str, message: String) -> (r:
    TranslateResult)
    ensures
        r@ == error_view(service@, source@, target@, message@),
{
    TranslateResult {
        service: service.to_owned(),
        translated: String::new(),
        source_lang: source.to_owned(),
        target_lang: target.to_owned(),
        error: Some(message),
    }
}

/// Builds the result of a provider that translated.
pub fn success_result(service: String, translated: String, source_lang: String, target: &str) -> (r:
    TranslateResult)
    ensures
        r@ == success_view(service@, translated@, source_lang@, target@),
{
    TranslateResult {
        service,
        translated,
        source_lang,
        target_lang: target.to_owned(),
        error: None,
    }
}

/// Builds the result for a request that failed in transport or decoding:
/// the failure becomes an error on this provider's result.
pub fn failed_result(service: &str, source: &str, target: &str, failure: Failure, detail: &str)
    -> (r: TranslateResult)
    ensures
        r@ == error_view(service@, source@, target@, failure_message(failure, detail@)),
{
    let mut message = match failure {
        Failure::Network => "Network error: ".to_owned(),
        Failure::Parse => "Parse error: ".to_owned(),
    };
    message.append(detail);
    error_result(service, source, target, message)
}

} // verus!
