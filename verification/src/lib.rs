//! Trigger detection and multi-backend orchestration for a desktop
//! translation helper: language heuristics, provider adapters, dispatch
//! planning, screen-region cropping, paragraph reconstruction and the
//! selection monitor's decisions, each with a machine-checked contract.

pub mod text;
pub mod translate;
pub mod monitor;
pub mod codec;
pub mod json;
pub mod request;
pub mod baidu;
pub mod openai;
pub mod deepl;
pub mod bing;
pub mod google;
pub mod ocr;
pub mod config;
pub mod dispatch;
pub mod capture;
pub mod speech;
pub mod shell;
