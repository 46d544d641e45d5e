pub mod artifact;
pub mod auth;
pub mod checker;
pub mod config;
pub mod content;
pub mod credits;
pub mod credits_laws;
pub mod engine;
pub mod formatter;
pub mod helper;
pub mod jobs;
pub mod ledger;
pub mod ledger_laws;
pub mod oncelabel;
pub mod option_text;
pub mod options;
pub mod paper;
pub mod question;
pub mod questionstacker;
pub mod response;
pub mod status;
pub mod submit;
pub mod text;
pub mod worker;
