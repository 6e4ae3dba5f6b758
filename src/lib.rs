//! Turns a free-form search request into an engine-specific query URL,
//! asking a language model only for requests that are not cached yet.

pub mod text;
pub mod engine;
pub mod encode;
pub mod response;
pub mod llm;
pub mod prompt;
pub mod cache;
pub mod search;
pub mod model;
pub mod auth;
