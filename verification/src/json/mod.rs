//! A crawler that reads the JSON documents Twitch answers with into
//! objects whose properties hold strings, lists of strings, objects or
//! lists of objects.

pub mod closing_curly_brace_handler;
pub mod crawler;
pub mod errors;
pub mod json_object;
pub mod json_value;
pub mod reading_object;
pub mod reading_property;
pub mod scope;
