//! Protocol logic of a WebDriver endpoint for desktop applications that embed a web
//! view.
//!
//! Two servers work together. The public server speaks the WebDriver protocol: it
//! keeps the sessions, gives ids to the elements that were found, and turns each
//! command into requests to the embedded server (`plan`, `commands`, `find`, `keys`,
//! `origin`, `session`, `startup`, `upload`). The embedded server runs inside the
//! application: it keeps the current window and frame, and does the work of each
//! request by a script that it hands to the web view (`frames`, `script`,
//! `endpoints`, `actions`). Both decide here and act elsewhere: nothing in this
//! library listens, sends or waits.

pub mod actions;
pub mod commands;
pub mod endpoints;
pub mod error;
pub mod find;
pub mod frames;
pub mod json;
pub mod keys;
pub mod origin;
pub mod outside;
pub mod plan;
pub mod registry;
pub mod script;
pub mod session;
pub mod startup;
pub mod text;
pub mod upload;

pub use endpoints::{default_mime, default_path};
