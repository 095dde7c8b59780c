//! Verified core of a terminal YouTube client: application state machine,
//! key mapping, session restore, cookie parsing, thumbnail decoding and
//! half-block rendering, and text formatting.
pub mod filters;
pub mod text;
pub mod models;
pub mod player;
pub mod saved_searches;
pub mod layout;
pub mod session;
pub mod app;
pub mod navigation;
pub mod dispatch;
pub mod app_laws;
pub mod keymap;
pub mod lines;
pub mod cookies;
pub mod effects;
pub mod controller;
pub mod replies;
pub mod thumbs;
pub mod selection;
pub mod handler_spec;
pub mod handler;
pub mod feed;
pub mod clock;
pub mod format;
pub mod launch;
pub mod handler_laws;
pub mod cookie_laws;
pub mod guards;
pub mod auth;
pub mod imagery;
