//! The interaction core of a terminal client for a hierarchical content
//! model: threads of ordered entries, each entry optionally carrying one
//! attached image.  The crate holds the finite-state UI model with its
//! restorable modal overlays, the text-editing engine that keeps logical
//! text, wrap-based layout, cursor, selection and undo history mutually
//! consistent, the mouse hit tester, and the thumbnail cache.  Every side
//! effect the state machine decides on - content-service calls, image
//! persistence, the best-effort backup - is returned as a request value for
//! the surrounding program to perform.

pub mod app;
pub mod clock;
pub mod geometry;
pub mod hit_test;
pub mod image_preview;
pub mod input;
pub mod key_handler;
pub mod models;
pub mod state;
pub mod text_editor;
pub mod text_util;
pub mod widgets;
