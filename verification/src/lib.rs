//! A chat-driven data-collection assistant: the conversation engine walks a
//! user through a catalog of questions, validates each answer by its type,
//! and can branch into follow-up questions depending on what was answered.
//!
//! The heart of the crate is the per-user [`session::SessionStore`] (a pending
//! queue plus the single currently awaited question) and the update handlers
//! in [`flow`], which turn an inbound message into a store transition and a
//! list of outbound replies. All of it is verified; the I/O shell around it
//! (messaging transport, media store, persistence sink) lives outside the
//! library and exchanges plain values with it.

pub mod catalog;
pub mod collector;
pub mod flow;
pub mod questions;
pub mod records;
pub mod session;
pub mod text;
