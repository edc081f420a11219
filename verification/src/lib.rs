//! Frame driver for a window that shows a continuously animated vector scene.
//!
//! The crate holds every decision of the render-surface lifecycle: when the
//! presentation surface is reconfigured, when the intermediate target and the
//! compositor's bind group are rebuilt, how the outcome of acquiring a frame
//! is classified, and in what order resources are released on close. Each
//! entry point maps a state and a signal to the next state and to the list of
//! [`render::action::Action`]s that the embedding event loop has to perform.

pub mod app;
pub mod components;
pub mod render;
