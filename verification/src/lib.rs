//! Window management for macOS, driven by keyboard actions.

pub mod action;
pub mod apply;
pub mod command;
pub mod cycle;
pub mod desktop;
pub mod error;
pub mod geometry;
pub mod parse;
pub mod placement;
pub mod sexpr;
pub mod text;
