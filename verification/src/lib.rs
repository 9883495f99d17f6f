//! Verified core of a single-page portfolio site: scroll-driven navigation
//! state, light/dark theme preference, and in-page link interception.
//!
//! The browser supplies raw inputs (scroll offsets, stored strings, an
//! element tree); every decision made from those inputs lives here, with a
//! contract, and the unverified shell only performs the resulting effects.

pub mod anchor;
pub mod nav;
pub mod sections;
pub mod text;
pub mod theme;
