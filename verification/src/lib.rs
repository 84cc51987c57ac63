//! Deep links for map applications, with a web fallback.
//!
//! Given a destination (coordinates as decimal text, a name, or both) and a
//! map provider, the resolver produces the platform-specific scheme URL that
//! opens the provider's native application, and a web URL to use when the
//! native application is unavailable. The orchestrator tries the scheme URL
//! first and falls back to the web URL; the installation checker asks the
//! host for the installed package list where the platform can answer.
//!
//! Launching a URL and listing packages are host capabilities; they enter
//! through the [`orchestrate::Opener`] and [`install::PackageLister`] traits
//! that the host implements outside this crate.

pub mod install;
pub mod model;
pub mod orchestrate;
pub mod resolve;
pub mod text;
