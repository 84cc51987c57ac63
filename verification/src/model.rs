//! The value types the resolver and the orchestrator speak of.

use vstd::prelude::*;
use vstd::string::StringExecFns;
use crate::text::str_eq;

verus! {

/// The map providers this library can address.
#[derive(Clone, Copy, Debug, PartialEq, Eq, Structural)]
pub enum Provider {
    Amap,
    Baidu,
    Tencent,
}

/// The platform the caller runs on. It decides the amap scheme prefix, and
/// desktop callers never try a native scheme at all.
#[derive(Clone, Copy, Debug, PartialEq, Eq, Structural)]
pub enum Platform {
    Android,
    Ios,
    Desktop,
}

/// Whether a resolved link addresses the provider's native application or
/// its web endpoint.
#[derive(Clone, Copy, Debug, PartialEq, Eq, Structural)]
pub enum LinkKind {
    Scheme,
    Web,
}

/// Direct navigation starts turn-by-turn guidance at once; route preview
/// shows the planned route and waits for the user. Only amap distinguishes
/// the two; every other provider always previews the route.
#[derive(Clone, Copy, Debug, PartialEq, Eq, Structural)]
pub enum NavigationMode {
    Direct,
    RoutePreview,
}

/// Where to navigate to. Latitude and longitude carry their decimal text,
/// exactly as it is to appear in the produced URL; the name may be in any
/// script. A destination is usable only when both coordinates are present
/// or the name is present and non-empty.
#[derive(Debug)]
pub struct Destination {
    pub lat: Option<String>,
    pub lng: Option<String>,
    pub name: Option<String>,
}

/// Both coordinates are given; one alone counts for nothing.
pub open spec fn coords_present(d: Destination) -> bool {
    d.lat is Some && d.lng is Some
}

/// A name is given and holds at least one character.
pub open spec fn name_present(d: Destination) -> bool {
    d.name is Some && d.name.unwrap()@.len() > 0
}

/// A destination can be resolved when it has coordinates or a name.
pub open spec fn dest_valid(d: Destination) -> bool {
    coords_present(d) || name_present(d)
}

impl Destination {
    pub fn has_coords(&self) -> (b: bool)
        ensures
            b == coords_present(*self),
    {
        self.lat.is_some() && self.lng.is_some()
    }

    pub fn has_name(&self) -> (b: bool)
        ensures
            b == name_present(*self),
    {
        match &self.name {
            Some(n) => !n.as_str().is_empty(),
            None => false,
        }
    }

    pub fn is_valid(&self) -> (b: bool)
        ensures
            b == dest_valid(*self),
    {
        self.has_coords() || self.has_name()
    }
}

/// A produced URL, marked native when it uses the provider's custom scheme.
#[derive(Debug)]
pub struct ResolvedUrl {
    pub url: String,
    pub native: bool,
}

/// How a navigation request ended when some URL could be opened:
/// `success` means the preferred target (the native application, or the
/// browser on desktop) took the URL; `success == false` means the native
/// application did not, and the web fallback was opened instead.
#[derive(Debug)]
pub struct NavigationOutcome {
    pub success: bool,
    pub message: String,
}

/// Everything that can go wrong: the provider is not one this library
/// knows, the destination carries neither coordinates nor a name, or no
/// URL could be opened at all (the wrapped text is the opener's reason).
#[derive(Debug)]
pub enum NavError {
    UnsupportedProvider,
    MissingDestination,
    OpenFailed(String),
}

impl NavError {
    /// A textual form for callers that surface errors as plain text.
    pub fn message(&self) -> (r: String)
        ensures
            self is UnsupportedProvider ==> r@ == "unsupported map provider"@,
            self is MissingDestination ==> r@ == "destination has neither coordinates nor a name"@,
            self matches NavError::OpenFailed(reason) ==> r@ == "failed to open map: "@ + reason@,
    {
        match self {
            NavError::UnsupportedProvider => String::from_str("unsupported map provider"),
            NavError::MissingDestination => {
                String::from_str("destination has neither coordinates nor a name")
            },
            NavError::OpenFailed(reason) => {
                let mut s = String::from_str("failed to open map: ");
                s.append(reason.as_str());
                s
            },
        }
    }
}

/// The provider a textual identifier names, if any.
pub open spec fn parse_provider_spec(s: Seq<char>) -> Option<Provider> {
    if s == "amap"@ {
        Some(Provider::Amap)
    } else if s == "baidu"@ {
        Some(Provider::Baidu)
    } else if s == "tencent"@ {
        Some(Provider::Tencent)
    } else {
        None
    }
}

/// Parses a provider identifier; every other identifier is rejected.
pub fn parse_provider(s: &str) -> (r: Option<Provider>)
    ensures
        r == parse_provider_spec(s@),
{
    if str_eq(s, "amap") {
        Some(Provider::Amap)
    } else if str_eq(s, "baidu") {
        Some(Provider::Baidu)
    } else if str_eq(s, "tencent") {
        Some(Provider::Tencent)
    } else {
        None
    }
}

} // verus!
