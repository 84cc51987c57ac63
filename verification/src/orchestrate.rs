//! Opening a resolved link: native first, web as the fallback.

use vstd::prelude::*;
use vstd::string::StringExecFns;
use crate::model::{
    dest_valid, parse_provider, parse_provider_spec, Destination, LinkKind, NavError,
    NavigationMode, NavigationOutcome, Platform, Provider,
};
use crate::resolve::resolve;

verus! {

/// The host capability that hands a URL to the operating system — a native
/// application or the browser. Failure reasons are opaque text; nothing
/// more is assumed of an implementation.
pub trait Opener {
    fn open_url(&mut self, url: &str) -> Result<(), String>;
}

/// The outcome reported when the native application took the scheme URL.
pub fn native_outcome() -> (o: NavigationOutcome)
    ensures
        o.success,
        o.message@ == "native app launched"@,
{
    NavigationOutcome { success: true, message: String::from_str("native app launched") }
}

/// Settles the web attempt, whatever the opener answered: on desktop an
/// opened web URL is plain success; on a mobile platform it is the
/// fallback after a failed scheme attempt, reported as `success == false`;
/// a failed open becomes `OpenFailed` around the opener's reason, never
/// swallowed.
pub fn web_attempt_outcome(platform: Platform, web_result: Result<(), String>) -> (r: Result<
    NavigationOutcome,
    NavError,
>)
    ensures
        r is Ok <==> web_result is Ok,
        web_result is Ok && platform is Desktop ==> (r matches Ok(o) && o.success && o.message@
            == "opened in browser"@),
        web_result is Ok && !(platform is Desktop) ==> (r matches Ok(o) && !o.success
            && o.message@ == "native app unavailable, opened web fallback"@),
        web_result matches Err(reason) ==> r == Result::<NavigationOutcome, NavError>::Err(
            NavError::OpenFailed(reason),
        ),
{
    match web_result {
        Ok(_) => {
            if platform == Platform::Desktop {
                Ok(NavigationOutcome { success: true, message: String::from_str("opened in browser") })
            } else {
                Ok(
                    NavigationOutcome {
                        success: false,
                        message: String::from_str("native app unavailable, opened web fallback"),
                    },
                )
            }
        },
        Err(reason) => Err(NavError::OpenFailed(reason)),
    }
}

/// The shape every successful outcome has on the given platform.
pub open spec fn outcome_shape(platform: Platform, o: NavigationOutcome) -> bool {
    if platform is Desktop {
        o.success && o.message@ == "opened in browser"@
    } else {
        (o.success && o.message@ == "native app launched"@) || (!o.success && o.message@
            == "native app unavailable, opened web fallback"@)
    }
}

/// Everything `navigate` promises whatever the opener did: an unusable
/// destination is answered with `MissingDestination` and nothing else, a
/// usable one never with a validation error, and every reported outcome
/// has the platform's shape.
pub open spec fn navigate_post(
    d: Destination,
    platform: Platform,
    r: Result<NavigationOutcome, NavError>,
) -> bool {
    &&& (!dest_valid(d) <==> r == Result::<NavigationOutcome, NavError>::Err(
        NavError::MissingDestination,
    ))
    &&& !(r == Result::<NavigationOutcome, NavError>::Err(NavError::UnsupportedProvider))
    &&& (r matches Ok(o) ==> outcome_shape(platform, o))
}

/// Navigates to a destination: on a mobile platform the provider's scheme
/// URL is tried first and, only if the opener refuses it, the web URL with
/// the very same inputs; on desktop the web URL alone. Exactly those one
/// or two attempts are made, in that order, never more.
pub fn navigate<O: Opener>(
    provider: Provider,
    dest: &Destination,
    mode: NavigationMode,
    platform: Platform,
    opener: &mut O,
) -> (r: Result<NavigationOutcome, NavError>)
    ensures
        navigate_post(*dest, platform, r),
{
    if platform == Platform::Desktop {
        let web = match resolve(provider, dest, LinkKind::Web, platform, mode) {
            Ok(u) => u,
            Err(e) => {
                return Err(e);
            },
        };
        let opened = opener.open_url(web.url.as_str());
        web_attempt_outcome(platform, opened)
    } else {
        let scheme = match resolve(provider, dest, LinkKind::Scheme, platform, mode) {
            Ok(u) => u,
            Err(e) => {
                return Err(e);
            },
        };
        match opener.open_url(scheme.url.as_str()) {
            Ok(_) => Ok(native_outcome()),
            Err(_) => {
                let web = match resolve(provider, dest, LinkKind::Web, platform, mode) {
                    Ok(u) => u,
                    Err(e) => {
                        return Err(e);
                    },
                };
                let opened = opener.open_url(web.url.as_str());
                web_attempt_outcome(platform, opened)
            },
        }
    }
}

/// The entry point a caller hands raw values to: coordinates as decimal
/// text, an optional name, the provider by its textual identifier, and
/// whether guidance is to start at once. An unknown identifier is answered
/// with `UnsupportedProvider`; otherwise the call behaves as `navigate`.
pub fn open_map_navigation<O: Opener>(
    lat: Option<String>,
    lng: Option<String>,
    name: Option<String>,
    provider: &str,
    direct_nav: bool,
    platform: Platform,
    opener: &mut O,
) -> (r: Result<NavigationOutcome, NavError>)
    ensures
        parse_provider_spec(provider@) is None ==> r == Result::<
            NavigationOutcome,
            NavError,
        >::Err(NavError::UnsupportedProvider),
        parse_provider_spec(provider@) is Some ==> navigate_post(
            (Destination { lat, lng, name }),
            platform,
            r,
        ),
{
    let p = match parse_provider(provider) {
        Some(p) => p,
        None => {
            return Err(NavError::UnsupportedProvider);
        },
    };
    let dest = Destination { lat, lng, name };
    let mode = if direct_nav {
        NavigationMode::Direct
    } else {
        NavigationMode::RoutePreview
    };
    navigate(p, &dest, mode, platform, opener)
}

} // verus!
