//! Resolution of a destination and a provider to one exact URL.
//!
//! Every URL this module can produce is written down, character for
//! character, as a spec function; the executable builders are proved to
//! return exactly those characters.

use vstd::prelude::*;
use vstd::string::StringExecFns;
use crate::model::{
    coords_present, dest_valid, name_present, Destination, LinkKind, NavError, NavigationMode,
    Platform, Provider, ResolvedUrl,
};

verus! {

/// The decimal text of the latitude, where coordinates are present.
pub open spec fn lat_chars(d: Destination) -> Seq<char>
    recommends
        coords_present(d),
{
    d.lat.unwrap()@
}

/// The decimal text of the longitude, where coordinates are present.
pub open spec fn lng_chars(d: Destination) -> Seq<char>
    recommends
        coords_present(d),
{
    d.lng.unwrap()@
}

/// The destination name, where one is present.
pub open spec fn name_chars(d: Destination) -> Seq<char>
    recommends
        name_present(d),
{
    d.name.unwrap()@
}

/// The amap scheme prefix is the one platform-dependent part of any scheme
/// link. Desktop callers never ask for a scheme link (the orchestrator goes
/// straight to the web URL there); the android form stands in where one is
/// requested anyway.
pub open spec fn amap_scheme_prefix(platform: Platform) -> Seq<char> {
    if platform is Ios {
        "iosamap"@
    } else {
        "androidamap"@
    }
}

/// The tail of an amap "start guidance now" link: both coordinates, and the
/// name as a POI label only when one is present.
pub open spec fn amap_navi_tail(d: Destination) -> Seq<char>
    recommends
        coords_present(d),
{
    let base = "://navi?sourceApplication=express&lat="@ + lat_chars(d) + "&lon="@ + lng_chars(d)
        + "&dev=0&style=2"@;
    if name_present(d) {
        base + "&poiname="@ + name_chars(d)
    } else {
        base
    }
}

/// The tail of an amap route-planning link, in one of three shapes:
/// coordinates with a name, coordinates alone, or a name alone.
pub open spec fn amap_route_tail(d: Destination) -> Seq<char>
    recommends
        dest_valid(d),
{
    if coords_present(d) && name_present(d) {
        "://route/plan?sourceApplication=express&dlat="@ + lat_chars(d) + "&dlon="@ + lng_chars(d)
            + "&dname="@ + name_chars(d) + "&dev=0&t=0"@
    } else if coords_present(d) {
        "://route/plan?sourceApplication=express&dlat="@ + lat_chars(d) + "&dlon="@ + lng_chars(d)
            + "&dev=0&t=0"@
    } else {
        "://route/plan?sourceApplication=express&dname="@ + name_chars(d) + "&dev=0&t=0"@
    }
}

/// What follows the amap scheme prefix: guidance starts at once only in
/// direct mode with coordinates; direct mode without coordinates degrades
/// to the route-preview shape.
pub open spec fn amap_scheme_tail(d: Destination, mode: NavigationMode) -> Seq<char>
    recommends
        dest_valid(d),
{
    if mode is Direct && coords_present(d) {
        amap_navi_tail(d)
    } else {
        amap_route_tail(d)
    }
}

/// The baidu destination fragment, shared by the scheme and the web link.
pub open spec fn baidu_destination(d: Destination) -> Seq<char>
    recommends
        dest_valid(d),
{
    if coords_present(d) && name_present(d) {
        "latlng:"@ + lat_chars(d) + ","@ + lng_chars(d) + "|name:"@ + name_chars(d)
    } else if coords_present(d) {
        "latlng:"@ + lat_chars(d) + ","@ + lng_chars(d)
    } else {
        name_chars(d)
    }
}

/// The baidu scheme link; the platform plays no part in it.
pub open spec fn baidu_scheme_url(d: Destination) -> Seq<char>
    recommends
        dest_valid(d),
{
    "baidumap://map/direction?destination="@ + baidu_destination(d)
        + "&coord_type=bd09ll&mode=driving"@
}

/// The baidu web link.
pub open spec fn baidu_web_url(d: Destination) -> Seq<char>
    recommends
        dest_valid(d),
{
    "https://api.map.baidu.com/direction?destination="@ + baidu_destination(d)
        + "&coord_type=gcj02&mode=driving&output=html"@
}

/// The tencent route query, shared by the scheme and the web link.
pub open spec fn tencent_route_query(d: Destination) -> Seq<char>
    recommends
        dest_valid(d),
{
    if coords_present(d) && name_present(d) {
        "&to="@ + name_chars(d) + "&tocoord="@ + lat_chars(d) + ","@ + lng_chars(d)
    } else if coords_present(d) {
        "&tocoord="@ + lat_chars(d) + ","@ + lng_chars(d)
    } else {
        "&to="@ + name_chars(d)
    }
}

/// The tencent scheme link; the platform plays no part in it.
pub open spec fn tencent_scheme_url(d: Destination) -> Seq<char>
    recommends
        dest_valid(d),
{
    "qqmap://map/routeplan?type=drive"@ + tencent_route_query(d)
}

/// The tencent web link.
pub open spec fn tencent_web_url(d: Destination) -> Seq<char>
    recommends
        dest_valid(d),
{
    "https://apis.map.qq.com/uri/v1/routeplan?type=drive"@ + tencent_route_query(d)
}

/// The amap web destination. This endpoint takes the longitude before the
/// latitude; the order is what the provider's API expects, not a slip.
pub open spec fn amap_web_destination(d: Destination) -> Seq<char>
    recommends
        dest_valid(d),
{
    if coords_present(d) && name_present(d) {
        lng_chars(d) + ","@ + lat_chars(d) + ","@ + name_chars(d)
    } else if coords_present(d) {
        lng_chars(d) + ","@ + lat_chars(d)
    } else {
        name_chars(d)
    }
}

/// The amap web link.
pub open spec fn amap_web_url(d: Destination) -> Seq<char>
    recommends
        dest_valid(d),
{
    "https://uri.amap.com/navigation?to="@ + amap_web_destination(d)
}

/// The scheme link for any provider.
pub open spec fn scheme_url_spec(
    provider: Provider,
    d: Destination,
    platform: Platform,
    mode: NavigationMode,
) -> Seq<char>
    recommends
        dest_valid(d),
{
    match provider {
        Provider::Amap => amap_scheme_prefix(platform) + amap_scheme_tail(d, mode),
        Provider::Baidu => baidu_scheme_url(d),
        Provider::Tencent => tencent_scheme_url(d),
    }
}

/// The web link for any provider. No provider starts guidance from the web,
/// so the navigation mode plays no part here.
pub open spec fn web_url_spec(provider: Provider, d: Destination) -> Seq<char>
    recommends
        dest_valid(d),
{
    match provider {
        Provider::Amap => amap_web_url(d),
        Provider::Baidu => baidu_web_url(d),
        Provider::Tencent => tencent_web_url(d),
    }
}

/// The one URL that resolution produces for the given inputs.
pub open spec fn url_spec(
    provider: Provider,
    d: Destination,
    kind: LinkKind,
    platform: Platform,
    mode: NavigationMode,
) -> Seq<char>
    recommends
        dest_valid(d),
{
    match kind {
        LinkKind::Scheme => scheme_url_spec(provider, d, platform, mode),
        LinkKind::Web => web_url_spec(provider, d),
    }
}

/// Everything `resolve` promises: it succeeds exactly on usable
/// destinations, a failure is always `MissingDestination`, and a success
/// carries exactly the characters of `url_spec` with the native flag set
/// for scheme links.
pub open spec fn resolve_post(
    provider: Provider,
    d: Destination,
    kind: LinkKind,
    platform: Platform,
    mode: NavigationMode,
    r: Result<ResolvedUrl, NavError>,
) -> bool {
    &&& (r is Ok <==> dest_valid(d))
    &&& (!dest_valid(d) ==> r == Result::<ResolvedUrl, NavError>::Err(
        NavError::MissingDestination,
    ))
    &&& (r matches Ok(u) ==> u.url@ == url_spec(provider, d, kind, platform, mode) && u.native
        == (kind is Scheme))
}

/// The string slice inside an option known to be filled.
fn opt_str<'a>(o: &'a Option<String>) -> (r: &'a str)
    requires
        o is Some,
    ensures
        r@ == o.unwrap()@,
{
    o.as_ref().unwrap().as_str()
}

/// Builds the amap scheme link.
fn build_amap_scheme(d: &Destination, platform: Platform, mode: NavigationMode) -> (s: String)
    requires
        dest_valid(*d),
    ensures
        s@ == scheme_url_spec(Provider::Amap, *d, platform, mode),
{
    let mut s = match platform {
        Platform::Ios => String::from_str("iosamap"),
        _ => String::from_str("androidamap"),
    };
    if mode == NavigationMode::Direct && d.has_coords() {
        s.append("://navi?sourceApplication=express&lat=");
        s.append(opt_str(&d.lat));
        s.append("&lon=");
        s.append(opt_str(&d.lng));
        s.append("&dev=0&style=2");
        if d.has_name() {
            s.append("&poiname=");
            s.append(opt_str(&d.name));
        }
    } else if d.has_coords() {
        s.append("://route/plan?sourceApplication=express&dlat=");
        s.append(opt_str(&d.lat));
        s.append("&dlon=");
        s.append(opt_str(&d.lng));
        if d.has_name() {
            s.append("&dname=");
            s.append(opt_str(&d.name));
        }
        s.append("&dev=0&t=0");
    } else {
        s.append("://route/plan?sourceApplication=express&dname=");
        s.append(opt_str(&d.name));
        s.append("&dev=0&t=0");
    }
    proof {
        assert(s@ =~= scheme_url_spec(Provider::Amap, *d, platform, mode));
    }
    s
}

/// Builds the baidu scheme link.
fn build_baidu_scheme(d: &Destination) -> (s: String)
    requires
        dest_valid(*d),
    ensures
        s@ == baidu_scheme_url(*d),
{
    let mut s = String::from_str("baidumap://map/direction?destination=");
    append_baidu_destination(&mut s, d);
    s.append("&coord_type=bd09ll&mode=driving");
    proof {
        assert(s@ =~= baidu_scheme_url(*d));
    }
    s
}

/// Builds the baidu web link.
fn build_baidu_web(d: &Destination) -> (s: String)
    requires
        dest_valid(*d),
    ensures
        s@ == baidu_web_url(*d),
{
    let mut s = String::from_str("https://api.map.baidu.com/direction?destination=");
    append_baidu_destination(&mut s, d);
    s.append("&coord_type=gcj02&mode=driving&output=html");
    proof {
        assert(s@ =~= baidu_web_url(*d));
    }
    s
}

/// Appends the baidu destination fragment.
fn append_baidu_destination(s: &mut String, d: &Destination)
    requires
        dest_valid(*d),
    ensures
        final(s)@ == old(s)@ + baidu_destination(*d),
{
    if d.has_coords() {
        s.append("latlng:");
        s.append(opt_str(&d.lat));
        s.append(",");
        s.append(opt_str(&d.lng));
        if d.has_name() {
            s.append("|name:");
            s.append(opt_str(&d.name));
        }
    } else {
        s.append(opt_str(&d.name));
    }
    proof {
        assert(s@ =~= old(s)@ + baidu_destination(*d));
    }
}

/// Appends the tencent route query.
fn append_tencent_query(s: &mut String, d: &Destination)
    requires
        dest_valid(*d),
    ensures
        final(s)@ == old(s)@ + tencent_route_query(*d),
{
    if d.has_coords() {
        if d.has_name() {
            s.append("&to=");
            s.append(opt_str(&d.name));
        }
        s.append("&tocoord=");
        s.append(opt_str(&d.lat));
        s.append(",");
        s.append(opt_str(&d.lng));
    } else {
        s.append("&to=");
        s.append(opt_str(&d.name));
    }
    proof {
        assert(s@ =~= old(s)@ + tencent_route_query(*d));
    }
}

/// Builds the tencent scheme link.
fn build_tencent_scheme(d: &Destination) -> (s: String)
    requires
        dest_valid(*d),
    ensures
        s@ == tencent_scheme_url(*d),
{
    let mut s = String::from_str("qqmap://map/routeplan?type=drive");
    append_tencent_query(&mut s, d);
    proof {
        assert(s@ =~= tencent_scheme_url(*d));
    }
    s
}

/// Builds the tencent web link.
fn build_tencent_web(d: &Destination) -> (s: String)
    requires
        dest_valid(*d),
    ensures
        s@ == tencent_web_url(*d),
{
    let mut s = String::from_str("https://apis.map.qq.com/uri/v1/routeplan?type=drive");
    append_tencent_query(&mut s, d);
    proof {
        assert(s@ =~= tencent_web_url(*d));
    }
    s
}

/// Builds the amap web link.
fn build_amap_web(d: &Destination) -> (s: String)
    requires
        dest_valid(*d),
    ensures
        s@ == amap_web_url(*d),
{
    let mut s = String::from_str("https://uri.amap.com/navigation?to=");
    if d.has_coords() {
        s.append(opt_str(&d.lng));
        s.append(",");
        s.append(opt_str(&d.lat));
        if d.has_name() {
            s.append(",");
            s.append(opt_str(&d.name));
        }
    } else {
        s.append(opt_str(&d.name));
    }
    proof {
        assert(s@ =~= amap_web_url(*d));
    }
    s
}

/// Resolves a destination and a provider to one URL.
///
/// Succeeds exactly when the destination is usable, and then returns the
/// characters of `url_spec` — the scheme link or the web link of the chosen
/// provider — with the native flag telling the two apart. An unusable
/// destination is answered with `MissingDestination` and nothing else.
pub fn resolve(
    provider: Provider,
    dest: &Destination,
    kind: LinkKind,
    platform: Platform,
    mode: NavigationMode,
) -> (r: Result<ResolvedUrl, NavError>)
    ensures
        resolve_post(provider, *dest, kind, platform, mode, r),
{
    if !dest.is_valid() {
        return Err(NavError::MissingDestination);
    }
    let url = match kind {
        LinkKind::Scheme => match provider {
            Provider::Amap => build_amap_scheme(dest, platform, mode),
            Provider::Baidu => build_baidu_scheme(dest),
            Provider::Tencent => build_tencent_scheme(dest),
        },
        LinkKind::Web => match provider {
            Provider::Amap => build_amap_web(dest),
            Provider::Baidu => build_baidu_web(dest),
            Provider::Tencent => build_tencent_web(dest),
        },
    };
    Ok(ResolvedUrl { url, native: kind == LinkKind::Scheme })
}

/// Law: the platform touches a scheme link only through the amap prefix.
/// Baidu and tencent scheme links are identical characters on every
/// platform, and every amap scheme link is its platform prefix followed by
/// a tail that does not depend on the platform.
pub proof fn lemma_scheme_platform(
    provider: Provider,
    d: Destination,
    mode: NavigationMode,
    p1: Platform,
    p2: Platform,
)
    ensures
        provider !is Amap ==> scheme_url_spec(provider, d, p1, mode) == scheme_url_spec(
            provider,
            d,
            p2,
            mode,
        ),
        scheme_url_spec(Provider::Amap, d, p1, mode) == amap_scheme_prefix(p1) + amap_scheme_tail(
            d,
            mode,
        ),
{
}

/// Law: resolution is a pure function of its inputs. The contract admits
/// exactly one observable result for given inputs, so two calls with
/// identical inputs agree in every observable part.
pub proof fn lemma_resolve_deterministic(
    provider: Provider,
    d: Destination,
    kind: LinkKind,
    platform: Platform,
    mode: NavigationMode,
    r1: Result<ResolvedUrl, NavError>,
    r2: Result<ResolvedUrl, NavError>,
)
    requires
        resolve_post(provider, d, kind, platform, mode, r1),
        resolve_post(provider, d, kind, platform, mode, r2),
    ensures
        r1 is Ok <==> r2 is Ok,
        r1 matches Ok(u1) ==> (r2 matches Ok(u2) && u1.url@ == u2.url@ && u1.native == u2.native),
        r1 is Err ==> r1 == r2,
{
}

/// Law: an amap direct-navigation link with coordinates carries the
/// latitude, the longitude, and — when a name is given — the POI label;
/// and direct navigation without coordinates produces exactly the
/// route-preview link for the same inputs.
pub proof fn lemma_amap_direct(d: Destination, platform: Platform)
    ensures
        coords_present(d) && name_present(d) ==> scheme_url_spec(
            Provider::Amap,
            d,
            platform,
            NavigationMode::Direct,
        ) == amap_scheme_prefix(platform) + "://navi?sourceApplication=express&lat="@ + lat_chars(d)
            + "&lon="@ + lng_chars(d) + "&dev=0&style=2"@ + "&poiname="@ + name_chars(d),
        !coords_present(d) ==> scheme_url_spec(Provider::Amap, d, platform, NavigationMode::Direct)
            == scheme_url_spec(Provider::Amap, d, platform, NavigationMode::RoutePreview),
{
    if coords_present(d) && name_present(d) {
        assert(scheme_url_spec(Provider::Amap, d, platform, NavigationMode::Direct)
            =~= amap_scheme_prefix(platform) + "://navi?sourceApplication=express&lat="@
            + lat_chars(d) + "&lon="@ + lng_chars(d) + "&dev=0&style=2"@ + "&poiname="@
            + name_chars(d));
    }
}

} // verus!
