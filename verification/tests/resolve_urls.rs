use maplink::model::{Destination, LinkKind, NavError, NavigationMode, Platform, Provider};
use maplink::resolve::resolve;

fn dest(lat: Option<&str>, lng: Option<&str>, name: Option<&str>) -> Destination {
    Destination {
        lat: lat.map(|s| s.to_string()),
        lng: lng.map(|s| s.to_string()),
        name: name.map(|s| s.to_string()),
    }
}

fn url_of(r: Result<maplink::model::ResolvedUrl, NavError>) -> String {
    match r {
        Ok(u) => u.url,
        Err(e) => panic!("expected a URL, got {:?}", e),
    }
}

#[test]
fn amap_scheme_differs_only_in_prefix_across_platforms() {
    let d = dest(Some("31.2"), Some("121.5"), Some("Target"));
    let android = url_of(resolve(
        Provider::Amap,
        &d,
        LinkKind::Scheme,
        Platform::Android,
        NavigationMode::RoutePreview,
    ));
    let ios = url_of(resolve(
        Provider::Amap,
        &d,
        LinkKind::Scheme,
        Platform::Ios,
        NavigationMode::RoutePreview,
    ));
    assert_eq!(
        android,
        "androidamap://route/plan?sourceApplication=express&dlat=31.2&dlon=121.5&dname=Target&dev=0&t=0"
    );
    assert_eq!(
        ios,
        "iosamap://route/plan?sourceApplication=express&dlat=31.2&dlon=121.5&dname=Target&dev=0&t=0"
    );
    assert_eq!(
        android.strip_prefix("androidamap").unwrap(),
        ios.strip_prefix("iosamap").unwrap()
    );
}

#[test]
fn non_amap_scheme_identical_across_platforms() {
    let d = dest(Some("31.2"), Some("121.5"), Some("Target"));
    for provider in [Provider::Baidu, Provider::Tencent] {
        let android = url_of(resolve(
            provider,
            &d,
            LinkKind::Scheme,
            Platform::Android,
            NavigationMode::RoutePreview,
        ));
        let ios = url_of(resolve(
            provider,
            &d,
            LinkKind::Scheme,
            Platform::Ios,
            NavigationMode::RoutePreview,
        ));
        assert_eq!(android, ios);
    }
}

#[test]
fn empty_name_and_no_coordinates_is_missing_destination() {
    let d = dest(None, None, Some(""));
    let r = resolve(
        Provider::Baidu,
        &d,
        LinkKind::Scheme,
        Platform::Android,
        NavigationMode::RoutePreview,
    );
    assert!(matches!(r, Err(NavError::MissingDestination)));
}

#[test]
fn nothing_at_all_is_missing_destination() {
    let d = dest(None, None, None);
    let r = resolve(
        Provider::Amap,
        &d,
        LinkKind::Web,
        Platform::Desktop,
        NavigationMode::RoutePreview,
    );
    assert!(matches!(r, Err(NavError::MissingDestination)));
}

#[test]
fn partial_coordinates_count_as_no_coordinates() {
    let with_name = dest(Some("31.2"), None, Some("Target"));
    let r = url_of(resolve(
        Provider::Tencent,
        &with_name,
        LinkKind::Scheme,
        Platform::Android,
        NavigationMode::RoutePreview,
    ));
    assert_eq!(r, "qqmap://map/routeplan?type=drive&to=Target");

    let without_name = dest(None, Some("121.5"), None);
    let r = resolve(
        Provider::Tencent,
        &without_name,
        LinkKind::Scheme,
        Platform::Android,
        NavigationMode::RoutePreview,
    );
    assert!(matches!(r, Err(NavError::MissingDestination)));
}

#[test]
fn amap_direct_navigation_carries_lat_lon_and_poi() {
    let d = dest(Some("31.2"), Some("121.5"), Some("Target"));
    let url = url_of(resolve(
        Provider::Amap,
        &d,
        LinkKind::Scheme,
        Platform::Android,
        NavigationMode::Direct,
    ));
    assert_eq!(
        url,
        "androidamap://navi?sourceApplication=express&lat=31.2&lon=121.5&dev=0&style=2&poiname=Target"
    );
    assert!(url.contains("lat="));
    assert!(url.contains("lon="));
    assert!(url.contains("poiname="));
}

#[test]
fn amap_direct_navigation_without_name_has_no_poi() {
    let d = dest(Some("31.2"), Some("121.5"), None);
    let url = url_of(resolve(
        Provider::Amap,
        &d,
        LinkKind::Scheme,
        Platform::Ios,
        NavigationMode::Direct,
    ));
    assert_eq!(
        url,
        "iosamap://navi?sourceApplication=express&lat=31.2&lon=121.5&dev=0&style=2"
    );
}

#[test]
fn amap_direct_without_coordinates_degrades_to_route_preview() {
    let d = dest(None, None, Some("Target"));
    let direct = url_of(resolve(
        Provider::Amap,
        &d,
        LinkKind::Scheme,
        Platform::Android,
        NavigationMode::Direct,
    ));
    let preview = url_of(resolve(
        Provider::Amap,
        &d,
        LinkKind::Scheme,
        Platform::Android,
        NavigationMode::RoutePreview,
    ));
    assert_eq!(direct, preview);
    assert_eq!(
        direct,
        "androidamap://route/plan?sourceApplication=express&dname=Target&dev=0&t=0"
    );
}

#[test]
fn amap_route_preview_coordinates_only() {
    let d = dest(Some("31.2"), Some("121.5"), None);
    let url = url_of(resolve(
        Provider::Amap,
        &d,
        LinkKind::Scheme,
        Platform::Android,
        NavigationMode::RoutePreview,
    ));
    assert_eq!(
        url,
        "androidamap://route/plan?sourceApplication=express&dlat=31.2&dlon=121.5&dev=0&t=0"
    );
}

#[test]
fn baidu_scheme_exact() {
    let d = dest(Some("31.2"), Some("121.5"), Some("Target"));
    let url = url_of(resolve(
        Provider::Baidu,
        &d,
        LinkKind::Scheme,
        Platform::Android,
        NavigationMode::RoutePreview,
    ));
    assert_eq!(
        url,
        "baidumap://map/direction?destination=latlng:31.2,121.5|name:Target&coord_type=bd09ll&mode=driving"
    );
}

#[test]
fn baidu_scheme_coordinates_only_and_name_only() {
    let coords = dest(Some("31.2"), Some("121.5"), None);
    let url = url_of(resolve(
        Provider::Baidu,
        &coords,
        LinkKind::Scheme,
        Platform::Ios,
        NavigationMode::RoutePreview,
    ));
    assert_eq!(
        url,
        "baidumap://map/direction?destination=latlng:31.2,121.5&coord_type=bd09ll&mode=driving"
    );

    let name = dest(None, None, Some("Target"));
    let url = url_of(resolve(
        Provider::Baidu,
        &name,
        LinkKind::Scheme,
        Platform::Ios,
        NavigationMode::RoutePreview,
    ));
    assert_eq!(
        url,
        "baidumap://map/direction?destination=Target&coord_type=bd09ll&mode=driving"
    );
}

#[test]
fn baidu_web_exact_parameter_ordering() {
    let d = dest(Some("31.2"), Some("121.5"), Some("Target"));
    let url = url_of(resolve(
        Provider::Baidu,
        &d,
        LinkKind::Web,
        Platform::Android,
        NavigationMode::RoutePreview,
    ));
    assert_eq!(
        url,
        "https://api.map.baidu.com/direction?destination=latlng:31.2,121.5|name:Target&coord_type=gcj02&mode=driving&output=html"
    );
}

#[test]
fn amap_web_puts_longitude_before_latitude() {
    let d = dest(Some("31.2"), Some("121.5"), Some("Target"));
    let url = url_of(resolve(
        Provider::Amap,
        &d,
        LinkKind::Web,
        Platform::Desktop,
        NavigationMode::RoutePreview,
    ));
    assert_eq!(url, "https://uri.amap.com/navigation?to=121.5,31.2,Target");

    let coords = dest(Some("31.2"), Some("121.5"), None);
    let url = url_of(resolve(
        Provider::Amap,
        &coords,
        LinkKind::Web,
        Platform::Desktop,
        NavigationMode::RoutePreview,
    ));
    assert_eq!(url, "https://uri.amap.com/navigation?to=121.5,31.2");
}

#[test]
fn tencent_web_exact() {
    let d = dest(Some("31.2"), Some("121.5"), Some("Target"));
    let url = url_of(resolve(
        Provider::Tencent,
        &d,
        LinkKind::Web,
        Platform::Desktop,
        NavigationMode::RoutePreview,
    ));
    assert_eq!(
        url,
        "https://apis.map.qq.com/uri/v1/routeplan?type=drive&to=Target&tocoord=31.2,121.5"
    );
}

#[test]
fn tencent_scheme_coordinates_only() {
    let d = dest(Some("31.2"), Some("121.5"), None);
    let url = url_of(resolve(
        Provider::Tencent,
        &d,
        LinkKind::Scheme,
        Platform::Android,
        NavigationMode::RoutePreview,
    ));
    assert_eq!(url, "qqmap://map/routeplan?type=drive&tocoord=31.2,121.5");
}

#[test]
fn native_flag_tells_scheme_and_web_apart() {
    let d = dest(Some("31.2"), Some("121.5"), None);
    let scheme = resolve(
        Provider::Baidu,
        &d,
        LinkKind::Scheme,
        Platform::Android,
        NavigationMode::RoutePreview,
    )
    .unwrap();
    assert!(scheme.native);
    let web = resolve(
        Provider::Baidu,
        &d,
        LinkKind::Web,
        Platform::Android,
        NavigationMode::RoutePreview,
    )
    .unwrap();
    assert!(!web.native);
}

#[test]
fn resolve_is_idempotent() {
    let d = dest(Some("31.2"), Some("121.5"), Some("Target"));
    let first = resolve(
        Provider::Amap,
        &d,
        LinkKind::Scheme,
        Platform::Ios,
        NavigationMode::Direct,
    )
    .unwrap();
    let second = resolve(
        Provider::Amap,
        &d,
        LinkKind::Scheme,
        Platform::Ios,
        NavigationMode::Direct,
    )
    .unwrap();
    assert_eq!(first.url, second.url);
    assert_eq!(first.native, second.native);
}

#[test]
fn unicode_names_pass_through_unchanged() {
    let d = dest(Some("31.2"), Some("121.5"), Some("外滩"));
    let url = url_of(resolve(
        Provider::Baidu,
        &d,
        LinkKind::Web,
        Platform::Android,
        NavigationMode::RoutePreview,
    ));
    assert_eq!(
        url,
        "https://api.map.baidu.com/direction?destination=latlng:31.2,121.5|name:外滩&coord_type=gcj02&mode=driving&output=html"
    );
}
