//! Detecting whether a provider's native application is installed.

use vstd::prelude::*;
use vstd::string::StringExecFns;
use crate::model::{parse_provider, parse_provider_spec, NavError, Platform, Provider};
use crate::text::str_eq;

verus! {

/// The host capability that lists the identifiers of the installed
/// packages, one entry per package, on the platform that can answer.
/// Nothing is assumed of an implementation; a failure is opaque text.
pub trait PackageLister {
    fn list_installed_packages(&mut self) -> Result<Vec<String>, String>;
}

/// The package identifier of each provider's native application.
pub open spec fn package_name_spec(provider: Provider) -> Seq<char> {
    match provider {
        Provider::Amap => "com.autonavi.minimap"@,
        Provider::Baidu => "com.baidu.BaiduMap"@,
        Provider::Tencent => "com.tencent.map"@,
    }
}

/// The package identifier of the provider's native application.
pub fn package_name(provider: Provider) -> (r: &'static str)
    ensures
        r@ == package_name_spec(provider),
{
    match provider {
        Provider::Amap => "com.autonavi.minimap",
        Provider::Baidu => "com.baidu.BaiduMap",
        Provider::Tencent => "com.tencent.map",
    }
}

/// The list entry that marks the provider's application as installed.
pub open spec fn package_entry(provider: Provider) -> Seq<char> {
    "package:"@ + package_name_spec(provider)
}

/// Whether a package list carries the entry for the provider.
pub open spec fn list_has_package(provider: Provider, packages: Seq<String>) -> bool {
    exists|i: int| 0 <= i < packages.len() && packages[i]@ == package_entry(provider)
}

/// Decides from a package list whether the provider's application is
/// installed: exactly when some entry reads `package:` followed by the
/// provider's package identifier.
pub fn installed_in_list(provider: Provider, packages: &Vec<String>) -> (r: bool)
    ensures
        r == list_has_package(provider, packages@),
{
    let mut expected = String::from_str("package:");
    expected.append(package_name(provider));
    let mut i: usize = 0;
    while i < packages.len()
        invariant
            expected@ == package_entry(provider),
            i <= packages@.len(),
            forall|j: int| 0 <= j < i ==> packages@[j]@ != package_entry(provider),
        decreases packages@.len() - i,
    {
        if str_eq(packages[i].as_str(), expected.as_str()) {
            return true;
        }
        i = i + 1;
    }
    false
}

/// Settles the lister's answer, whatever it was: a delivered list decides
/// by its entries, and a failing lister counts as not installed — the
/// failure is deliberately swallowed, never surfaced as an error.
pub fn settle_install(provider: Provider, listing: Result<Vec<String>, String>) -> (r: bool)
    ensures
        listing matches Ok(p) ==> r == list_has_package(provider, p@),
        listing is Err ==> r == false,
{
    match listing {
        Ok(packages) => installed_in_list(provider, &packages),
        Err(_) => false,
    }
}

/// Answers whether the provider's native application is installed.
///
/// Only android can be asked: there `settle_install` decides from the
/// package list, and a failing lister counts as not installed. Every
/// other platform is answered `true` unconditionally — a deliberate
/// simplification, since no detection capability exists there; callers
/// must not take it as ground truth. An unknown provider identifier is
/// answered with `UnsupportedProvider`.
pub fn check_map_installed<L: PackageLister>(
    provider: &str,
    platform: Platform,
    lister: &mut L,
) -> (r: Result<bool, NavError>)
    ensures
        parse_provider_spec(provider@) is None <==> r == Result::<bool, NavError>::Err(
            NavError::UnsupportedProvider,
        ),
        parse_provider_spec(provider@) is Some ==> r is Ok,
        parse_provider_spec(provider@) is Some && !(platform is Android) ==> r == Result::<
            bool,
            NavError,
        >::Ok(true),
{
    let p = match parse_provider(provider) {
        Some(p) => p,
        None => {
            return Err(NavError::UnsupportedProvider);
        },
    };
    match platform {
        Platform::Android => Ok(settle_install(p, lister.list_installed_packages())),
        _ => Ok(true),
    }
}

} // verus!
