//! Apps and their packages, as listed in the repository's generated index.

use vstd::prelude::*;

use crate::general::opt_view;
use crate::json::{
    field_array, field_i64, field_str, field_u32, field_u64, json_array, json_at, json_get,
    json_i64, json_str, JsonValue,
};

verus! {

/// One published package file of an app.
#[derive(Clone, Debug)]
pub struct Package {
    pub added: i64,
    pub apk_name: String,
    pub hash: String,
    pub hash_type: String,
    pub package_name: String,
    pub size: u64,
    pub version_name: String,
    pub nativecode: Vec<String>,
    pub max_sdk_version: Option<u32>,
    pub min_sdk_version: Option<u32>,
    pub sig: Option<String>,
    pub signer: Option<String>,
    pub target_sdk_version: Option<u32>,
    pub uses_permission: Vec<(String, Option<u32>)>,
    pub version_code: Option<u64>,
}

pub struct PackageView {
    pub added: i64,
    pub apk_name: Seq<char>,
    pub hash: Seq<char>,
    pub hash_type: Seq<char>,
    pub package_name: Seq<char>,
    pub size: u64,
    pub version_name: Seq<char>,
    pub nativecode: Seq<Seq<char>>,
    pub max_sdk_version: Option<u32>,
    pub min_sdk_version: Option<u32>,
    pub sig: Option<Seq<char>>,
    pub signer: Option<Seq<char>>,
    pub target_sdk_version: Option<u32>,
    pub uses_permission: Seq<(Seq<char>, Option<u32>)>,
    pub version_code: Option<u64>,
}

pub open spec fn view_strings(s: Seq<String>) -> Seq<Seq<char>> {
    s.map_values(|x: String| x@)
}

pub open spec fn view_permissions(s: Seq<(String, Option<u32>)>) -> Seq<(Seq<char>, Option<u32>)> {
    s.map_values(|p: (String, Option<u32>)| (p.0@, p.1))
}

impl View for Package {
    type V = PackageView;

    open spec fn view(&self) -> PackageView {
        PackageView {
            added: self.added,
            apk_name: self.apk_name@,
            hash: self.hash@,
            hash_type: self.hash_type@,
            package_name: self.package_name@,
            size: self.size,
            version_name: self.version_name@,
            nativecode: view_strings(self.nativecode@),
            max_sdk_version: self.max_sdk_version,
            min_sdk_version: self.min_sdk_version,
            sig: opt_view(self.sig),
            signer: opt_view(self.signer),
            target_sdk_version: self.target_sdk_version,
            uses_permission: view_permissions(self.uses_permission@),
            version_code: self.version_code,
        }
    }
}

/// An app of the index with all its packages.
#[derive(Clone, Debug)]
pub struct App {
    pub package_name: String,
    pub categories: Vec<String>,
    pub suggested_version_code: String,
    pub license: String,
    pub name: String,
    pub added: i64,
    pub last_updated: i64,
    pub packages: Vec<Package>,
}

pub struct AppView {
    pub package_name: Seq<char>,
    pub categories: Seq<Seq<char>>,
    pub suggested_version_code: Seq<char>,
    pub license: Seq<char>,
    pub name: Seq<char>,
    pub added: i64,
    pub last_updated: i64,
    pub packages: Seq<PackageView>,
}

pub open spec fn view_packages(s: Seq<Package>) -> Seq<PackageView> {
    s.map_values(|p: Package| p@)
}

pub open spec fn view_apps(s: Seq<App>) -> Seq<AppView> {
    s.map_values(|a: App| a@)
}

impl View for App {
    type V = AppView;

    open spec fn view(&self) -> AppView {
        AppView {
            package_name: self.package_name@,
            categories: view_strings(self.categories@),
            suggested_version_code: self.suggested_version_code@,
            license: self.license@,
            name: self.name@,
            added: self.added,
            last_updated: self.last_updated,
            packages: view_packages(self.packages@),
        }
    }
}

/// The array member `key` of an object, or no items where it is absent or
/// not an array.
pub open spec fn optional_array(v: JsonValue, key: Seq<char>) -> Seq<JsonValue> {
    match field_array(v, key) {
        Some(items) => items,
        None => Seq::empty(),
    }
}

/// The strings that the items are, or nothing where one is not a string.
pub open spec fn strings_of(items: Seq<JsonValue>) -> Option<Seq<Seq<char>>> {
    if forall|i: int| 0 <= i < items.len() ==> (#[trigger] json_str(items[i])) is Some {
        Some(Seq::new(items.len(), |i: int| json_str(items[i]).unwrap()))
    } else {
        None
    }
}

/// A signed integer where it fits in 32 unsigned bits.
pub open spec fn small_level(o: Option<i64>) -> Option<u32> {
    match o {
        Some(x) => if 0 <= x <= u32::MAX {
            Some(x as u32)
        } else {
            None
        },
        None => None,
    }
}

/// A permission entry: a pair whose first element is the permission's name
/// and whose second, which must be present, is an optional level.
pub open spec fn permission_of(e: JsonValue) -> Option<(Seq<char>, Option<u32>)> {
    match (json_at(e, 0), json_at(e, 1)) {
        (Some(n), Some(l)) => match json_str(n) {
            Some(name) => Some((name, small_level(json_i64(l)))),
            None => None,
        },
        _ => None,
    }
}

pub open spec fn permissions_of(items: Seq<JsonValue>) -> Option<Seq<(Seq<char>, Option<u32>)>> {
    if forall|i: int| 0 <= i < items.len() ==> (#[trigger] permission_of(items[i])) is Some {
        Some(Seq::new(items.len(), |i: int| permission_of(items[i]).unwrap()))
    } else {
        None
    }
}

/// The package that an index entry describes, or nothing where a required
/// member is missing or of the wrong kind.
pub open spec fn package_from_json(v: JsonValue) -> Option<PackageView> {
    let added = field_i64(v, "added"@);
    let apk_name = field_str(v, "apkName"@);
    let hash = field_str(v, "hash"@);
    let hash_type = field_str(v, "hashType"@);
    let package_name = field_str(v, "packageName"@);
    let size = field_u64(v, "size"@);
    let version_name = field_str(v, "versionName"@);
    let nativecode = strings_of(optional_array(v, "nativecode"@));
    let uses_permission = permissions_of(optional_array(v, "uses-permission"@));
    if added is Some && apk_name is Some && hash is Some && hash_type is Some && package_name is Some
        && size is Some && version_name is Some && nativecode is Some && uses_permission is Some {
        Some(
            PackageView {
                added: added.unwrap(),
                apk_name: apk_name.unwrap(),
                hash: hash.unwrap(),
                hash_type: hash_type.unwrap(),
                package_name: package_name.unwrap(),
                size: size.unwrap(),
                version_name: version_name.unwrap(),
                nativecode: nativecode.unwrap(),
                max_sdk_version: field_u32(v, "maxSdkVersion"@),
                min_sdk_version: field_u32(v, "minSdkVersion"@),
                sig: field_str(v, "sig"@),
                signer: field_str(v, "signer"@),
                target_sdk_version: field_u32(v, "targetSdkVersion"@),
                uses_permission: uses_permission.unwrap(),
                version_code: field_u64(v, "versionCode"@),
            },
        )
    } else {
        None
    }
}

pub open spec fn packages_of(items: Seq<JsonValue>) -> Option<Seq<PackageView>> {
    if forall|i: int| 0 <= i < items.len() ==> (#[trigger] package_from_json(items[i])) is Some {
        Some(Seq::new(items.len(), |i: int| package_from_json(items[i]).unwrap()))
    } else {
        None
    }
}

/// The packages that `packages` lists for an app.
pub open spec fn packages_for(packages: JsonValue, package_name: Seq<char>) -> Option<
    Seq<PackageView>,
> {
    match json_get(packages, package_name) {
        Some(list) => match json_array(list) {
            Some(items) => packages_of(items),
            None => None,
        },
        None => None,
    }
}

/// The app that an index entry describes, with its packages taken from
/// `packages` under its package name.
pub open spec fn app_from_json(a: JsonValue, packages: JsonValue) -> Option<AppView> {
    let name = field_str(a, "name"@);
    let suggested = field_str(a, "suggestedVersionCode"@);
    let license = field_str(a, "license"@);
    let package_name = field_str(a, "packageName"@);
    let last_updated = field_i64(a, "lastUpdated"@);
    let added = field_i64(a, "added"@);
    let categories = match field_array(a, "categories"@) {
        Some(items) => strings_of(items),
        None => None,
    };
    if name is Some && suggested is Some && license is Some && package_name is Some
        && last_updated is Some && added is Some && categories is Some && packages_for(
        packages,
        package_name.unwrap(),
    ) is Some {
        Some(
            AppView {
                package_name: package_name.unwrap(),
                categories: categories.unwrap(),
                suggested_version_code: suggested.unwrap(),
                license: license.unwrap(),
                name: name.unwrap(),
                added: added.unwrap(),
                last_updated: last_updated.unwrap(),
                packages: packages_for(packages, package_name.unwrap()).unwrap(),
            },
        )
    } else {
        None
    }
}

pub open spec fn apps_of(items: Seq<JsonValue>, packages: JsonValue) -> Option<Seq<AppView>> {
    if forall|i: int| 0 <= i < items.len() ==> (#[trigger] app_from_json(items[i], packages)) is Some {
        Some(Seq::new(items.len(), |i: int| app_from_json(items[i], packages).unwrap()))
    } else {
        None
    }
}

/// The apps that an index document lists: its `apps` array, each with its
/// packages from the `packages` object.
pub open spec fn apps_from_json(v: JsonValue) -> Option<Seq<AppView>> {
    match (json_get(v, "apps"@), json_get(v, "packages"@)) {
        (Some(apps), Some(packages)) => match json_array(apps) {
            Some(items) => apps_of(items, packages),
            None => None,
        },
        _ => None,
    }
}

fn get_string(v: &JsonValue, key: &str) -> (r: Option<String>)
    ensures
        opt_view(r) == field_str(*v, key@),
{
    match v.get(key) {
        Some(m) => match m.as_str() {
            Some(s) => Some(s.to_owned()),
            None => None,
        },
        None => None,
    }
}

fn get_i64(v: &JsonValue, key: &str) -> (r: Option<i64>)
    ensures
        r == field_i64(*v, key@),
{
    match v.get(key) {
        Some(m) => m.as_i64(),
        None => None,
    }
}

fn get_u64(v: &JsonValue, key: &str) -> (r: Option<u64>)
    ensures
        r == field_u64(*v, key@),
{
    match v.get(key) {
        Some(m) => m.as_u64(),
        None => None,
    }
}

fn get_u32(v: &JsonValue, key: &str) -> (r: Option<u32>)
    ensures
        r == field_u32(*v, key@),
{
    match get_u64(v, key) {
        Some(n) => if n <= u32::MAX as u64 {
            Some(n as u32)
        } else {
            None
        },
        None => None,
    }
}

/// The array member `key`, where there is one.
fn get_array<'a>(v: &'a JsonValue, key: &str) -> (r: Option<&'a Vec<JsonValue>>)
    ensures
        match r {
            Some(items) => field_array(*v, key@) == Some(items@),
            None => field_array(*v, key@) is None,
        },
{
    match v.get(key) {
        Some(m) => m.as_array(),
        None => None,
    }
}

/// The strings that the items are.
fn collect_strings(items: &Vec<JsonValue>) -> (r: Option<Vec<String>>)
    ensures
        match r {
            Some(out) => strings_of(items@) == Some(view_strings(out@)),
            None => strings_of(items@) is None,
        },
{
    let mut out: Vec<String> = Vec::new();
    let mut i: usize = 0;
    while i < items.len()
        invariant
            i <= items@.len(),
            out@.len() == i,
            forall|j: int| 0 <= j < i ==> json_str(items@[j]) == Some(#[trigger] out@[j]@),
        decreases items.len() - i,
    {
        match items[i].as_str() {
            Some(s) => out.push(s.to_owned()),
            None => return None,
        }
        i = i + 1;
    }
    assert forall|k: int| 0 <= k < items@.len() implies (#[trigger] json_str(items@[k])) is Some by {
        assert(json_str(items@[k]) == Some(out@[k]@));
    }
    assert(view_strings(out@) =~= Seq::new(items@.len(), |k: int| json_str(items@[k]).unwrap()));
    Some(out)
}

/// The strings of the optional array member `key`.
fn strings_in(v: &JsonValue, key: &str) -> (r: Option<Vec<String>>)
    ensures
        match r {
            Some(out) => strings_of(optional_array(*v, key@)) == Some(view_strings(out@)),
            None => strings_of(optional_array(*v, key@)) is None,
        },
{
    match get_array(v, key) {
        Some(items) => collect_strings(items),
        None => {
            let out: Vec<String> = Vec::new();
            assert(view_strings(out@) =~= Seq::new(0, |k: int| json_str(Seq::<JsonValue>::empty()[k]).unwrap()));
            Some(out)
        },
    }
}

fn permission_from_json(e: &JsonValue) -> (r: Option<(String, Option<u32>)>)
    ensures
        match r {
            Some(p) => permission_of(*e) == Some((p.0@, p.1)),
            None => permission_of(*e) is None,
        },
{
    let name = match e.get_index(0) {
        Some(n) => n,
        None => return None,
    };
    let level = match e.get_index(1) {
        Some(l) => l,
        None => return None,
    };
    let name = match name.as_str() {
        Some(s) => s.to_owned(),
        None => return None,
    };
    let level = match level.as_i64() {
        Some(x) => if 0 <= x && x <= u32::MAX as i64 {
            Some(x as u32)
        } else {
            None
        },
        None => None,
    };
    Some((name, level))
}

fn collect_permissions(items: &Vec<JsonValue>) -> (r: Option<Vec<(String, Option<u32>)>>)
    ensures
        match r {
            Some(out) => permissions_of(items@) == Some(view_permissions(out@)),
            None => permissions_of(items@) is None,
        },
{
    let mut out: Vec<(String, Option<u32>)> = Vec::new();
    let mut i: usize = 0;
    while i < items.len()
        invariant
            i <= items@.len(),
            out@.len() == i,
            forall|j: int|
                0 <= j < i ==> permission_of(items@[j]) == Some(
                    ((#[trigger] out@[j]).0@, out@[j].1),
                ),
        decreases items.len() - i,
    {
        match permission_from_json(&items[i]) {
            Some(p) => out.push(p),
            None => return None,
        }
        i = i + 1;
    }
    assert forall|k: int| 0 <= k < items@.len() implies (#[trigger] permission_of(items@[k])) is Some by {
        assert(permission_of(items@[k]) == Some((out@[k].0@, out@[k].1)));
    }
    assert(view_permissions(out@) =~= Seq::new(
        items@.len(),
        |k: int| permission_of(items@[k]).unwrap(),
    ));
    Some(out)
}

/// The permissions of the optional array member `key`.
fn permissions_in(v: &JsonValue, key: &str) -> (r: Option<Vec<(String, Option<u32>)>>)
    ensures
        match r {
            Some(out) => permissions_of(optional_array(*v, key@)) == Some(view_permissions(out@)),
            None => permissions_of(optional_array(*v, key@)) is None,
        },
{
    match get_array(v, key) {
        Some(items) => collect_permissions(items),
        None => {
            let out: Vec<(String, Option<u32>)> = Vec::new();
            assert(view_permissions(out@) =~= Seq::new(0, |k: int| permission_of(Seq::<JsonValue>::empty()[k]).unwrap()));
            Some(out)
        },
    }
}

impl Package {
    /// Reads one package entry of the index; nothing where a required member
    /// is missing or of the wrong kind.
    pub fn from_json(value: &JsonValue) -> (r: Option<Package>)
        ensures
            match r {
                Some(p) => package_from_json(*value) == Some(p@),
                None => package_from_json(*value) is None,
            },
    {
        let added = match get_i64(value, "added") {
            Some(x) => x,
            None => return None,
        };
        let apk_name = match get_string(value, "apkName") {
            Some(x) => x,
            None => return None,
        };
        let hash = match get_string(value, "hash") {
            Some(x) => x,
            None => return None,
        };
        let hash_type = match get_string(value, "hashType") {
            Some(x) => x,
            None => return None,
        };
        let package_name = match get_string(value, "packageName") {
            Some(x) => x,
            None => return None,
        };
        let size = match get_u64(value, "size") {
            Some(x) => x,
            None => return None,
        };
        let version_name = match get_string(value, "versionName") {
            Some(x) => x,
            None => return None,
        };
        let max_sdk_version = get_u32(value, "maxSdkVersion");
        let min_sdk_version = get_u32(value, "minSdkVersion");
        let nativecode = match strings_in(value, "nativecode") {
            Some(x) => x,
            None => return None,
        };
        let sig = get_string(value, "sig");
        let signer = get_string(value, "signer");
        let target_sdk_version = get_u32(value, "targetSdkVersion");
        let uses_permission = match permissions_in(value, "uses-permission") {
            Some(x) => x,
            None => return None,
        };
        let version_code = get_u64(value, "versionCode");
        let p = Package {
            added,
            apk_name,
            hash,
            hash_type,
            package_name,
            size,
            version_name,
            nativecode,
            max_sdk_version,
            min_sdk_version,
            sig,
            signer,
            target_sdk_version,
            uses_permission,
            version_code,
        };
        Some(p)
    }
}

fn collect_packages(items: &Vec<JsonValue>) -> (r: Option<Vec<Package>>)
    ensures
        match r {
            Some(out) => packages_of(items@) == Some(view_packages(out@)),
            None => packages_of(items@) is None,
        },
{
    let mut out: Vec<Package> = Vec::new();
    let mut i: usize = 0;
    while i < items.len()
        invariant
            i <= items@.len(),
            out@.len() == i,
            forall|j: int| 0 <= j < i ==> package_from_json(items@[j]) == Some(#[trigger] out@[j]@),
        decreases items.len() - i,
    {
        match Package::from_json(&items[i]) {
            Some(p) => out.push(p),
            None => return None,
        }
        i = i + 1;
    }
    assert forall|k: int| 0 <= k < items@.len() implies (#[trigger] package_from_json(items@[k])) is Some by {
        assert(package_from_json(items@[k]) == Some(out@[k]@));
    }
    assert(view_packages(out@) =~= Seq::new(
        items@.len(),
        |k: int| package_from_json(items@[k]).unwrap(),
    ));
    Some(out)
}

impl App {
    fn one_from_json(a: &JsonValue, packages: &JsonValue) -> (r: Option<App>)
        ensures
            match r {
                Some(app) => app_from_json(*a, *packages) == Some(app@),
                None => app_from_json(*a, *packages) is None,
            },
    {
        let name = match get_string(a, "name") {
            Some(x) => x,
            None => return None,
        };
        let suggested_version_code = match get_string(a, "suggestedVersionCode") {
            Some(x) => x,
            None => return None,
        };
        let license = match get_string(a, "license") {
            Some(x) => x,
            None => return None,
        };
        let package_name = match get_string(a, "packageName") {
            Some(x) => x,
            None => return None,
        };
        let last_updated = match get_i64(a, "lastUpdated") {
            Some(x) => x,
            None => return None,
        };
        let added = match get_i64(a, "added") {
            Some(x) => x,
            None => return None,
        };
        let categories = match get_array(a, "categories") {
            Some(items) => collect_strings(items),
            None => return None,
        };
        let categories = match categories {
            Some(x) => x,
            None => return None,
        };
        let list = match packages.get(package_name.as_str()) {
            Some(l) => l,
            None => return None,
        };
        let list = match list.as_array() {
            Some(items) => items,
            None => return None,
        };
        let package_list = match collect_packages(list) {
            Some(x) => x,
            None => return None,
        };
        let app = App {
            package_name,
            categories,
            suggested_version_code,
            license,
            name,
            added,
            last_updated,
            packages: package_list,
        };
        Some(app)
    }

    /// Reads the apps of an index document, each with its packages; nothing
    /// where any member cannot be read.
    pub fn from_json(value: &JsonValue) -> (r: Option<Vec<App>>)
        ensures
            match r {
                Some(out) => apps_from_json(*value) == Some(view_apps(out@)),
                None => apps_from_json(*value) is None,
            },
    {
        let apps = match value.get("apps") {
            Some(x) => x,
            None => return None,
        };
        let packages = match value.get("packages") {
            Some(x) => x,
            None => return None,
        };
        let items = match apps.as_array() {
            Some(x) => x,
            None => return None,
        };
        let mut out: Vec<App> = Vec::new();
        let mut i: usize = 0;
        while i < items.len()
            invariant
                i <= items@.len(),
                out@.len() == i,
                apps_from_json(*value) == apps_of(items@, *packages),
                forall|j: int|
                    0 <= j < i ==> app_from_json(items@[j], *packages) == Some(#[trigger] out@[j]@),
            decreases items.len() - i,
        {
            match App::one_from_json(&items[i], packages) {
                Some(app) => out.push(app),
                None => return None,
            }
            i = i + 1;
        }
        assert forall|k: int| 0 <= k < items@.len() implies (#[trigger] app_from_json(items@[k], *packages)) is Some by {
            assert(app_from_json(items@[k], *packages) == Some(out@[k]@));
        }
        assert(view_apps(out@) =~= Seq::new(
            items@.len(),
            |k: int| app_from_json(items@[k], *packages).unwrap(),
        ));
        Some(out)
    }
}

} // verus!
