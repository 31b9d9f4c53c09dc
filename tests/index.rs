use fdroid::app::{App, Package};
use fdroid::error::Error;
use fdroid::json::{JsonNumber, JsonValue};
use fdroid::repository::Repository;

const ONE_APP_INDEX: &str = r#"{
  "repo": {"name": "Test"},
  "apps": [
    {
      "name": "Example",
      "suggestedVersionCode": "42",
      "license": "GPL-3.0-only",
      "packageName": "com.example.app",
      "lastUpdated": 1700000000000,
      "added": 1690000000000,
      "categories": ["Internet", "System"]
    }
  ],
  "packages": {
    "com.example.app": [
      {
        "added": 1700000000000,
        "apkName": "com.example.app_42.apk",
        "hash": "abcdef",
        "hashType": "sha256",
        "packageName": "com.example.app",
        "size": 12345,
        "versionName": "1.0",
        "versionCode": 42,
        "minSdkVersion": 21,
        "targetSdkVersion": 33,
        "maxSdkVersion": 5000000000,
        "nativecode": ["arm64-v8a"],
        "sig": "0123",
        "uses-permission": [["android.permission.INTERNET", null], ["android.permission.X", 23]]
      }
    ]
  }
}"#;

#[test]
fn apps_empty() {
    let repo = Repository::new("/srv/fdroid".to_owned());
    assert!(repo.get_apps(None).unwrap().is_empty());
}

#[test]
fn index_with_one_app() {
    let repo = Repository::new("/srv/fdroid".to_owned());
    let apps = repo.get_apps(Some(ONE_APP_INDEX)).unwrap();
    assert_eq!(1, apps.len());
    let app = &apps[0];
    assert_eq!("com.example.app", app.package_name);
    assert_eq!("Example", app.name);
    assert_eq!(vec!["Internet".to_owned(), "System".to_owned()], app.categories);
    assert_eq!(1700000000000, app.last_updated);
    assert_eq!(1, app.packages.len());
    let p = &app.packages[0];
    assert_eq!("com.example.app", p.package_name);
    assert_eq!(12345, p.size);
    assert_eq!(Some(42), p.version_code);
    assert_eq!(Some(21), p.min_sdk_version);
    assert_eq!(None, p.max_sdk_version);
    assert_eq!(Some("0123".to_owned()), p.sig);
    assert_eq!(None, p.signer);
    assert_eq!(vec!["arm64-v8a".to_owned()], p.nativecode);
    assert_eq!(
        vec![
            ("android.permission.INTERNET".to_owned(), None),
            ("android.permission.X".to_owned(), Some(23)),
        ],
        p.uses_permission
    );
}

#[test]
fn index_not_json() {
    let repo = Repository::new("/srv/fdroid".to_owned());
    assert!(matches!(repo.get_apps(Some("{ not json")), Err(Error::JsonConvert(_))));
}

#[test]
fn index_with_missing_member() {
    let repo = Repository::new("/srv/fdroid".to_owned());
    let text = ONE_APP_INDEX.replace("\"license\": \"GPL-3.0-only\",", "");
    assert!(matches!(repo.get_apps(Some(&text)), Err(Error::JsonConvert(_))));
    assert!(matches!(repo.get_apps(Some("{\"apps\": []}")), Err(Error::JsonConvert(_))));
    assert_eq!(0, repo.get_apps(Some("{\"apps\": [], \"packages\": {}}")).unwrap().len());
}

fn text(s: &str) -> JsonValue {
    JsonValue::Str(s.to_owned())
}

fn number(n: i64) -> JsonValue {
    JsonValue::Number(JsonNumber { signed: Some(n), unsigned: if n >= 0 { Some(n as u64) } else { None } })
}

fn minimal_package() -> Vec<(String, JsonValue)> {
    vec![
        ("added".to_owned(), number(1)),
        ("apkName".to_owned(), text("a.apk")),
        ("hash".to_owned(), text("h")),
        ("hashType".to_owned(), text("sha256")),
        ("packageName".to_owned(), text("a")),
        ("size".to_owned(), number(10)),
        ("versionName".to_owned(), text("1")),
    ]
}

#[test]
fn package_optional_members() {
    let p = Package::from_json(&JsonValue::Object(minimal_package())).unwrap();
    assert_eq!("a.apk", p.apk_name);
    assert!(p.nativecode.is_empty());
    assert!(p.uses_permission.is_empty());
    assert_eq!(None, p.version_code);

    let mut bad_native = minimal_package();
    bad_native.push(("nativecode".to_owned(), JsonValue::Array(vec![number(3)])));
    assert!(Package::from_json(&JsonValue::Object(bad_native)).is_none());

    let mut short_permission = minimal_package();
    short_permission.push((
        "uses-permission".to_owned(),
        JsonValue::Array(vec![JsonValue::Array(vec![text("p")])]),
    ));
    assert!(Package::from_json(&JsonValue::Object(short_permission)).is_none());

    let mut negative = minimal_package();
    negative[5] = ("size".to_owned(), number(-1));
    assert!(Package::from_json(&JsonValue::Object(negative)).is_none());
}

#[test]
fn app_needs_packages_entry() {
    let doc = JsonValue::Object(vec![
        (
            "apps".to_owned(),
            JsonValue::Array(vec![JsonValue::Object(vec![
                ("name".to_owned(), text("A")),
                ("suggestedVersionCode".to_owned(), text("1")),
                ("license".to_owned(), text("MIT")),
                ("packageName".to_owned(), text("a")),
                ("lastUpdated".to_owned(), number(2)),
                ("added".to_owned(), number(1)),
                ("categories".to_owned(), JsonValue::Array(vec![])),
            ])]),
        ),
        ("packages".to_owned(), JsonValue::Object(vec![])),
    ]);
    assert!(App::from_json(&doc).is_none());
}
