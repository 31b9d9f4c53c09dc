use fdroid::aapt::{get_name, get_version_code, name_from_capture, version_code_from_capture};
use fdroid::config::ConfigFile;
use fdroid::error::Error;
use fdroid::repository::{staged_file_name, ImagePlan, PathKind, Repository};

fn repo() -> Repository {
    Repository::new("/srv/fdroid".to_owned())
}

fn config_with_icon(icon: Option<&str>) -> ConfigFile {
    ConfigFile {
        sdk_path: "/opt/sdk".to_owned(),
        repo_keyalias: "alias".to_owned(),
        keystore: "keystore.p12".to_owned(),
        keystorepass: "pass".to_owned(),
        keypass: "kpass".to_owned(),
        keydname: "CN=x".to_owned(),
        repo_url: None,
        repo_name: Some("Repo".to_owned()),
        repo_icon: icon.map(|i| i.to_owned()),
        repo_description: None,
        apksigner: None,
        archive_url: None,
        archive_name: None,
        archive_icon: None,
        archive_description: None,
        archive_older: None,
    }
}

const APK_INFO: &str = "package: name='com.example.app' versionCode='42' versionName='1.0' platformBuildVersionName='13'\nsdkVersion:'21'\n";

#[test]
fn layout_paths() {
    let r = repo();
    assert_eq!("/srv/fdroid/config.yml", r.get_config_path());
    assert_eq!("/srv/fdroid/repo", r.get_repo_path());
    assert_eq!("/srv/fdroid/metadata", r.get_metadata_path());
    assert_eq!("/srv/fdroid/unsigned", r.get_unsigned_path());
    assert_eq!("/srv/fdroid/keystore.p12", r.get_keystore_path());
    assert_eq!("/srv/fdroid/repo/index-v1.json", r.get_index_path());
    assert_eq!("/srv/fdroid/metadata/com.example.app.yml", r.get_meta_file_path("com.example.app"));
    let targets = r.clear_targets();
    assert_eq!(vec!["/srv/fdroid/repo".to_owned(), "/srv/fdroid/metadata".to_owned()], targets);
}

#[test]
fn tool_commands() {
    let r = repo();
    let update = r.update();
    assert_eq!(2, update.len());
    assert_eq!("fdroid update -c", update[0].command_line());
    assert_eq!("fdroid update", update[1].command_line());
    assert_eq!("/srv/fdroid", update[0].dir);
    assert_eq!("fdroid init", r.initialize().command_line());
    assert_eq!("fdroid publish", r.publish().command_line());
    assert_eq!("fdroid rewritemeta", r.cleanup().command_line());
    match r.publish().failure() {
        Error::Custom(m) => assert_eq!("Failed to run command: fdroid publish", m),
        other => panic!("unexpected error {:?}", other),
    }
}

#[test]
fn delete_missing_package_changes_nothing() {
    assert!(matches!(repo().delete_target("gone.apk", PathKind::Missing), Ok(None)));
}

#[test]
fn delete_present_package_and_non_file() {
    let r = repo();
    assert_eq!(
        Some("/srv/fdroid/repo/app.apk".to_owned()),
        r.delete_target("app.apk", PathKind::File).unwrap()
    );
    let err = r.delete_target("icons", PathKind::Directory).unwrap_err();
    assert!(matches!(err, Error::User(_)));
    assert_eq!(400, err.status_code());
}

#[test]
fn upload_target_and_rollback() {
    let r = repo();
    assert_eq!("/srv/fdroid/repo/app.apk", r.upload_target(Some("app.apk")).unwrap());
    assert!(matches!(r.upload_target(None), Err(Error::User(_))));
    assert!(Repository::upload_rollback(false, PathKind::File));
    assert!(!Repository::upload_rollback(false, PathKind::Missing));
    assert!(!Repository::upload_rollback(true, PathKind::File));
}

#[test]
fn missing_metadata_is_user_error() {
    let err = repo().metadata_source("com.example.app", PathKind::Missing).unwrap_err();
    assert!(err.is_user_error());
    assert!(matches!(err, Error::User(_)));
    assert_eq!(400, err.status_code());
    assert_eq!(
        "/srv/fdroid/metadata/com.example.app.yml",
        repo().metadata_source("com.example.app", PathKind::File).unwrap()
    );
}

#[test]
fn metadata_placeholder_only_where_missing() {
    let r = repo();
    assert_eq!(
        Some("/srv/fdroid/metadata/a.b.yml".to_owned()),
        r.metadata_placeholder("a.b", PathKind::Missing)
    );
    assert_eq!(None, r.metadata_placeholder("a.b", PathKind::File));
    assert_eq!(None, r.metadata_placeholder("a.b", PathKind::Other));
}

#[test]
fn icon_of_other_type_replaces_old_icon() {
    let r = repo();
    let config = config_with_icon(Some("icon.png"));
    match r.image_plan(&config, Some("icon.svg")).unwrap() {
        ImagePlan::Replace { target, config: new_config, old } => {
            assert_eq!("/srv/fdroid/repo/icons/icon.svg", target);
            assert_eq!(Some("icon.svg".to_owned()), new_config.repo_icon);
            assert_eq!(config.keystorepass, new_config.keystorepass);
            assert_eq!(config.repo_name, new_config.repo_name);
            assert_eq!("/srv/fdroid/repo/icons/icon.png", old);
        }
        other => panic!("unexpected plan {:?}", other),
    }
}

#[test]
fn icon_of_same_type_overwrites() {
    let r = repo();
    let config = config_with_icon(None);
    match r.image_plan(&config, Some("new-logo.png")).unwrap() {
        ImagePlan::Overwrite { target } => assert_eq!("/srv/fdroid/repo/icons/icon.png", target),
        other => panic!("unexpected plan {:?}", other),
    }
}

#[test]
fn icon_errors() {
    let r = repo();
    let config = config_with_icon(Some("icon.png"));
    assert!(matches!(r.image_plan(&config, None), Err(Error::User(_))));
    assert!(matches!(r.image_plan(&config, Some("icon")), Err(Error::User(_))));
    let bare = config_with_icon(Some("icon"));
    assert!(matches!(r.image_plan(&bare, Some("icon.png")), Err(Error::Custom(_))));
}

#[test]
fn package_identity_from_inspection_output() {
    assert_eq!(42, get_version_code(APK_INFO).unwrap());
    assert_eq!("com.example.app", get_name(APK_INFO).unwrap());
    assert!(matches!(get_version_code("package: name='x'"), Err(Error::Custom(_))));
    assert!(matches!(get_name("versionCode='1'"), Err(Error::Custom(_))));
    assert!(matches!(
        get_version_code("versionCode='99999999999'"),
        Err(Error::Custom(_))
    ));
}

#[test]
fn captures_to_identity() {
    assert_eq!(7, version_code_from_capture(Some("7")).unwrap());
    assert!(version_code_from_capture(Some("4294967296")).is_err());
    assert!(version_code_from_capture(None).is_err());
    assert_eq!("a.b", name_from_capture(Some("a.b")).unwrap());
    assert!(name_from_capture(None).is_err());
}

#[test]
fn sign_plan_stages_package() {
    let r = repo();
    let plan = r.sign_plan(APK_INFO, PathKind::Missing).unwrap();
    assert_eq!("com.example.app", plan.package_name);
    assert_eq!("/srv/fdroid/unsigned/com.example.app_42.apk", plan.staged_path);
    assert!(plan.create_staging_dir);
    let plan = r.sign_plan(APK_INFO, PathKind::Directory).unwrap();
    assert!(!plan.create_staging_dir);
    assert!(matches!(r.sign_plan(APK_INFO, PathKind::File), Err(Error::Custom(_))));
    assert!(matches!(r.sign_plan("nothing here", PathKind::Directory), Err(Error::Custom(_))));
    assert_eq!("x_0.apk", staged_file_name("x", 0));
}

#[test]
fn error_messages_and_status() {
    assert_eq!("User error: bad", Error::User("bad".to_owned()).message());
    assert_eq!("boom", Error::Custom("boom".to_owned()).message());
    assert_eq!(500, Error::File("io".to_owned()).status_code());
    assert_eq!(500, Error::JsonConvert("x".to_owned()).status_code());
    assert_eq!(500, Error::YamlConvert("x".to_owned()).status_code());
}

#[test]
fn secrets_are_not_served() {
    assert!(!fdroid::repository::is_public_file("config.yml"));
    assert!(!fdroid::repository::is_public_file("keystore.p12"));
    assert!(fdroid::repository::is_public_file("index-v1.json"));
}
