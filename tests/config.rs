use fdroid::config::{get_public_config, set_config, ConfigFile, PublicConfig};
use fdroid::repository::Repository;

fn sample_config() -> ConfigFile {
    ConfigFile {
        sdk_path: "/opt/android-sdk".to_owned(),
        repo_keyalias: "repokey".to_owned(),
        keystore: "keystore.p12".to_owned(),
        keystorepass: "storepass".to_owned(),
        keypass: "keypass".to_owned(),
        keydname: "CN=repo, OU=F-Droid".to_owned(),
        repo_url: Some("https://example.org/fdroid/repo".to_owned()),
        repo_name: Some("Old name".to_owned()),
        repo_icon: Some("icon.png".to_owned()),
        repo_description: None,
        apksigner: Some("/usr/bin/apksigner".to_owned()),
        archive_url: None,
        archive_name: None,
        archive_icon: None,
        archive_description: None,
        archive_older: Some(3),
    }
}

fn sample_public() -> PublicConfig {
    PublicConfig {
        repo_url: Some("https://new.example.org/repo".to_owned()),
        repo_name: Some("New name".to_owned()),
        repo_icon: Some("icon.svg".to_owned()),
        repo_description: Some("A repository".to_owned()),
        archive_url: None,
        archive_name: Some("Archive".to_owned()),
        archive_icon: None,
        archive_description: None,
        archive_older: Some(0),
    }
}

fn same_public(a: &PublicConfig, b: &PublicConfig) -> bool {
    a.repo_url == b.repo_url
        && a.repo_name == b.repo_name
        && a.repo_icon == b.repo_icon
        && a.repo_description == b.repo_description
        && a.archive_url == b.archive_url
        && a.archive_name == b.archive_name
        && a.archive_icon == b.archive_icon
        && a.archive_description == b.archive_description
        && a.archive_older == b.archive_older
}

#[test]
fn set_then_get_returns_public_config() {
    let repo = Repository::new("/fdroid".to_owned());
    let written = repo.set_config(&sample_config(), &sample_public());
    let read = repo.get_public_config(&written);
    assert!(same_public(&read, &sample_public()));
    let again = set_config(&written, &sample_public());
    assert!(same_public(&get_public_config(&again), &sample_public()));
    assert_eq!(again.repo_name, written.repo_name);
}

#[test]
fn set_config_keeps_immutable_section() {
    let original = sample_config();
    let empty = PublicConfig {
        repo_url: None,
        repo_name: None,
        repo_icon: None,
        repo_description: None,
        archive_url: None,
        archive_name: None,
        archive_icon: None,
        archive_description: None,
        archive_older: None,
    };
    let written = set_config(&original, &empty);
    assert_eq!(written.sdk_path, original.sdk_path);
    assert_eq!(written.repo_keyalias, original.repo_keyalias);
    assert_eq!(written.keystore, original.keystore);
    assert_eq!(written.keystorepass, original.keystorepass);
    assert_eq!(written.keypass, original.keypass);
    assert_eq!(written.keydname, original.keydname);
    assert_eq!(written.apksigner, original.apksigner);
    assert_eq!(written.repo_name, None);
    assert_eq!(written.archive_older, None);
}

#[test]
fn public_config_from_file() {
    let public: PublicConfig = PublicConfig::from(sample_config());
    assert_eq!(public.repo_name, Some("Old name".to_owned()));
    assert_eq!(public.archive_older, Some(3));
}

#[test]
fn keystore_password_and_image_path() {
    let repo = Repository::new("/fdroid".to_owned());
    let mut config = sample_config();
    assert_eq!("storepass", repo.get_keystore_password(&config));
    assert_eq!("/fdroid/repo/icons/icon.png", repo.get_image_path(&config));
    config.repo_icon = None;
    assert_eq!("/fdroid/repo/icons/icon.png", repo.get_image_path(&config));
    config.repo_icon = Some("logo.svg".to_owned());
    assert_eq!("/fdroid/repo/icons/logo.svg", repo.get_image_path(&config));
}
