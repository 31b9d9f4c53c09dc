use fdroid::app_config::{MaxPayloadSize, Password, Port, RepoPath, WrappedValue};
use fdroid::auth_guard::AuthGuard;

#[test]
fn settings_defaults() {
    assert_eq!(80, *Port::default().value());
    assert_eq!("/fdroid", RepoPath::default().to_string());
    assert_eq!("admin", Password::default().to_string());
    assert_eq!(262144000, *MaxPayloadSize::default().value());
    assert_eq!(1048576, MaxPayloadSize::mega_to_bytes(1));
}

#[test]
fn settings_from_text() {
    assert_eq!(8080, Port::from_setting(Some("8080")).0);
    assert_eq!(80, Port::from_setting(Some("70000")).0);
    assert_eq!(80, Port::from_setting(Some("http")).0);
    assert_eq!(80, Port::from_setting(None).0);
    assert_eq!("8080", Port::from(8080).to_string());
    assert_eq!(1024, MaxPayloadSize::from_setting(Some("1024")).0);
    assert_eq!(262144000, MaxPayloadSize::from_setting(Some("lots")).0);
    assert_eq!("/data", RepoPath::from_setting(Some("/data")).0);
    assert_eq!("secret", Password::from_setting(Some("secret")).0);
    assert_eq!("admin", Password::from_setting(None).0);
}

#[test]
fn guard_compares_password() {
    let guard = AuthGuard::new(Password::from("s3cret".to_owned()));
    assert!(guard.check(Some("s3cret")));
    assert!(!guard.check(Some("S3cret")));
    assert!(!guard.check(Some("")));
    assert!(!guard.check(None));
}
