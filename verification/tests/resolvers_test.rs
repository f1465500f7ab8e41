use sifis_generate::define_license;
use sifis_generate::define_name;
use sifis_generate::error::Error;
use sifis_generate::expand_home;

#[test]
fn explicit_ascii_name_wins() {
    assert_eq!(define_name("demo", "/some/other/path").unwrap(), "demo");
    assert_eq!(define_name("demo", "").unwrap(), "demo");
}

#[test]
fn empty_name_falls_back_to_path_component() {
    assert_eq!(define_name("", "/tmp/proj").unwrap(), "proj");
    assert_eq!(define_name("", "proj").unwrap(), "proj");
}

#[test]
fn non_ascii_name_falls_back_to_path_component() {
    assert_eq!(define_name("pr\u{f8}j", "/tmp/proj").unwrap(), "proj");
}

#[test]
fn trailing_separators_are_ignored() {
    assert_eq!(define_name("", "/tmp/proj/").unwrap(), "proj");
    assert_eq!(define_name("", "a/").unwrap(), "a");
    assert_eq!(define_name("", "a//").unwrap(), "a");
}

#[test]
fn unusable_fallback_is_an_encoding_error() {
    assert_eq!(define_name("", "").unwrap_err(), Error::UTF8Check);
    assert_eq!(define_name("", "/").unwrap_err(), Error::UTF8Check);
    assert_eq!(define_name("", ".").unwrap_err(), Error::UTF8Check);
    assert_eq!(define_name("", "..").unwrap_err(), Error::UTF8Check);
    assert_eq!(define_name("", "/tmp/..").unwrap_err(), Error::UTF8Check);
    assert_eq!(define_name("", "/tmp/pr\u{f8}j").unwrap_err(), Error::UTF8Check);
}

#[test]
fn empty_license_is_refused() {
    assert_eq!(define_license("").unwrap_err(), Error::NoLicense);
}

#[test]
fn known_licenses_resolve() {
    for id in ["MIT", "Apache-2.0", "GPL-3.0"] {
        let descriptor = define_license(id).unwrap();
        assert_eq!(descriptor.id, id);
        assert!(!descriptor.full_text.is_empty());
    }
    let mit = define_license("MIT").unwrap();
    assert!(mit.full_text.contains("Permission is hereby granted"));
}

#[test]
fn unknown_license_is_invalid() {
    assert_eq!(define_license("NOT-A-LICENSE").unwrap_err(), Error::InvalidLicense);
    assert_eq!(define_license("mit").unwrap_err(), Error::InvalidLicense);
}

#[test]
fn tilde_expands_against_home() {
    assert_eq!(expand_home("~/proj", Some("/home/u")).unwrap(), "/home/u/proj");
    assert_eq!(expand_home("~", Some("/home/u")).unwrap(), "/home/u");
    assert_eq!(expand_home("~\\proj", Some("C:\\Users\\u")).unwrap(), "C:\\Users\\u\\proj");
}

#[test]
fn tilde_without_home_fails() {
    assert_eq!(expand_home("~/proj", None).unwrap_err(), Error::HomeDir);
}

#[test]
fn plain_paths_pass_through() {
    assert_eq!(expand_home("/abs/path", None).unwrap(), "/abs/path");
    assert_eq!(expand_home("relative", Some("/home/u")).unwrap(), "relative");
    assert_eq!(expand_home("~intern", None).unwrap(), "~intern");
}
