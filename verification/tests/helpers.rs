use watchcore::util::{
    log_level_for, os_arch, ArchFamily, EnvError, LogLevel, OsFamily, PathBufAdditions, RelPath,
    StrAdditions,
};

#[test]
fn supported_platforms_are_named() {
    assert_eq!(
        os_arch(OsFamily::Linux, ArchFamily::X86_64),
        Ok(("linux", "x86_64"))
    );
    assert_eq!(
        os_arch(OsFamily::Macos, ArchFamily::Aarch64),
        Ok(("macos", "aarch64"))
    );
    assert_eq!(
        os_arch(OsFamily::Windows, ArchFamily::X86_64),
        Ok(("windows", "x86_64"))
    );
}

#[test]
fn unsupported_platforms_are_rejected_os_first() {
    assert_eq!(
        os_arch(OsFamily::Other, ArchFamily::X86_64),
        Err(EnvError::UnsupportedOs)
    );
    assert_eq!(
        os_arch(OsFamily::Linux, ArchFamily::Other),
        Err(EnvError::UnsupportedArch)
    );
    assert_eq!(
        os_arch(OsFamily::Other, ArchFamily::Other),
        Err(EnvError::UnsupportedOs)
    );
}

#[test]
fn verbosity_selects_the_log_level() {
    assert_eq!(log_level_for(0), LogLevel::Warn);
    assert_eq!(log_level_for(1), LogLevel::Info);
    assert_eq!(log_level_for(2), LogLevel::Debug);
    assert_eq!(log_level_for(3), LogLevel::Trace);
    assert_eq!(log_level_for(200), LogLevel::Trace);
}

#[test]
fn str_with_appends() {
    assert_eq!("cargo ".with("serve"), "cargo serve".to_string());
    assert_eq!(String::from("cargo ").with("watch"), "cargo watch".to_string());
    assert_eq!("".with(""), String::new());
}

#[test]
fn path_with_appends_a_component() {
    let p = RelPath::from_segments(vec!["target".to_string(), "debug".to_string()]);
    let p = p.with("demo");
    assert_eq!(
        p.segments,
        vec!["target".to_string(), "debug".to_string(), "demo".to_string()]
    );
}

#[test]
fn path_without_last_drops_a_component() {
    let p = RelPath::from_segments(vec!["target".to_string(), "debug".to_string()]);
    let p = p.without_last();
    assert_eq!(p.segments, vec!["target".to_string()]);
    let p = p.without_last();
    assert!(p.segments.is_empty());
    let p = p.without_last();
    assert!(p.segments.is_empty());
}

#[test]
fn empty_path_is_empty() {
    assert!(RelPath::new().segments.is_empty());
}
