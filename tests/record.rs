use ciel::config::{CielConfig, CURRENT_CIEL_VERSION, DEFAULT_APT_SOURCE};
use ciel::identity::validate_maintainer;
use ciel::wizard::{sources_after_edit, sources_to_edit, starting_config};

#[test]
fn default_record_values() {
    let c = CielConfig::default();
    assert_eq!(c.version(), CURRENT_CIEL_VERSION);
    assert_eq!(c.maintainer(), "Bot <null@aosc.io>");
    assert!(!c.dnssec());
    assert_eq!(c.apt_sources(), "deb https://repo.aosc.io/debs/ stable main");
    assert!(c.local_repo);
    assert!(c.local_sources);
    assert!(c.extra_options.is_empty());
    assert!(c.sep_mount);
    assert!(!c.volatile_mount);
}

#[test]
fn default_maintainer_is_valid() {
    let c = CielConfig::default();
    assert_eq!(validate_maintainer(c.maintainer()), Ok(()));
}

fn sample(volatile_mount: Option<bool>) -> CielConfig {
    CielConfig::from_fields(
        3,
        "test <aosc@aosc.io>".to_owned(),
        true,
        "deb a b\ndeb c d\n".to_owned(),
        false,
        true,
        vec!["--bind=/x".to_owned()],
        false,
        volatile_mount,
    )
}

#[test]
fn absent_volatile_mount_is_off() {
    assert!(!sample(None).volatile_mount);
}

#[test]
fn present_volatile_mount_is_kept() {
    assert!(sample(Some(true)).volatile_mount);
    assert!(!sample(Some(false)).volatile_mount);
}

#[test]
fn fields_are_kept_verbatim() {
    let c = sample(Some(true));
    assert_eq!(c.version(), 3);
    assert_eq!(c.maintainer(), "test <aosc@aosc.io>");
    assert!(c.dnssec());
    assert_eq!(c.apt_sources(), "deb a b\ndeb c d\n");
    assert!(!c.local_repo);
    assert!(c.local_sources);
    assert_eq!(c.extra_options, vec!["--bind=/x".to_owned()]);
    assert!(!c.sep_mount);
}

#[test]
fn rebuilding_from_fields_keeps_the_record() {
    let c = CielConfig::from_fields(
        3,
        "a <b@c>".to_owned(),
        false,
        "line one\nline two".to_owned(),
        true,
        false,
        Vec::new(),
        true,
        Some(true),
    );
    let d = CielConfig::from_fields(
        c.version(),
        c.maintainer().clone(),
        c.dnssec(),
        c.apt_sources().clone(),
        c.local_repo,
        c.local_sources,
        c.extra_options.clone(),
        c.sep_mount,
        Some(c.volatile_mount),
    );
    assert_eq!(d.maintainer(), "a <b@c>");
    assert_eq!(d.apt_sources(), "line one\nline two");
    assert!(d.extra_options.is_empty());
    assert!(d.volatile_mount);
    assert!(!d.dnssec());
}

#[test]
fn setters_replace_one_field() {
    let mut c = CielConfig::default();
    c.set_maintainer("x <y@z>".to_owned());
    c.set_dnssec(true);
    c.set_apt_sources(String::new());
    assert_eq!(c.maintainer(), "x <y@z>");
    assert!(c.dnssec());
    assert_eq!(c.apt_sources(), "");
    assert!(c.local_repo);
}

#[test]
fn starting_config_defaults_when_none() {
    let c = starting_config(None);
    assert_eq!(c.maintainer(), "Bot <null@aosc.io>");
    let d = starting_config(Some(sample(None)));
    assert_eq!(d.maintainer(), "test <aosc@aosc.io>");
}

#[test]
fn editor_gets_sample_line_for_empty_list() {
    assert_eq!(sources_to_edit(&String::new()), DEFAULT_APT_SOURCE);
    assert_eq!(sources_to_edit(&"deb x y".to_owned()), "deb x y");
}

#[test]
fn aborted_edit_gives_sample_line() {
    assert_eq!(sources_after_edit(None), DEFAULT_APT_SOURCE);
    assert_eq!(sources_after_edit(Some("deb z".to_owned())), "deb z");
}
