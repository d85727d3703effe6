use ciel::apply::{config_artifacts, Artifact};
use ciel::config::CielConfig;

fn with(dnssec: bool, sources: &str, maintainer: &str) -> CielConfig {
    let mut c = CielConfig::default();
    c.set_dnssec(dnssec);
    c.set_apt_sources(sources.to_owned());
    c.set_maintainer(maintainer.to_owned());
    c
}

fn find<'a>(a: &'a [Artifact], path: &str) -> Option<&'a Artifact> {
    a.iter().find(|x| x.path == path)
}

#[test]
fn default_record_without_sources_writes_three_files() {
    let mut c = CielConfig::default();
    c.set_apt_sources(String::new());
    let a = config_artifacts(&c);
    let paths: Vec<&str> = a.iter().map(|x| x.path.as_str()).collect();
    assert_eq!(
        paths,
        vec![
            "usr/lib/autobuild3/etc/autobuild/ab3cfg.sh",
            "etc/systemd/resolved.conf",
            "etc/acbs/forest.conf",
        ]
    );
    assert!(find(&a, "etc/apt/sources.list").is_none());
}

#[test]
fn identity_file_inserts_maintainer_verbatim() {
    let a = config_artifacts(&with(true, "", "A \"q\" <a@b>"));
    assert_eq!(
        find(&a, "usr/lib/autobuild3/etc/autobuild/ab3cfg.sh").unwrap().content,
        "#!/bin/bash\nABMPM=dpkg\nABAPMS=\nABINSTALL=dpkg\nMTER=\"A \"q\" <a@b>\""
    );
}

#[test]
fn dnssec_on_writes_no_resolver_override() {
    let a = config_artifacts(&with(true, "deb x", "a <b@c>"));
    assert!(find(&a, "etc/systemd/resolved.conf").is_none());
    assert_eq!(a.len(), 3);
}

#[test]
fn dnssec_off_writes_resolver_override() {
    let a = config_artifacts(&with(false, "", "a <b@c>"));
    assert_eq!(
        find(&a, "etc/systemd/resolved.conf").unwrap().content,
        "[Resolve]\nDNSSEC=no\n"
    );
}

#[test]
fn sources_written_verbatim() {
    let a = config_artifacts(&with(true, "deb a b\n\ndeb c d", "a <b@c>"));
    assert_eq!(find(&a, "etc/apt/sources.list").unwrap().content, "deb a b\n\ndeb c d");
}

#[test]
fn forest_file_always_written() {
    for (dnssec, sources) in [(true, ""), (false, ""), (true, "x"), (false, "x")] {
        let a = config_artifacts(&with(dnssec, sources, "a <b@c>"));
        assert_eq!(a.last().unwrap().path, "etc/acbs/forest.conf");
        assert_eq!(a.last().unwrap().content, "[default]\nlocation = /tree/\n");
        assert_eq!(a[0].path, "usr/lib/autobuild3/etc/autobuild/ab3cfg.sh");
    }
}

#[test]
fn all_four_files_in_order() {
    let a = config_artifacts(&with(false, "deb x", "a <b@c>"));
    let paths: Vec<&str> = a.iter().map(|x| x.path.as_str()).collect();
    assert_eq!(
        paths,
        vec![
            "usr/lib/autobuild3/etc/autobuild/ab3cfg.sh",
            "etc/apt/sources.list",
            "etc/systemd/resolved.conf",
            "etc/acbs/forest.conf",
        ]
    );
}
