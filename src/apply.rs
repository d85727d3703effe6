//! The files that a configuration record projects onto a target tree.
//!
//! `config_artifacts` decides which files are written, where and with what
//! content, in the order in which they are to be written. Writing them is
//! left to the caller: each artifact replaces whatever stands at its path,
//! and a path that is not planned is never touched.
use crate::config::{CielConfig, ConfigView};
use vstd::prelude::*;

verus! {

/// Where the build toolchain reads the maintainer identity.
pub const DEFAULT_AB3_CONFIG_LOCATION: &'static str = "usr/lib/autobuild3/etc/autobuild/ab3cfg.sh";

/// Where the package manager reads its source list.
pub const DEFAULT_APT_LIST_LOCATION: &'static str = "etc/apt/sources.list";

/// Where the resolver reads its overrides.
pub const DEFAULT_RESOLV_LOCATION: &'static str = "etc/systemd/resolved.conf";

/// Where the package build tool finds its package tree.
pub const DEFAULT_ACBS_CONFIG: &'static str = "etc/acbs/forest.conf";

/// The lines of the toolchain file that come before the identity.
pub const AB3_PREAMBLE: &'static str = "#!/bin/bash\nABMPM=dpkg\nABAPMS=\nABINSTALL=dpkg\nMTER=\"";

/// What closes the identity in the toolchain file.
pub const AB3_CLOSING: &'static str = "\"";

/// The resolver override that turns DNSSEC off.
pub const RESOLV_CONTENT: &'static str = "[Resolve]\nDNSSEC=no\n";

/// The package tree location file.
pub const ACBS_CONTENT: &'static str = "[default]\nlocation = /tree/\n";

/// One file to write: its path relative to the target root, and its content.
pub struct Artifact {
    pub path: String,
    pub content: String,
}

impl View for Artifact {
    type V = (Seq<char>, Seq<char>);

    open spec fn view(&self) -> (Seq<char>, Seq<char>) {
        (self.path@, self.content@)
    }
}

/// The toolchain file for a maintainer identity, inserted verbatim.
pub open spec fn identity_file_text(maintainer: Seq<char>) -> Seq<char> {
    AB3_PREAMBLE@ + maintainer + AB3_CLOSING@
}

/// The artifacts of a record, in the order in which they are written: the
/// toolchain file; the source list, unless it is empty; the resolver
/// override, unless DNSSEC is on; the package tree location file.
pub open spec fn planned_artifacts(c: ConfigView) -> Seq<(Seq<char>, Seq<char>)> {
    seq![(DEFAULT_AB3_CONFIG_LOCATION@, identity_file_text(c.maintainer))]
        + (if c.apt_sources.len() > 0 {
        seq![(DEFAULT_APT_LIST_LOCATION@, c.apt_sources)]
    } else {
        Seq::empty()
    }) + (if !c.dnssec {
        seq![(DEFAULT_RESOLV_LOCATION@, RESOLV_CONTENT@)]
    } else {
        Seq::empty()
    }) + seq![(DEFAULT_ACBS_CONFIG@, ACBS_CONTENT@)]
}

/// Whether some planned artifact is written at `path`.
pub open spec fn plans_path(c: ConfigView, path: Seq<char>) -> bool {
    exists|i: int| 0 <= i < planned_artifacts(c).len() && (#[trigger] planned_artifacts(c)[i]).0 == path
}

/// Whether the artifact `(path, content)` is planned.
pub open spec fn plans_file(c: ConfigView, path: Seq<char>, content: Seq<char>) -> bool {
    planned_artifacts(c).contains((path, content))
}

/// The four artifact paths differ from one another.
proof fn lemma_paths_distinct()
    ensures
        DEFAULT_AB3_CONFIG_LOCATION@ != DEFAULT_APT_LIST_LOCATION@,
        DEFAULT_AB3_CONFIG_LOCATION@ != DEFAULT_RESOLV_LOCATION@,
        DEFAULT_AB3_CONFIG_LOCATION@ != DEFAULT_ACBS_CONFIG@,
        DEFAULT_APT_LIST_LOCATION@ != DEFAULT_RESOLV_LOCATION@,
        DEFAULT_APT_LIST_LOCATION@ != DEFAULT_ACBS_CONFIG@,
        DEFAULT_RESOLV_LOCATION@ != DEFAULT_ACBS_CONFIG@,
{
    reveal_strlit("usr/lib/autobuild3/etc/autobuild/ab3cfg.sh");
    reveal_strlit("etc/apt/sources.list");
    reveal_strlit("etc/systemd/resolved.conf");
    reveal_strlit("etc/acbs/forest.conf");
    assert(DEFAULT_AB3_CONFIG_LOCATION@[0] != DEFAULT_APT_LIST_LOCATION@[0]);
    assert(DEFAULT_AB3_CONFIG_LOCATION@[0] != DEFAULT_RESOLV_LOCATION@[0]);
    assert(DEFAULT_AB3_CONFIG_LOCATION@[0] != DEFAULT_ACBS_CONFIG@[0]);
    assert(DEFAULT_APT_LIST_LOCATION@[4] != DEFAULT_RESOLV_LOCATION@[4]);
    assert(DEFAULT_APT_LIST_LOCATION@[5] != DEFAULT_ACBS_CONFIG@[5]);
    assert(DEFAULT_RESOLV_LOCATION@[4] != DEFAULT_ACBS_CONFIG@[4]);
}

/// No two planned artifacts share a path, so each file is written at most
/// once and keeps the content planned for it.
pub proof fn lemma_planned_paths_unique(c: ConfigView)
    ensures
        forall|i: int, j: int|
            0 <= i < j < planned_artifacts(c).len() ==> (#[trigger] planned_artifacts(c)[i]).0
                != (#[trigger] planned_artifacts(c)[j]).0,
{
    lemma_paths_distinct();
}

/// With DNSSEC on, nothing is written at the resolver override's path; with
/// DNSSEC off, the override is written with its fixed content.
pub proof fn lemma_resolver_override(c: ConfigView)
    ensures
        c.dnssec ==> !plans_path(c, DEFAULT_RESOLV_LOCATION@),
        !c.dnssec ==> plans_file(c, DEFAULT_RESOLV_LOCATION@, RESOLV_CONTENT@),
{
    lemma_paths_distinct();
    let p = planned_artifacts(c);
    if !c.dnssec {
        assert(p[p.len() - 2] == (DEFAULT_RESOLV_LOCATION@, RESOLV_CONTENT@));
    }
}

/// An empty source list leaves the source list's path alone; any other is
/// written there verbatim.
pub proof fn lemma_source_list(c: ConfigView)
    ensures
        c.apt_sources.len() == 0 ==> !plans_path(c, DEFAULT_APT_LIST_LOCATION@),
        c.apt_sources.len() > 0 ==> plans_file(c, DEFAULT_APT_LIST_LOCATION@, c.apt_sources),
{
    lemma_paths_distinct();
    let p = planned_artifacts(c);
    if c.apt_sources.len() > 0 {
        assert(p[1] == (DEFAULT_APT_LIST_LOCATION@, c.apt_sources));
    }
}

/// Whatever the record holds, the package tree location file is written with
/// its fixed content, and the toolchain file with the identity inserted
/// verbatim.
pub proof fn lemma_always_written(c: ConfigView)
    ensures
        plans_file(c, DEFAULT_ACBS_CONFIG@, ACBS_CONTENT@),
        plans_file(c, DEFAULT_AB3_CONFIG_LOCATION@, identity_file_text(c.maintainer)),
{
    let p = planned_artifacts(c);
    assert(p[p.len() - 1] == (DEFAULT_ACBS_CONFIG@, ACBS_CONTENT@));
    assert(p[0] == (DEFAULT_AB3_CONFIG_LOCATION@, identity_file_text(c.maintainer)));
}

/// The files that applying `config` writes under a target root, in order.
pub fn config_artifacts(config: &CielConfig) -> (r: Vec<Artifact>)
    ensures
        r@.map_values(|a: Artifact| a@) == planned_artifacts(config@),
{
    let mut r: Vec<Artifact> = Vec::new();
    let mut text = AB3_PREAMBLE.to_owned();
    text.append(config.maintainer().as_str());
    text.append(AB3_CLOSING);
    r.push(Artifact { path: DEFAULT_AB3_CONFIG_LOCATION.to_owned(), content: text });
    let sources = config.apt_sources();
    if !sources.as_str().is_empty() {
        r.push(Artifact { path: DEFAULT_APT_LIST_LOCATION.to_owned(), content: sources.clone() });
    }
    if !config.dnssec() {
        r.push(Artifact { path: DEFAULT_RESOLV_LOCATION.to_owned(), content: RESOLV_CONTENT.to_owned() });
    }
    r.push(Artifact { path: DEFAULT_ACBS_CONFIG.to_owned(), content: ACBS_CONTENT.to_owned() });
    assert(r@.map_values(|a: Artifact| a@) =~= planned_artifacts(config@));
    r
}

} // verus!
