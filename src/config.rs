//! The configuration record, its default value, and its mathematical view.
use crate::identity::{
    identity_verdict, lemma_identity_accepted, IdentityError, AT_SIGN, CLOSE_ANGLE, OPEN_ANGLE, SPACE,
};
use vstd::prelude::*;
use vstd::utf8::{encode_utf8, is_ascii_chars, is_ascii_chars_encode_utf8};

verus! {

/// The schema revision that this library writes and applies.
pub const CURRENT_CIEL_VERSION: usize = 3;

/// The source line offered when no source list has been written yet.
pub const DEFAULT_APT_SOURCE: &'static str = "deb https://repo.aosc.io/debs/ stable main";

/// The identity that a default record carries.
pub const DEFAULT_MAINTAINER: &'static str = "Bot <null@aosc.io>";

/// The configuration of one build workspace.
#[derive(Debug)]
pub struct CielConfig {
    version: usize,
    maintainer: String,
    dnssec: bool,
    apt_sources: String,
    pub local_repo: bool,
    pub local_sources: bool,
    pub extra_options: Vec<String>,
    pub sep_mount: bool,
    pub volatile_mount: bool,
}

/// A configuration record as plain mathematical values.
pub struct ConfigView {
    pub version: usize,
    pub maintainer: Seq<char>,
    pub dnssec: bool,
    pub apt_sources: Seq<char>,
    pub local_repo: bool,
    pub local_sources: bool,
    pub extra_options: Seq<Seq<char>>,
    pub sep_mount: bool,
    pub volatile_mount: bool,
}

impl View for CielConfig {
    type V = ConfigView;

    closed spec fn view(&self) -> ConfigView {
        ConfigView {
            version: self.version,
            maintainer: self.maintainer@,
            dnssec: self.dnssec,
            apt_sources: self.apt_sources@,
            local_repo: self.local_repo,
            local_sources: self.local_sources,
            extra_options: self.extra_options@.map_values(|s: String| s@),
            sep_mount: self.sep_mount,
            volatile_mount: self.volatile_mount,
        }
    }
}

/// The view of the default record.
pub open spec fn default_config() -> ConfigView {
    ConfigView {
        version: CURRENT_CIEL_VERSION,
        maintainer: DEFAULT_MAINTAINER@,
        dnssec: false,
        apt_sources: DEFAULT_APT_SOURCE@,
        local_repo: true,
        local_sources: true,
        extra_options: Seq::empty(),
        sep_mount: true,
        volatile_mount: false,
    }
}

/// The record built from the values of its fields; a volatile mode that is
/// absent is off.
pub open spec fn config_from_fields(
    version: usize,
    maintainer: Seq<char>,
    dnssec: bool,
    apt_sources: Seq<char>,
    local_repo: bool,
    local_sources: bool,
    extra_options: Seq<Seq<char>>,
    sep_mount: bool,
    volatile_mount: Option<bool>,
) -> ConfigView {
    ConfigView {
        version,
        maintainer,
        dnssec,
        apt_sources,
        local_repo,
        local_sources,
        extra_options,
        sep_mount,
        volatile_mount: match volatile_mount {
            Some(b) => b,
            None => false,
        },
    }
}

/// The identity of the default record passes validation.
pub proof fn lemma_default_maintainer_valid()
    ensures
        identity_verdict(encode_utf8(default_config().maintainer)) == Ok::<(), IdentityError>(()),
{
    reveal_strlit("Bot <null@aosc.io>");
    let m = DEFAULT_MAINTAINER@;
    assert(m.len() == 18);
    assert(is_ascii_chars(m));
    is_ascii_chars_encode_utf8(m);
    let b = encode_utf8(m);
    let name = b.subrange(0, 3);
    let local = b.subrange(5, 9);
    let domain = b.subrange(10, 17);
    let rest = b.subrange(18, 18);
    assert(b =~= name + seq![SPACE, OPEN_ANGLE] + local + seq![AT_SIGN] + domain + seq![
        CLOSE_ANGLE,
    ] + rest);
    lemma_identity_accepted(name, local, domain, rest);
}

/// A record read back without a volatile mode has it off, whatever the
/// other fields hold.
pub proof fn lemma_absent_volatile_mount_is_off(
    version: usize,
    maintainer: Seq<char>,
    dnssec: bool,
    apt_sources: Seq<char>,
    local_repo: bool,
    local_sources: bool,
    extra_options: Seq<Seq<char>>,
    sep_mount: bool,
)
    ensures
        !config_from_fields(
            version,
            maintainer,
            dnssec,
            apt_sources,
            local_repo,
            local_sources,
            extra_options,
            sep_mount,
            None,
        ).volatile_mount,
{
}

/// Taking a record apart into its fields and building it again gives the
/// same record, for any identity, any source list (newlines included) and
/// any list of extra options (the empty one included).
pub proof fn lemma_fields_round_trip(c: ConfigView)
    ensures
        config_from_fields(
            c.version,
            c.maintainer,
            c.dnssec,
            c.apt_sources,
            c.local_repo,
            c.local_sources,
            c.extra_options,
            c.sep_mount,
            Some(c.volatile_mount),
        ) == c,
{
}

impl CielConfig {
    /// Builds a record from the values of its fields, as they are read back
    /// from storage: where the volatile mode is absent it is off.
    pub fn from_fields(
        version: usize,
        maintainer: String,
        dnssec: bool,
        apt_sources: String,
        local_repo: bool,
        local_sources: bool,
        extra_options: Vec<String>,
        sep_mount: bool,
        volatile_mount: Option<bool>,
    ) -> (r: CielConfig)
        ensures
            r@ == config_from_fields(
                version,
                maintainer@,
                dnssec,
                apt_sources@,
                local_repo,
                local_sources,
                extra_options@.map_values(|s: String| s@),
                sep_mount,
                volatile_mount,
            ),
    {
        let volatile_mount = match volatile_mount {
            Some(b) => b,
            None => false,
        };
        CielConfig {
            version,
            maintainer,
            dnssec,
            apt_sources,
            local_repo,
            local_sources,
            extra_options,
            sep_mount,
            volatile_mount,
        }
    }

    /// The schema revision the record was written under.
    pub fn version(&self) -> (r: usize)
        ensures
            r == self@.version,
    {
        self.version
    }

    /// The maintainer identity.
    pub fn maintainer(&self) -> (r: &String)
        ensures
            r@ == self@.maintainer,
    {
        &self.maintainer
    }

    /// Whether DNSSEC stays enabled in the target tree.
    pub fn dnssec(&self) -> (r: bool)
        ensures
            r == self@.dnssec,
    {
        self.dnssec
    }

    /// The raw text of the package source list.
    pub fn apt_sources(&self) -> (r: &String)
        ensures
            r@ == self@.apt_sources,
    {
        &self.apt_sources
    }

    /// Replaces the maintainer identity.
    pub fn set_maintainer(&mut self, maintainer: String)
        ensures
            final(self)@ == (ConfigView { maintainer: maintainer@, ..old(self)@ }),
    {
        self.maintainer = maintainer;
    }

    /// Turns DNSSEC on or off.
    pub fn set_dnssec(&mut self, dnssec: bool)
        ensures
            final(self)@ == (ConfigView { dnssec, ..old(self)@ }),
    {
        self.dnssec = dnssec;
    }

    /// Replaces the raw text of the package source list.
    pub fn set_apt_sources(&mut self, apt_sources: String)
        ensures
            final(self)@ == (ConfigView { apt_sources: apt_sources@, ..old(self)@ }),
    {
        self.apt_sources = apt_sources;
    }
}

impl Default for CielConfig {
    fn default() -> (r: CielConfig)
        ensures
            r@ == default_config(),
    {
        let r = CielConfig {
            version: CURRENT_CIEL_VERSION,
            maintainer: DEFAULT_MAINTAINER.to_owned(),
            dnssec: false,
            apt_sources: DEFAULT_APT_SOURCE.to_owned(),
            local_repo: true,
            local_sources: true,
            extra_options: Vec::new(),
            sep_mount: true,
            volatile_mount: false,
        };
        assert(r@.extra_options =~= Seq::<Seq<char>>::empty());
        r
    }
}

} // verus!
