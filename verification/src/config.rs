use vstd::prelude::*;

verus! {

/// Configuration of the packet-inspection (Suricata) service: the capture
/// interfaces, an optional image override and an optional BPF filter.
pub struct SuricataConfig {
    pub interfaces: Vec<String>,
    pub image: Option<String>,
    pub bpf: Option<String>,
}

/// Configuration of the event-viewer (EveBox) service.  With remote access
/// disabled the published port binds to the loopback interface only.
pub struct EveBoxConfig {
    pub allow_remote: bool,
    pub no_tls: bool,
    pub no_auth: bool,
    pub image: Option<String>,
}

/// The whole on-disk configuration.  Loading and persisting the file is the
/// caller's business; this type only carries the values the controller reads.
pub struct Config {
    pub suricata: SuricataConfig,
    pub evebox: EveBoxConfig,
}

impl Default for SuricataConfig {
    fn default() -> (r: Self)
        ensures
            r.interfaces@.len() == 0,
            r.image is None,
            r.bpf is None,
    {
        SuricataConfig { interfaces: Vec::new(), image: None, bpf: None }
    }
}

impl Default for EveBoxConfig {
    fn default() -> (r: Self)
        ensures
            !r.allow_remote,
            r.no_tls,
            r.no_auth,
            r.image is None,
    {
        EveBoxConfig { allow_remote: false, no_tls: true, no_auth: true, image: None }
    }
}

impl Default for Config {
    fn default() -> (r: Self)
        ensures
            r.suricata.interfaces@.len() == 0,
            r.suricata.image is None,
            r.suricata.bpf is None,
            !r.evebox.allow_remote,
            r.evebox.no_tls,
            r.evebox.no_auth,
            r.evebox.image is None,
    {
        Config { suricata: Default::default(), evebox: Default::default() }
    }
}

/// Turning remote access on also turns TLS and authentication on: a viewer
/// reachable from other hosts is never left unprotected.
pub fn enable_remote_access(config: &mut EveBoxConfig)
    ensures
        final(config).allow_remote,
        !final(config).no_tls,
        !final(config).no_auth,
        final(config).image == old(config).image,
{
    config.no_tls = false;
    config.no_auth = false;
    config.allow_remote = true;
}

/// Turning remote access off touches nothing else.
pub fn disable_remote_access(config: &mut EveBoxConfig)
    ensures
        !final(config).allow_remote,
        final(config).no_tls == old(config).no_tls,
        final(config).no_auth == old(config).no_auth,
        final(config).image == old(config).image,
{
    config.allow_remote = false;
}

} // verus!
