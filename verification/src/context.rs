use vstd::prelude::*;

use crate::config::Config;
use crate::container::{image_name, spec_image_name, Container, ContainerManager};

verus! {

/// Everything the controller needs, constructed once at startup and passed
/// into every component: the configuration, the chosen engine, and the two
/// resolved image names stashed for easy access.
pub struct Context {
    pub config: Config,
    pub manager: ContainerManager,
    pub suricata_image: String,
    pub evebox_image: String,
    pub no_fixups: bool,
}

impl Context {
    pub fn new(config: Config, manager: ContainerManager, no_fixups: bool) -> (r: Self)
        ensures
            r.config == config,
            r.manager == manager,
            r.no_fixups == no_fixups,
            r.suricata_image@ == spec_image_name(config, Container::Suricata),
            r.evebox_image@ == spec_image_name(config, Container::EveBox),
    {
        let suricata_image = image_name(&config, Container::Suricata);
        let evebox_image = image_name(&config, Container::EveBox);
        Context { config, manager, suricata_image, evebox_image, no_fixups }
    }

    /// Given a container role, return the image name: the configured
    /// override when present, the hard-coded default otherwise.
    pub fn image_name(&self, container: Container) -> (r: String)
        ensures
            r@ == spec_image_name(self.config, container),
    {
        image_name(&self.config, container)
    }
}

/// The non-interactive command-line verbs, and the two verbs that jump to
/// interactive menus.
pub enum Command {
    Start { debug: bool },
    Stop,
    Restart,
    Status,
    UpdateRules,
    Update,
    Logs { follow: bool, services: Vec<String> },
    ConfigureMenu,
    Menu { menu: String },
    Remove,
}

/// Whether the invocation runs interactively: explicit menu verbs do, no
/// verb at all drops into the main menu, everything else runs and exits.
pub fn is_interactive(command: &Option<Command>) -> (r: bool)
    ensures
        r == match command {
            Some(c) => c is ConfigureMenu || c is Menu,
            None => true,
        },
{
    match command {
        Some(command) => match command {
            Command::Start { .. } => false,
            Command::Stop => false,
            Command::Restart => false,
            Command::Status => false,
            Command::UpdateRules => false,
            Command::Update => false,
            Command::Logs { .. } => false,
            Command::ConfigureMenu => true,
            Command::Menu { .. } => true,
            Command::Remove => false,
        },
        None => true,
    }
}

} // verus!
