//! What a run is asked to do with each host.

use vstd::prelude::*;

verus! {

/// How an uploaded system is brought into use on the host.
#[derive(Clone, Copy, Debug, PartialEq, Eq, Structural)]
pub enum UploadAction {
    /// Activate now, keep the old system for the next boot.
    Test,
    /// Select for the next boot, leave the running system alone.
    Boot,
    /// Select for the next boot and activate now.
    Switch,
}

impl UploadAction {
    /// The word that the activation script takes for this action.
    pub open spec fn spec_name(self) -> Seq<char> {
        match self {
            UploadAction::Test => "test"@,
            UploadAction::Boot => "boot"@,
            UploadAction::Switch => "switch"@,
        }
    }

    /// Whether the system profile is pointed at the new system.
    pub open spec fn spec_should_switch_profile(&self) -> bool {
        *self == UploadAction::Switch || *self == UploadAction::Boot
    }

    /// Whether the activation script of the new system is run.
    pub open spec fn spec_should_activate(&self) -> bool {
        *self == UploadAction::Switch || *self == UploadAction::Test
    }

    /// Whether a transient timer is armed that starts the rollback watchdog
    /// should the activation never get that far.
    pub open spec fn spec_should_schedule_rollback_run(&self) -> bool {
        *self == UploadAction::Switch || *self == UploadAction::Test
    }

    pub fn name(&self) -> (r: &'static str)
        ensures
            r@ == self.spec_name(),
    {
        match self {
            UploadAction::Test => "test",
            UploadAction::Boot => "boot",
            UploadAction::Switch => "switch",
        }
    }

    #[verifier::when_used_as_spec(spec_should_switch_profile)]
    pub fn should_switch_profile(&self) -> (r: bool)
        ensures
            r == self.spec_should_switch_profile(),
    {
        match self {
            UploadAction::Switch | UploadAction::Boot => true,
            UploadAction::Test => false,
        }
    }

    #[verifier::when_used_as_spec(spec_should_activate)]
    pub fn should_activate(&self) -> (r: bool)
        ensures
            r == self.spec_should_activate(),
    {
        match self {
            UploadAction::Switch | UploadAction::Test => true,
            UploadAction::Boot => false,
        }
    }

    #[verifier::when_used_as_spec(spec_should_schedule_rollback_run)]
    pub fn should_schedule_rollback_run(&self) -> (r: bool)
        ensures
            r == self.spec_should_schedule_rollback_run(),
    {
        match self {
            UploadAction::Switch | UploadAction::Test => true,
            UploadAction::Boot => false,
        }
    }
}

/// A bootable medium that can be built for a host.
#[derive(Clone, Copy, Debug, PartialEq, Eq, Structural)]
pub enum PackageAction {
    SdImage,
    InstallationCd,
}

impl PackageAction {
    /// The attribute under `buildSystems` that holds this medium.
    pub open spec fn spec_build_attr(self) -> Seq<char> {
        match self {
            PackageAction::SdImage => "sdImage"@,
            PackageAction::InstallationCd => "installationCd"@,
        }
    }

    /// The first part of the name of the link that the finished medium is
    /// left under, in the directory the run was started from.
    pub open spec fn spec_out_prefix(self) -> Seq<char> {
        match self {
            PackageAction::SdImage => "sd-image-"@,
            PackageAction::InstallationCd => "installation-cd-"@,
        }
    }

    pub fn build_attr(&self) -> (r: String)
        ensures
            r@ == self.spec_build_attr(),
    {
        match self {
            PackageAction::SdImage => "sdImage".to_owned(),
            PackageAction::InstallationCd => "installationCd".to_owned(),
        }
    }

    /// The name of the link that the finished medium for `host` is left under.
    pub fn out_name(&self, host: &str) -> (r: String)
        ensures
            r@ == self.spec_out_prefix() + host@,
    {
        let prefix = match self {
            PackageAction::SdImage => "sd-image-",
            PackageAction::InstallationCd => "installation-cd-",
        };
        prefix.to_owned().concat(host)
    }
}

/// What is done for each host of a run.
#[derive(Clone, Copy, Debug, PartialEq, Eq, Structural)]
pub enum Action {
    /// Build the system and copy it to the host; with an `action`, go on to
    /// bring it into use there.
    Upload { action: Option<UploadAction> },
    /// Build a bootable medium for the host.
    Package(PackageAction),
}

impl Action {
    /// The attribute under `buildSystems` that is built.
    pub open spec fn spec_build_attr(self) -> Seq<char> {
        match self {
            Action::Upload { .. } => "toplevel"@,
            Action::Package(p) => p.spec_build_attr(),
        }
    }

    /// The attribute path, before the configuration resolves it, of what is
    /// built for `host`.
    pub open spec fn spec_attr_path(self, host: Seq<char>) -> Seq<char> {
        "buildSystems."@ + self.spec_build_attr() + "."@ + host
    }

    /// The way the system is brought into use, if it is at all.
    pub open spec fn mode(self) -> Option<UploadAction> {
        match self {
            Action::Upload { action } => action,
            Action::Package(_) => None,
        }
    }

    pub fn build_attr(&self) -> (r: String)
        ensures
            r@ == self.spec_build_attr(),
    {
        match self {
            Action::Upload { .. } => "toplevel".to_owned(),
            Action::Package(p) => p.build_attr(),
        }
    }

    /// The attribute path of what is built for `host`, to be resolved by the
    /// configuration into a build target.
    pub fn attr_path(&self, host: &str) -> (r: String)
        ensures
            r@ == self.spec_attr_path(host@),
    {
        let attr = self.build_attr();
        "buildSystems.".to_owned().concat(attr.as_str()).concat(".").concat(host)
    }
}

/// The subcommands of a run, as they are given on the command line.
#[derive(Clone, Copy, Debug, PartialEq, Eq, Structural)]
pub enum Subcommand {
    /// Upload, but do not switch.
    Upload,
    /// Upload and switch to the built system until reboot.
    Test,
    /// Upload and switch to the built system after reboot.
    Boot,
    /// Upload, test and boot.
    Switch,
    /// Build an SD card image.
    SdImage,
    /// Build an installation CD image.
    InstallationCd,
}

impl From<Subcommand> for Action {
    fn from(s: Subcommand) -> (r: Action) {
        match s {
            Subcommand::Upload => Action::Upload { action: None },
            Subcommand::Test => Action::Upload { action: Some(UploadAction::Test) },
            Subcommand::Boot => Action::Upload { action: Some(UploadAction::Boot) },
            Subcommand::Switch => Action::Upload { action: Some(UploadAction::Switch) },
            Subcommand::SdImage => Action::Package(PackageAction::SdImage),
            Subcommand::InstallationCd => Action::Package(PackageAction::InstallationCd),
        }
    }
}

impl vstd::std_specs::convert::FromSpecImpl<Subcommand> for Action {
    open spec fn obeys_from_spec() -> bool {
        true
    }

    open spec fn from_spec(s: Subcommand) -> Action {
        match s {
            Subcommand::Upload => Action::Upload { action: None },
            Subcommand::Test => Action::Upload { action: Some(UploadAction::Test) },
            Subcommand::Boot => Action::Upload { action: Some(UploadAction::Boot) },
            Subcommand::Switch => Action::Upload { action: Some(UploadAction::Switch) },
            Subcommand::SdImage => Action::Package(PackageAction::SdImage),
            Subcommand::InstallationCd => Action::Package(PackageAction::InstallationCd),
        }
    }
}

/// The settings of one run over the fleet.
#[derive(Clone, Copy, Debug, PartialEq, Eq, Structural)]
pub struct BuildSystems {
    /// Do not continue on error.
    pub fail_fast: bool,
    /// Disable automatic rollback.
    pub disable_rollback: bool,
    /// Run builds with elevated privileges.
    pub privileged_build: bool,
    /// What to do with each host.
    pub subcommand: Subcommand,
}

impl BuildSystems {
    /// What this run does for each host.
    pub open spec fn spec_action(&self) -> Action {
        <Action as vstd::std_specs::convert::FromSpec<Subcommand>>::from_spec(self.subcommand)
    }

    #[verifier::when_used_as_spec(spec_action)]
    pub fn action(&self) -> (r: Action)
        ensures
            r == self.spec_action(),
    {
        Action::from(self.subcommand)
    }
}

} // verus!
