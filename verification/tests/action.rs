use fleet::{Action, BuildSystems, PackageAction, Subcommand, UploadAction};

#[test]
fn upload_action_names() {
    assert_eq!(UploadAction::Test.name(), "test");
    assert_eq!(UploadAction::Boot.name(), "boot");
    assert_eq!(UploadAction::Switch.name(), "switch");
}

#[test]
fn upload_action_table() {
    // mode, switches profile, runs activation, arms rollback run
    let table = [
        (UploadAction::Test, false, true, true),
        (UploadAction::Boot, true, false, false),
        (UploadAction::Switch, true, true, true),
    ];
    for (mode, switch, activate, schedule) in table {
        assert_eq!(mode.should_switch_profile(), switch);
        assert_eq!(mode.should_activate(), activate);
        assert_eq!(mode.should_schedule_rollback_run(), schedule);
    }
}

#[test]
fn build_attrs() {
    assert_eq!(PackageAction::SdImage.build_attr(), "sdImage");
    assert_eq!(PackageAction::InstallationCd.build_attr(), "installationCd");
    assert_eq!(Action::Upload { action: None }.build_attr(), "toplevel");
    assert_eq!(Action::Upload { action: Some(UploadAction::Boot) }.build_attr(), "toplevel");
    assert_eq!(Action::Package(PackageAction::SdImage).build_attr(), "sdImage");
    assert_eq!(Action::Package(PackageAction::InstallationCd).build_attr(), "installationCd");
}

#[test]
fn attr_paths() {
    assert_eq!(
        Action::Upload { action: Some(UploadAction::Switch) }.attr_path("h1"),
        "buildSystems.toplevel.h1"
    );
    assert_eq!(
        Action::Package(PackageAction::SdImage).attr_path("pi"),
        "buildSystems.sdImage.pi"
    );
    assert_eq!(
        Action::Package(PackageAction::InstallationCd).attr_path("pi"),
        "buildSystems.installationCd.pi"
    );
}

#[test]
fn package_out_names() {
    assert_eq!(PackageAction::SdImage.out_name("pi"), "sd-image-pi");
    assert_eq!(PackageAction::InstallationCd.out_name("pi"), "installation-cd-pi");
}

#[test]
fn action_from_subcommand() {
    assert_eq!(Action::from(Subcommand::Upload), Action::Upload { action: None });
    assert_eq!(
        Action::from(Subcommand::Test),
        Action::Upload { action: Some(UploadAction::Test) }
    );
    assert_eq!(
        Action::from(Subcommand::Boot),
        Action::Upload { action: Some(UploadAction::Boot) }
    );
    assert_eq!(
        Action::from(Subcommand::Switch),
        Action::Upload { action: Some(UploadAction::Switch) }
    );
    assert_eq!(Action::from(Subcommand::SdImage), Action::Package(PackageAction::SdImage));
    assert_eq!(
        Action::from(Subcommand::InstallationCd),
        Action::Package(PackageAction::InstallationCd)
    );
}

#[test]
fn settings_action() {
    let settings = BuildSystems {
        fail_fast: false,
        disable_rollback: false,
        privileged_build: false,
        subcommand: Subcommand::Boot,
    };
    assert_eq!(settings.action(), Action::Upload { action: Some(UploadAction::Boot) });
}
