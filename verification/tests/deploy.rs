use fleet::{
    Abort, Action, BuildSystems, Command, Control, Deploy, Event, Phase, Policy, Reply, Request,
    Subcommand, UploadAction,
};
use std::mem::discriminant;

const LISTING: &str = "41 2023-12-31 11:00:00\n42 2024-01-01 12:00:00   (current)\n";
const MARKER_42: &str = "sh -c mark=$(mktemp -p /etc -t fleet_rollback_marker.XXXXX) && echo -n 42 > $mark && mv --no-clobber $mark /etc/fleet_rollback_marker";

fn settings(subcommand: Subcommand, disable_rollback: bool) -> BuildSystems {
    BuildSystems { fail_fast: false, disable_rollback, privileged_build: false, subcommand }
}

fn deployment(subcommand: Subcommand, host: &str, local: bool, disable_rollback: bool) -> Deploy {
    Deploy::new(&settings(subcommand, disable_rollback), host, local, "ATTR", &Vec::new())
}

fn ok(output: &str) -> Reply {
    Reply::Success { output: output.to_string() }
}

fn is_in(phase: Phase, phases: &[Phase]) -> bool {
    phases.iter().any(|p| discriminant(p) == discriminant(&phase))
}

fn answer(phase: Phase, failing: &[Phase], listing: &str) -> Reply {
    if is_in(phase, failing) {
        return Reply::Failure;
    }
    match phase {
        Phase::Prepare => ok("/tmp/fleet-out"),
        Phase::Canonicalize => ok("/nix/store/abc-system"),
        Phase::ListGenerations => ok(listing),
        _ => ok(""),
    }
}

fn drive(mut deploy: Deploy, failing: &[Phase], listing: &str) -> (Deploy, Vec<Phase>, Vec<Request>) {
    let mut phases = Vec::new();
    let mut requests = Vec::new();
    while let Some(request) = deploy.request() {
        let phase = deploy.phase();
        assert!(!phase.is_terminal());
        phases.push(phase);
        requests.push(request);
        deploy = deploy.advance(answer(phase, failing, listing));
        assert!(phases.len() <= 18);
    }
    assert!(deploy.phase().is_terminal());
    assert!(deploy.outcome().is_some());
    (deploy, phases, requests)
}

fn line(c: &Command) -> String {
    let mut words = vec![c.program.clone()];
    words.extend(c.args.iter().cloned());
    words.join(" ")
}

fn describe(request: &Request) -> String {
    match request {
        Request::TempDir => "tempdir".to_string(),
        Request::OutputPath { name } => format!("output {}", name),
        Request::Canonicalize { path } => format!("canonicalize {}", path),
        Request::Local { command } => {
            format!("local{}: {}", if command.elevated { " sudo" } else { "" }, line(command))
        }
        Request::Remote { host, command, elevate, capture } => format!(
            "{}{}{}: {}",
            host,
            if *elevate { " sudo" } else { "" },
            if *capture { " capture" } else { "" },
            line(command)
        ),
        Request::Sleep { millis } => format!("sleep {}", millis),
    }
}

fn described(requests: &[Request]) -> Vec<String> {
    requests.iter().map(describe).collect()
}

fn count(phases: &[Phase], phase: Phase) -> usize {
    phases.iter().filter(|p| discriminant(*p) == discriminant(&phase)).count()
}

#[test]
fn switch_on_a_remote_host_runs_every_step() {
    let (end, phases, requests) =
        drive(deployment(Subcommand::Switch, "h1", false, false), &[], LISTING);
    assert_eq!(described(&requests), vec![
        "tempdir",
        "local: nix build --impure --json --no-link --option log-lines 200 --out-link /tmp/fleet-out ATTR",
        "canonicalize /tmp/fleet-out",
        "local: nix copy --substitute-on-destination --to ssh://root@h1 /nix/store/abc-system",
        "h1 sudo capture: nix-env --profile /nix/var/nix/profiles/system --list-generations",
        &format!("h1 sudo: {}", MARKER_42),
        "h1 sudo: systemd-run --on-active 3min --unit rollback-watchdog-run systemctl start rollback-watchdog.service",
        "h1 sudo: nix-env --profile /nix/var/nix/profiles/system --set /nix/store/abc-system",
        "h1 sudo: /nix/store/abc-system/bin/switch-to-configuration switch",
        "h1 sudo: rm -f /etc/fleet_rollback_marker",
        "h1 sudo: systemctl stop rollback-watchdog.timer",
        "h1 sudo: systemctl stop rollback-watchdog-run.timer",
    ]);
    assert_eq!(phases, vec![
        Phase::Prepare,
        Phase::Build,
        Phase::Canonicalize,
        Phase::Copy,
        Phase::ListGenerations,
        Phase::WriteMarker { id: 42 },
        Phase::ScheduleWatchdog,
        Phase::SetProfile,
        Phase::Activate { mode: UploadAction::Switch },
        Phase::RemoveMarker,
        Phase::StopTimer,
        Phase::StopRunTimer,
    ]);
    assert_eq!(end.outcome(), Some(Ok(())));
    assert!(!end.failed());
    assert_eq!(end.host(), "h1");
}

#[test]
fn failed_activation_of_a_test_triggers_the_rollback() {
    let listing = "17 2024-01-01 12:00:00 (current)";
    let (end, phases, requests) = drive(
        deployment(Subcommand::Test, "h2", false, false),
        &[Phase::Activate { mode: UploadAction::Test }],
        listing,
    );
    assert_eq!(phases, vec![
        Phase::Prepare,
        Phase::Build,
        Phase::Canonicalize,
        Phase::Copy,
        Phase::ListGenerations,
        Phase::WriteMarker { id: 17 },
        Phase::ScheduleWatchdog,
        Phase::Activate { mode: UploadAction::Test },
        Phase::TriggerRollback,
        Phase::StopTimer,
        Phase::StopRunTimer,
    ]);
    let lines = described(&requests);
    assert_eq!(lines[7], "h2 sudo: /nix/store/abc-system/bin/switch-to-configuration test");
    assert_eq!(lines[8], "h2 sudo: systemctl start rollback-watchdog.service");
    assert!(lines[5].contains("echo -n 17 > $mark"));
    assert!(lines.iter().all(|l| !l.contains("--set")));
    assert_eq!(end.outcome(), Some(Ok(())));
    assert!(end.failed());
}

#[test]
fn boot_without_rollback_only_sets_the_profile() {
    let (end, phases, requests) =
        drive(deployment(Subcommand::Boot, "h3", false, true), &[], LISTING);
    assert_eq!(phases, vec![
        Phase::Prepare,
        Phase::Build,
        Phase::Canonicalize,
        Phase::Copy,
        Phase::SetProfile
    ]);
    assert_eq!(
        describe(&requests[4]),
        "h3 sudo: nix-env --profile /nix/var/nix/profiles/system --set /nix/store/abc-system"
    );
    assert_eq!(end.outcome(), Some(Ok(())));
}

#[test]
fn upload_alone_builds_and_copies() {
    let (end, phases, requests) =
        drive(deployment(Subcommand::Upload, "h4", false, false), &[], LISTING);
    assert_eq!(phases, vec![Phase::Prepare, Phase::Build, Phase::Canonicalize, Phase::Copy]);
    assert_eq!(
        describe(&requests[3]),
        "local: nix copy --substitute-on-destination --to ssh://root@h4 /nix/store/abc-system"
    );
    assert_eq!(end.outcome(), Some(Ok(())));
}

#[test]
fn switch_on_the_local_host_skips_the_copy() {
    let (end, phases, requests) =
        drive(deployment(Subcommand::Switch, "local", true, false), &[], LISTING);
    assert_eq!(phases, vec![
        Phase::Prepare,
        Phase::Build,
        Phase::Canonicalize,
        Phase::ListGenerations,
        Phase::WriteMarker { id: 42 },
        Phase::ScheduleWatchdog,
        Phase::SetProfile,
        Phase::Activate { mode: UploadAction::Switch },
        Phase::RemoveMarker,
        Phase::StopTimer,
        Phase::StopRunTimer,
    ]);
    assert!(described(&requests).iter().all(|l| !l.contains("nix copy")));
    assert_eq!(
        describe(&requests[3]),
        "local sudo capture: nix-env --profile /nix/var/nix/profiles/system --list-generations"
    );
    assert_eq!(end.outcome(), Some(Ok(())));
}

#[test]
fn copy_is_given_up_after_four_failures() {
    let (end, phases, requests) =
        drive(deployment(Subcommand::Switch, "h6", false, false), &[Phase::Copy], LISTING);
    assert_eq!(phases, vec![
        Phase::Prepare,
        Phase::Build,
        Phase::Canonicalize,
        Phase::Copy,
        Phase::Pause,
        Phase::Copy,
        Phase::Pause,
        Phase::Copy,
        Phase::Pause,
        Phase::Copy,
    ]);
    assert_eq!(count(&phases, Phase::Copy), 4);
    for request in [&requests[4], &requests[6], &requests[8]] {
        assert_eq!(*request, Request::Sleep { millis: 5000 });
    }
    assert_eq!(requests[3], requests[9]);
    assert_eq!(end.outcome(), Some(Err(Abort::Copy)));
    assert!(!end.failed());
    assert!(described(&requests).iter().all(|l| !l.contains("rollback")));
}

#[test]
fn copy_that_succeeds_on_retry_goes_on() {
    let mut deploy = deployment(Subcommand::Upload, "h", false, false);
    deploy = deploy.advance(ok("/tmp/o"));
    deploy = deploy.advance(ok(""));
    deploy = deploy.advance(ok("/nix/store/s"));
    assert_eq!(deploy.phase(), Phase::Copy);
    deploy = deploy.advance(Reply::Failure);
    assert_eq!(deploy.control(), Control { phase: Phase::Pause, failed: false, retries: 1 });
    deploy = deploy.advance(ok(""));
    assert_eq!(deploy.phase(), Phase::Copy);
    deploy = deploy.advance(Reply::Failure);
    deploy = deploy.advance(Reply::Failure);
    assert_eq!(deploy.control(), Control { phase: Phase::Copy, failed: false, retries: 2 });
    deploy = deploy.advance(ok(""));
    assert_eq!(deploy.outcome(), Some(Ok(())));
    assert_eq!(deploy.request(), None);
}

#[test]
fn failed_build_ends_the_deployment() {
    let (end, phases, _) =
        drive(deployment(Subcommand::Switch, "h", false, false), &[Phase::Build], LISTING);
    assert_eq!(phases, vec![Phase::Prepare, Phase::Build]);
    assert_eq!(end.outcome(), Some(Err(Abort::Build)));
    assert!(!end.sd_image_build_failed());
}

#[test]
fn failed_preparation_and_canonicalization_end_the_deployment() {
    let (end, phases, _) =
        drive(deployment(Subcommand::Switch, "h", false, false), &[Phase::Prepare], LISTING);
    assert_eq!(phases, vec![Phase::Prepare]);
    assert_eq!(end.outcome(), Some(Err(Abort::Prepare)));
    let (end, phases, _) =
        drive(deployment(Subcommand::Switch, "h", false, false), &[Phase::Canonicalize], LISTING);
    assert_eq!(phases, vec![Phase::Prepare, Phase::Build, Phase::Canonicalize]);
    assert_eq!(end.outcome(), Some(Err(Abort::Canonicalize)));
}

#[test]
fn ended_deployment_stays_as_it_is() {
    let (end, _, _) =
        drive(deployment(Subcommand::Switch, "h", false, false), &[Phase::Build], LISTING);
    let before = end.control();
    let end = end.advance(ok("x")).advance(Reply::Failure);
    assert_eq!(end.control(), before);
    assert_eq!(end.request(), None);
}

#[test]
fn unusable_listing_latches_and_writes_no_marker() {
    for listing in ["", "garbage", "1 a b (current)\n2 a b (current)", "1 a b\n2 a b"] {
        let (end, phases, _) =
            drive(deployment(Subcommand::Switch, "h", false, false), &[], listing);
        assert_eq!(phases, vec![
            Phase::Prepare,
            Phase::Build,
            Phase::Canonicalize,
            Phase::Copy,
            Phase::ListGenerations,
            Phase::ScheduleWatchdog,
            Phase::TriggerRollback,
            Phase::StopTimer,
            Phase::StopRunTimer,
        ]);
        assert!(end.failed());
        assert_eq!(end.outcome(), Some(Ok(())));
    }
}

#[test]
fn failed_listing_command_latches() {
    let (end, phases, _) = drive(
        deployment(Subcommand::Boot, "h", false, false),
        &[Phase::ListGenerations],
        LISTING,
    );
    assert_eq!(phases, vec![
        Phase::Prepare,
        Phase::Build,
        Phase::Canonicalize,
        Phase::Copy,
        Phase::ListGenerations,
        Phase::TriggerRollback,
        Phase::StopTimer,
    ]);
    assert!(end.failed());
}

#[test]
fn failed_marker_skips_switch_and_activation() {
    let (end, phases, _) = drive(
        deployment(Subcommand::Switch, "h", false, false),
        &[Phase::WriteMarker { id: 0 }],
        LISTING,
    );
    assert_eq!(phases, vec![
        Phase::Prepare,
        Phase::Build,
        Phase::Canonicalize,
        Phase::Copy,
        Phase::ListGenerations,
        Phase::WriteMarker { id: 42 },
        Phase::ScheduleWatchdog,
        Phase::TriggerRollback,
        Phase::StopTimer,
        Phase::StopRunTimer,
    ]);
    assert!(end.failed());
}

#[test]
fn failed_profile_switch_skips_the_activation() {
    let (end, phases, _) = drive(
        deployment(Subcommand::Switch, "h", false, false),
        &[Phase::SetProfile],
        LISTING,
    );
    assert_eq!(count(&phases, Phase::Activate { mode: UploadAction::Switch }), 0);
    assert_eq!(count(&phases, Phase::TriggerRollback), 1);
    assert_eq!(count(&phases, Phase::RemoveMarker), 0);
    assert!(end.failed());
    assert_eq!(end.outcome(), Some(Ok(())));
}

#[test]
fn failures_while_cleaning_up_change_nothing() {
    let (end, phases, _) = drive(
        deployment(Subcommand::Switch, "h", false, false),
        &[Phase::RemoveMarker, Phase::StopTimer, Phase::StopRunTimer],
        LISTING,
    );
    assert_eq!(phases.len(), 12);
    assert_eq!(end.outcome(), Some(Ok(())));
    assert!(!end.failed());
}

#[test]
fn boot_with_rollback_arms_no_run_timer() {
    let (_, phases, _) = drive(deployment(Subcommand::Boot, "h", false, false), &[], LISTING);
    assert_eq!(phases, vec![
        Phase::Prepare,
        Phase::Build,
        Phase::Canonicalize,
        Phase::Copy,
        Phase::ListGenerations,
        Phase::WriteMarker { id: 42 },
        Phase::SetProfile,
        Phase::RemoveMarker,
        Phase::StopTimer,
    ]);
}

#[test]
fn sd_image_is_built_into_the_working_directory() {
    let deploy = Deploy::new(
        &BuildSystems {
            fail_fast: false,
            disable_rollback: false,
            privileged_build: true,
            subcommand: Subcommand::SdImage,
        },
        "pi",
        false,
        "ATTR",
        &vec!["-L".to_string()],
    );
    let (end, phases, requests) = drive(deploy, &[], LISTING);
    assert_eq!(phases, vec![Phase::Prepare, Phase::Build]);
    assert_eq!(described(&requests), vec![
        "output sd-image-pi",
        "local sudo: nix build --impure --no-link --out-link /tmp/fleet-out ATTR -L --keep-going",
    ]);
    assert_eq!(end.outcome(), Some(Ok(())));
}

#[test]
fn installation_cd_with_fail_fast() {
    let deploy = Deploy::new(
        &BuildSystems {
            fail_fast: true,
            disable_rollback: true,
            privileged_build: false,
            subcommand: Subcommand::InstallationCd,
        },
        "pi",
        true,
        "ATTR",
        &Vec::new(),
    );
    let (end, _, requests) = drive(deploy, &[], LISTING);
    assert_eq!(described(&requests), vec![
        "output installation-cd-pi",
        "local: nix build --impure --no-link --out-link /tmp/fleet-out ATTR",
    ]);
    assert_eq!(end.outcome(), Some(Ok(())));
}

#[test]
fn failed_sd_image_build_asks_for_the_hint() {
    let (end, _, _) =
        drive(deployment(Subcommand::SdImage, "pi", false, false), &[Phase::Build], LISTING);
    assert_eq!(end.outcome(), Some(Err(Abort::Build)));
    assert!(end.sd_image_build_failed());
    let (end, _, _) =
        drive(deployment(Subcommand::InstallationCd, "pi", false, false), &[Phase::Build], LISTING);
    assert!(!end.sd_image_build_failed());
    let (end, _, _) = drive(deployment(Subcommand::SdImage, "pi", false, false), &[], LISTING);
    assert!(!end.sd_image_build_failed());
}

#[test]
fn privileged_build_elevates_only_the_build() {
    let deploy = Deploy::new(
        &BuildSystems {
            fail_fast: false,
            disable_rollback: false,
            privileged_build: true,
            subcommand: Subcommand::Upload,
        },
        "h",
        false,
        "ATTR",
        &vec!["--show-trace".to_string()],
    );
    let (_, _, requests) = drive(deploy, &[], LISTING);
    assert_eq!(described(&requests), vec![
        "tempdir",
        "local sudo: nix build --impure --json --no-link --option log-lines 200 --out-link /tmp/fleet-out ATTR --show-trace",
        "canonicalize /tmp/fleet-out",
        "local: nix copy --substitute-on-destination --to ssh://root@h /nix/store/abc-system",
    ]);
}

#[test]
fn event_of_a_reply() {
    let deploy = deployment(Subcommand::Switch, "h", false, false);
    assert_eq!(deploy.event(&ok(LISTING)), Event::Success);
    assert_eq!(deploy.event(&Reply::Failure), Event::Failure);
    let deploy = deploy.advance(ok("/o")).advance(ok("")).advance(ok("/s")).advance(ok(""));
    assert_eq!(deploy.phase(), Phase::ListGenerations);
    assert_eq!(deploy.event(&ok(LISTING)), Event::Current { id: 42 });
    assert_eq!(deploy.event(&ok("nothing")), Event::Failure);
    assert_eq!(deploy.event(&Reply::Failure), Event::Failure);
}

#[test]
fn step_follows_the_policy() {
    let policy = Policy {
        action: Action::Upload { action: Some(UploadAction::Test) },
        local: true,
        disable_rollback: false,
    };
    assert_eq!(policy.mode(), Some(UploadAction::Test));
    assert!(policy.armed());
    let c = fleet::deploy::start();
    assert_eq!(c, Control { phase: Phase::Prepare, failed: false, retries: 0 });
    let c = fleet::deploy::step(policy, c, Event::Success);
    assert_eq!(c.phase, Phase::Build);
    let c = fleet::deploy::step(policy, c, Event::Success);
    assert_eq!(c.phase, Phase::Canonicalize);
    let c = fleet::deploy::step(policy, c, Event::Success);
    assert_eq!(c.phase, Phase::ListGenerations);
    let c = fleet::deploy::step(policy, c, Event::Current { id: 5 });
    assert_eq!(c.phase, Phase::WriteMarker { id: 5 });
    let c = fleet::deploy::step(policy, c, Event::Failure);
    assert_eq!(c, Control { phase: Phase::ScheduleWatchdog, failed: true, retries: 0 });
    let c = fleet::deploy::step(policy, c, Event::Success);
    assert_eq!(c, Control { phase: Phase::TriggerRollback, failed: true, retries: 0 });
    let unarmed = Policy { disable_rollback: true, ..policy };
    assert!(!unarmed.armed());
    assert!(!Policy { action: Action::Upload { action: None }, ..policy }.armed());
}

/// Every run, over all settings and all choices of steps that fail, keeps
/// to the order that the settings call for.
#[test]
fn every_run_keeps_the_rules() {
    let fallible = [
        Phase::Build,
        Phase::Copy,
        Phase::ListGenerations,
        Phase::WriteMarker { id: 0 },
        Phase::ScheduleWatchdog,
        Phase::SetProfile,
        Phase::Activate { mode: UploadAction::Test },
        Phase::RemoveMarker,
        Phase::TriggerRollback,
        Phase::StopTimer,
    ];
    let subcommands = [
        Subcommand::Upload,
        Subcommand::Test,
        Subcommand::Boot,
        Subcommand::Switch,
        Subcommand::SdImage,
        Subcommand::InstallationCd,
    ];
    let mut runs = 0;
    for subcommand in subcommands {
        for local in [false, true] {
            for disable_rollback in [false, true] {
                for chosen in 0u32..(1 << fallible.len()) {
                    let failing: Vec<Phase> = fallible
                        .iter()
                        .enumerate()
                        .filter(|(i, _)| chosen & (1 << i) != 0)
                        .map(|(_, p)| *p)
                        .collect();
                    let deploy = deployment(subcommand, "h", local, disable_rollback);
                    let policy = deploy.policy();
                    let (end, phases, requests) = drive(deploy, &failing, LISTING);
                    let mode = policy.mode();
                    let armed = policy.armed();
                    runs += 1;

                    // The build comes second, after the place for its result.
                    assert_eq!(phases[0], Phase::Prepare);
                    assert_eq!(phases[1], Phase::Build);
                    let on_host = phases.iter().position(|p| {
                        !is_in(*p, &[
                            Phase::Prepare,
                            Phase::Build,
                            Phase::Canonicalize,
                            Phase::Copy,
                            Phase::Pause,
                        ])
                    });
                    if let Some(first) = on_host {
                        assert!(!is_in(Phase::Build, &failing));
                        assert!(local || !is_in(Phase::Copy, &failing));
                        assert!(local || phases[..first].contains(&Phase::Copy));
                    }
                    // Profile and activation only where the mode calls for them.
                    if phases.contains(&Phase::SetProfile) {
                        assert!(matches!(mode, Some(UploadAction::Boot | UploadAction::Switch)));
                    }
                    if let Some(Phase::Activate { mode: word }) =
                        phases.iter().find(|p| matches!(p, Phase::Activate { .. }))
                    {
                        assert!(matches!(mode, Some(UploadAction::Test | UploadAction::Switch)));
                        assert_eq!(mode, Some(*word));
                    }
                    // The rollback is settled exactly once where it was prepared.
                    let settled = count(&phases, Phase::TriggerRollback)
                        + count(&phases, Phase::RemoveMarker);
                    let prepared = phases.contains(&Phase::ListGenerations);
                    assert_eq!(settled, if prepared { 1 } else { 0 });
                    assert_eq!(prepared, armed && end.outcome() == Some(Ok(())));
                    assert_eq!(count(&phases, Phase::TriggerRollback) == 1, prepared && end.failed());
                    // Without rollback nothing touches marker or watchdog.
                    if disable_rollback {
                        for l in described(&requests) {
                            assert!(!l.contains("rollback"), "{}", l);
                            assert!(!l.contains("list-generations"), "{}", l);
                        }
                    }
                    // Nothing is copied to this machine, and no more than four times.
                    if local {
                        assert_eq!(count(&phases, Phase::Copy), 0);
                    }
                    assert!(count(&phases, Phase::Copy) <= 4);
                    for (i, p) in phases.iter().enumerate() {
                        if *p == Phase::Copy && phases[..i].contains(&Phase::Copy) {
                            assert_eq!(phases[i - 1], Phase::Pause);
                            assert_eq!(requests[i - 1], Request::Sleep { millis: 5000 });
                        }
                    }
                    // Success is owed unless a step before the host gave up.
                    let aborted = is_in(Phase::Build, &failing)
                        || (policy.action != Action::Package(fleet::PackageAction::SdImage)
                            && policy.action
                                != Action::Package(fleet::PackageAction::InstallationCd)
                            && !local
                            && is_in(Phase::Copy, &failing));
                    assert_eq!(end.outcome() != Some(Ok(())), aborted);
                }
            }
        }
    }
    assert_eq!(runs, 6 * 2 * 2 * 1024);
}
