//! The command lines of a deployment, word for word.

use crate::action::UploadAction;
use crate::command::{Command, CommandView};
use crate::text::{decimal, spec_decimal, texts};
use vstd::prelude::*;
use vstd::string::StringExecFns;

verus! {

/// Builds the system of a host and leaves a link to it at `out_link`.
pub open spec fn spec_system_build(
    out_link: Seq<char>,
    attr: Seq<char>,
    extra: Seq<Seq<char>>,
    privileged: bool,
) -> CommandView {
    let c = CommandView::new("nix"@).arg("build"@).arg("--impure"@).arg("--json"@).arg(
        "--no-link"@,
    ).arg("--option"@).arg("log-lines"@).arg("200"@).comparg("--out-link"@, out_link).arg(
        attr,
    ).args(extra);
    if privileged {
        c.sudo()
    } else {
        c
    }
}

/// Builds a bootable medium and leaves a link to it at `out_link`. Unless the
/// run is to fail fast, the build keeps going after a failure.
pub open spec fn spec_package_build(
    out_link: Seq<char>,
    attr: Seq<char>,
    extra: Seq<Seq<char>>,
    fail_fast: bool,
    privileged: bool,
) -> CommandView {
    let c = CommandView::new("nix"@).arg("build"@).arg("--impure"@).arg("--no-link"@).comparg(
        "--out-link"@,
        out_link,
    ).arg(attr).args(extra);
    let c = if fail_fast {
        c
    } else {
        c.arg("--keep-going"@)
    };
    if privileged {
        c.sudo()
    } else {
        c
    }
}

/// Copies the closure of `built` to `host`, which fetches what it can from
/// its own caches.
pub open spec fn spec_copy(host: Seq<char>, built: Seq<char>) -> CommandView {
    CommandView::new("nix"@).arg("copy"@).arg("--substitute-on-destination"@).comparg(
        "--to"@,
        "ssh://root@"@ + host,
    ).arg(built)
}

/// Prints the generations of the system profile.
pub open spec fn spec_list_generations() -> CommandView {
    CommandView::new("nix-env"@).comparg("--profile"@, "/nix/var/nix/profiles/system"@).arg(
        "--list-generations"@,
    )
}

/// Points the system profile at `built`.
pub open spec fn spec_set_profile(built: Seq<char>) -> CommandView {
    CommandView::new("nix-env"@).comparg("--profile"@, "/nix/var/nix/profiles/system"@).comparg(
        "--set"@,
        built,
    )
}

/// Runs the activation script of `built`.
pub open spec fn spec_activate(built: Seq<char>, mode: UploadAction) -> CommandView {
    CommandView::new(built + "/bin/switch-to-configuration"@).arg(mode.spec_name())
}

/// The shell script that records generation `id` as the one to go back to.
/// The marker is written under another name and then moved into place, and
/// the move refuses to replace a marker that is already there.
pub open spec fn spec_marker_script(id: u32) -> Seq<char> {
    "mark=$(mktemp -p /etc -t fleet_rollback_marker.XXXXX) && echo -n "@ + spec_decimal(id as nat)
        + " > $mark && mv --no-clobber $mark /etc/fleet_rollback_marker"@
}

/// Records generation `id` as the one to go back to.
pub open spec fn spec_write_marker(id: u32) -> CommandView {
    CommandView::new("sh"@).arg("-c"@).arg(spec_marker_script(id))
}

/// Arms a transient timer that starts the rollback watchdog in three
/// minutes.
pub open spec fn spec_schedule_watchdog() -> CommandView {
    CommandView::new("systemd-run"@).comparg("--on-active"@, "3min"@).comparg(
        "--unit"@,
        "rollback-watchdog-run"@,
    ).arg("systemctl"@).arg("start"@).arg("rollback-watchdog.service"@)
}

/// Starts the rollback watchdog at once.
pub open spec fn spec_trigger_rollback() -> CommandView {
    CommandView::new("systemctl"@).arg("start"@).arg("rollback-watchdog.service"@)
}

/// Removes the marker, so that the watchdog finds nothing to go back to.
pub open spec fn spec_remove_marker() -> CommandView {
    CommandView::new("rm"@).arg("-f"@).arg("/etc/fleet_rollback_marker"@)
}

/// Stops the timer of the watchdog.
pub open spec fn spec_stop_timer() -> CommandView {
    CommandView::new("systemctl"@).arg("stop"@).arg("rollback-watchdog.timer"@)
}

/// Stops the transient timer that `spec_schedule_watchdog` armed.
pub open spec fn spec_stop_run_timer() -> CommandView {
    CommandView::new("systemctl"@).arg("stop"@).arg("rollback-watchdog-run.timer"@)
}

/// Fetches the file at `path` on this machine into the store.
pub open spec fn spec_prefetch_file(extra: Seq<Seq<char>>, path: Seq<char>) -> CommandView {
    CommandView::new("nix"@).args(extra).arg("store"@).arg("prefetch-file"@).arg(
        "file://"@ + path,
    )
}

pub fn prefetch_file(extra: &Vec<String>, path: &str) -> (r: Command)
    ensures
        r@ == spec_prefetch_file(texts(extra@), path@),
{
    let url = "file://".to_owned().concat(path);
    Command::new("nix").args(extra).arg("store").arg("prefetch-file").arg(url.as_str())
}

pub fn system_build(out_link: &str, attr: &str, extra: &Vec<String>, privileged: bool) -> (r:
    Command)
    ensures
        r@ == spec_system_build(out_link@, attr@, texts(extra@), privileged),
{
    let c = Command::new("nix").arg("build").arg("--impure").arg("--json").arg("--no-link").arg(
        "--option",
    ).arg("log-lines").arg("200").comparg("--out-link", out_link).arg(attr).args(extra);
    if privileged {
        c.sudo()
    } else {
        c
    }
}

pub fn package_build(
    out_link: &str,
    attr: &str,
    extra: &Vec<String>,
    fail_fast: bool,
    privileged: bool,
) -> (r: Command)
    ensures
        r@ == spec_package_build(out_link@, attr@, texts(extra@), fail_fast, privileged),
{
    let c = Command::new("nix").arg("build").arg("--impure").arg("--no-link").comparg(
        "--out-link",
        out_link,
    ).arg(attr).args(extra);
    let c = if fail_fast {
        c
    } else {
        c.arg("--keep-going")
    };
    if privileged {
        c.sudo()
    } else {
        c
    }
}

pub fn copy(host: &str, built: &str) -> (r: Command)
    ensures
        r@ == spec_copy(host@, built@),
{
    let to = "ssh://root@".to_owned().concat(host);
    Command::new("nix").arg("copy").arg("--substitute-on-destination").comparg(
        "--to",
        to.as_str(),
    ).arg(built)
}

pub fn list_generations() -> (r: Command)
    ensures
        r@ == spec_list_generations(),
{
    Command::new("nix-env").comparg("--profile", "/nix/var/nix/profiles/system").arg(
        "--list-generations",
    )
}

pub fn set_profile(built: &str) -> (r: Command)
    ensures
        r@ == spec_set_profile(built@),
{
    Command::new("nix-env").comparg("--profile", "/nix/var/nix/profiles/system").comparg(
        "--set",
        built,
    )
}

pub fn activate(built: &str, mode: UploadAction) -> (r: Command)
    ensures
        r@ == spec_activate(built@, mode),
{
    let script = built.to_owned().concat("/bin/switch-to-configuration");
    Command::new(script.as_str()).arg(mode.name())
}

pub fn write_marker(id: u32) -> (r: Command)
    ensures
        r@ == spec_write_marker(id),
{
    let number = decimal(id);
    let script = "mark=$(mktemp -p /etc -t fleet_rollback_marker.XXXXX) && echo -n ".to_owned().concat(
        number.as_str(),
    ).concat(" > $mark && mv --no-clobber $mark /etc/fleet_rollback_marker");
    Command::new("sh").arg("-c").arg(script.as_str())
}

pub fn schedule_watchdog() -> (r: Command)
    ensures
        r@ == spec_schedule_watchdog(),
{
    Command::new("systemd-run").comparg("--on-active", "3min").comparg(
        "--unit",
        "rollback-watchdog-run",
    ).arg("systemctl").arg("start").arg("rollback-watchdog.service")
}

pub fn trigger_rollback() -> (r: Command)
    ensures
        r@ == spec_trigger_rollback(),
{
    Command::new("systemctl").arg("start").arg("rollback-watchdog.service")
}

pub fn remove_marker() -> (r: Command)
    ensures
        r@ == spec_remove_marker(),
{
    Command::new("rm").arg("-f").arg("/etc/fleet_rollback_marker")
}

pub fn stop_timer() -> (r: Command)
    ensures
        r@ == spec_stop_timer(),
{
    Command::new("systemctl").arg("stop").arg("rollback-watchdog.timer")
}

pub fn stop_run_timer() -> (r: Command)
    ensures
        r@ == spec_stop_run_timer(),
{
    Command::new("systemctl").arg("stop").arg("rollback-watchdog-run.timer")
}

} // verus!
