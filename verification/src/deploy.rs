//! The deployment of one host, as a state machine.
//!
//! A deployment is a fixed order of steps, of which a host's settings strike
//! some out. Until the system has been built and copied, a failure ends the
//! deployment. From then on a failure is only noted: the steps that would
//! take the host further are left out, and those that clean up still run, so
//! that a host is never left halfway without its way back.
//!
//! The machine performs nothing itself. It names the next request, and is
//! told how that went.

use crate::action::{Action, BuildSystems, PackageAction, UploadAction};
use crate::command::{Command, CommandView};
use crate::generation::{get_current_generation, spec_current_generation};
use crate::invocation;
use crate::text::{copy_texts, texts};
use vstd::prelude::*;

verus! {

/// The step at which a deployment gave up.
#[derive(Clone, Copy, Debug, PartialEq, Eq, Structural)]
pub enum Abort {
    /// No place for the result of the build could be had.
    Prepare,
    /// The build failed.
    Build,
    /// The result of the build could not be found.
    Canonicalize,
    /// The copy to the host failed, and so did every retry.
    Copy,
}

/// The step that a deployment is about to take, or how it ended.
#[derive(Clone, Copy, Debug, PartialEq, Eq, Structural)]
pub enum Phase {
    /// Find a place for the result of the build.
    Prepare,
    /// Build.
    Build,
    /// Find where the result of the build really lies.
    Canonicalize,
    /// Copy the system to the host.
    Copy,
    /// Wait before the copy is tried again.
    Pause,
    /// Ask the host for its generations.
    ListGenerations,
    /// Record on the host that generation `id` is the one to go back to.
    WriteMarker { id: u32 },
    /// Arm the timer that starts the watchdog if nothing else does.
    ScheduleWatchdog,
    /// Point the system profile at the new system.
    SetProfile,
    /// Run the activation script of the new system.
    Activate { mode: UploadAction },
    /// Start the watchdog, which takes the host back.
    TriggerRollback,
    /// Remove the marker, which makes the deployment final.
    RemoveMarker,
    /// Stop the timer of the watchdog.
    StopTimer,
    /// Stop the timer that `ScheduleWatchdog` armed.
    StopRunTimer,
    /// Every step that was due has been taken.
    Done,
    /// The deployment gave up before it touched the host.
    Failed { at: Abort },
}

impl Phase {
    /// Whether nothing remains to be done.
    pub open spec fn spec_is_terminal(&self) -> bool {
        *self is Done || *self is Failed
    }

    #[verifier::when_used_as_spec(spec_is_terminal)]
    pub fn is_terminal(&self) -> (r: bool)
        ensures
            r == self.spec_is_terminal(),
    {
        match self {
            Phase::Done | Phase::Failed { .. } => true,
            _ => false,
        }
    }
}

/// What decides which steps a deployment takes.
#[derive(Clone, Copy, Debug, PartialEq, Eq, Structural)]
pub struct Policy {
    /// What the run does for each host.
    pub action: Action,
    /// Whether the host is the machine that the run is started on.
    pub local: bool,
    /// Whether the host is left without a way back.
    pub disable_rollback: bool,
}

impl Policy {
    /// The way the system is brought into use, if it is at all.
    pub open spec fn spec_mode(&self) -> Option<UploadAction> {
        self.action.mode()
    }

    /// Whether the deployment prepares a rollback before it changes the host.
    pub open spec fn spec_armed(&self) -> bool {
        self.spec_mode() is Some && !self.disable_rollback
    }

    #[verifier::when_used_as_spec(spec_mode)]
    pub fn mode(&self) -> (r: Option<UploadAction>)
        ensures
            r == self.spec_mode(),
    {
        match self.action {
            Action::Upload { action } => action,
            Action::Package(_) => None,
        }
    }

    #[verifier::when_used_as_spec(spec_armed)]
    pub fn armed(&self) -> (r: bool)
        ensures
            r == self.spec_armed(),
    {
        self.mode().is_some() && !self.disable_rollback
    }
}

/// How a request went, as far as the order of steps depends on it.
#[derive(Clone, Copy, Debug, PartialEq, Eq, Structural)]
pub enum Event {
    /// The request failed, or its answer was of no use.
    Failure,
    /// The request succeeded.
    Success,
    /// The host named generation `id` as the one in use.
    Current { id: u32 },
}

/// Where a deployment stands.
#[derive(Clone, Copy, Debug, PartialEq, Eq, Structural)]
pub struct Control {
    pub phase: Phase,
    /// Whether a step on the host has failed. Once set, it stays set.
    pub failed: bool,
    /// How many times the copy has failed.
    pub retries: u8,
}

/// How many times a failed copy is tried again.
pub const COPY_RETRIES: u8 = 3;

/// How long to wait before a failed copy is tried again, in milliseconds.
pub const COPY_PAUSE_MILLIS: u64 = 5000;

/// What follows the last step of the rollback that is due in any case.
pub open spec fn spec_after_stop_timer(policy: Policy) -> Phase {
    match policy.spec_mode() {
        Some(m) => if m.spec_should_schedule_rollback_run() {
            Phase::StopRunTimer
        } else {
            Phase::Done
        },
        None => Phase::Done,
    }
}

/// What follows the activation, or stands in for it.
pub open spec fn spec_after_activate(policy: Policy, failed: bool) -> Phase {
    if policy.spec_armed() {
        if failed {
            Phase::TriggerRollback
        } else {
            Phase::RemoveMarker
        }
    } else {
        Phase::Done
    }
}

/// What follows the switch of the profile, or stands in for it.
pub open spec fn spec_after_switch(policy: Policy, failed: bool) -> Phase {
    match policy.spec_mode() {
        Some(m) => if m.spec_should_activate() && !failed {
            Phase::Activate { mode: m }
        } else {
            spec_after_activate(policy, failed)
        },
        None => spec_after_activate(policy, failed),
    }
}

/// What follows the preparation of the rollback, or stands in for it.
pub open spec fn spec_after_arm(policy: Policy, failed: bool) -> Phase {
    match policy.spec_mode() {
        Some(m) => if m.spec_should_switch_profile() && !failed {
            Phase::SetProfile
        } else {
            spec_after_switch(policy, failed)
        },
        None => spec_after_switch(policy, failed),
    }
}

/// What follows the writing of the marker, or stands in for it.
pub open spec fn spec_after_marker(policy: Policy, failed: bool) -> Phase {
    match policy.spec_mode() {
        Some(m) => if m.spec_should_schedule_rollback_run() {
            Phase::ScheduleWatchdog
        } else {
            spec_after_arm(policy, failed)
        },
        None => spec_after_arm(policy, failed),
    }
}

/// What follows the copy, or stands in for it.
pub open spec fn spec_after_copy(policy: Policy) -> Phase {
    if policy.spec_mode() is None {
        Phase::Done
    } else if policy.disable_rollback {
        spec_after_arm(policy, false)
    } else {
        Phase::ListGenerations
    }
}

/// What follows the build of a system.
pub open spec fn spec_after_build(policy: Policy) -> Phase {
    if policy.local {
        spec_after_copy(policy)
    } else {
        Phase::Copy
    }
}

/// Where a deployment stands before its first step.
pub open spec fn spec_start() -> Control {
    Control { phase: Phase::Prepare, failed: false, retries: 0 }
}

/// Where a deployment stands once the step it was about to take has gone as
/// `event` says.
///
/// Before the host is touched a failure ends the deployment, but for the
/// copy, which is tried again up to `COPY_RETRIES` times. Later failures set
/// `failed`, which strikes out the steps that would take the host further:
/// the switch of the profile and the activation. Of the two steps that
/// settle the rollback, the start of the watchdog is taken if `failed` is
/// set and the removal of the marker if not. A listing that names no current
/// generation counts as a failure, and no marker is written then.
pub open spec fn spec_step(policy: Policy, c: Control, event: Event) -> Control {
    let ok = !(event is Failure);
    let failed = c.failed || !ok;
    match c.phase {
        Phase::Prepare => if ok {
            Control { phase: Phase::Build, ..c }
        } else {
            Control { phase: Phase::Failed { at: Abort::Prepare }, ..c }
        },
        Phase::Build => if !ok {
            Control { phase: Phase::Failed { at: Abort::Build }, ..c }
        } else if policy.action is Upload {
            Control { phase: Phase::Canonicalize, ..c }
        } else {
            Control { phase: Phase::Done, ..c }
        },
        Phase::Canonicalize => if ok {
            Control { phase: spec_after_build(policy), ..c }
        } else {
            Control { phase: Phase::Failed { at: Abort::Canonicalize }, ..c }
        },
        Phase::Copy => if ok {
            Control { phase: spec_after_copy(policy), ..c }
        } else if c.retries < COPY_RETRIES {
            Control { phase: Phase::Pause, retries: (c.retries + 1) as u8, ..c }
        } else {
            Control { phase: Phase::Failed { at: Abort::Copy }, ..c }
        },
        Phase::Pause => Control { phase: Phase::Copy, ..c },
        Phase::ListGenerations => match event {
            Event::Current { id } => Control { phase: Phase::WriteMarker { id }, ..c },
            _ => Control { phase: spec_after_marker(policy, true), failed: true, ..c },
        },
        Phase::WriteMarker { .. } => Control { phase: spec_after_marker(policy, failed), failed, ..c },
        Phase::ScheduleWatchdog => Control { phase: spec_after_arm(policy, failed), failed, ..c },
        Phase::SetProfile => Control { phase: spec_after_switch(policy, failed), failed, ..c },
        Phase::Activate { .. } => Control { phase: spec_after_activate(policy, failed), failed, ..c },
        Phase::TriggerRollback => Control { phase: Phase::StopTimer, ..c },
        Phase::RemoveMarker => Control { phase: Phase::StopTimer, ..c },
        Phase::StopTimer => Control { phase: spec_after_stop_timer(policy), ..c },
        Phase::StopRunTimer => Control { phase: Phase::Done, ..c },
        Phase::Done => c,
        Phase::Failed { .. } => c,
    }
}

fn after_stop_timer(policy: Policy) -> (r: Phase)
    ensures
        r == spec_after_stop_timer(policy),
{
    match policy.mode() {
        Some(m) => if m.should_schedule_rollback_run() {
            Phase::StopRunTimer
        } else {
            Phase::Done
        },
        None => Phase::Done,
    }
}

fn after_activate(policy: Policy, failed: bool) -> (r: Phase)
    ensures
        r == spec_after_activate(policy, failed),
{
    if policy.armed() {
        if failed {
            Phase::TriggerRollback
        } else {
            Phase::RemoveMarker
        }
    } else {
        Phase::Done
    }
}

fn after_switch(policy: Policy, failed: bool) -> (r: Phase)
    ensures
        r == spec_after_switch(policy, failed),
{
    match policy.mode() {
        Some(m) => if m.should_activate() && !failed {
            Phase::Activate { mode: m }
        } else {
            after_activate(policy, failed)
        },
        None => after_activate(policy, failed),
    }
}

fn after_arm(policy: Policy, failed: bool) -> (r: Phase)
    ensures
        r == spec_after_arm(policy, failed),
{
    match policy.mode() {
        Some(m) => if m.should_switch_profile() && !failed {
            Phase::SetProfile
        } else {
            after_switch(policy, failed)
        },
        None => after_switch(policy, failed),
    }
}

fn after_marker(policy: Policy, failed: bool) -> (r: Phase)
    ensures
        r == spec_after_marker(policy, failed),
{
    match policy.mode() {
        Some(m) => if m.should_schedule_rollback_run() {
            Phase::ScheduleWatchdog
        } else {
            after_arm(policy, failed)
        },
        None => after_arm(policy, failed),
    }
}

fn after_copy(policy: Policy) -> (r: Phase)
    ensures
        r == spec_after_copy(policy),
{
    if policy.mode().is_none() {
        Phase::Done
    } else if policy.disable_rollback {
        after_arm(policy, false)
    } else {
        Phase::ListGenerations
    }
}

fn after_build(policy: Policy) -> (r: Phase)
    ensures
        r == spec_after_build(policy),
{
    if policy.local {
        after_copy(policy)
    } else {
        Phase::Copy
    }
}

/// Where a deployment stands before its first step.
pub fn start() -> (r: Control)
    ensures
        r == spec_start(),
{
    Control { phase: Phase::Prepare, failed: false, retries: 0 }
}

/// Takes a deployment one step further: from where it stands and how its
/// request went to where it stands next.
pub fn step(policy: Policy, c: Control, event: Event) -> (r: Control)
    ensures
        r == spec_step(policy, c, event),
{
    let ok = match event {
        Event::Failure => false,
        _ => true,
    };
    let failed = c.failed || !ok;
    match c.phase {
        Phase::Prepare => if ok {
            Control { phase: Phase::Build, failed: c.failed, retries: c.retries }
        } else {
            Control { phase: Phase::Failed { at: Abort::Prepare }, failed: c.failed, retries: c.retries }
        },
        Phase::Build => if !ok {
            Control { phase: Phase::Failed { at: Abort::Build }, failed: c.failed, retries: c.retries }
        } else {
            match policy.action {
                Action::Upload { .. } => Control {
                    phase: Phase::Canonicalize,
                    failed: c.failed,
                    retries: c.retries,
                },
                Action::Package(_) => Control {
                    phase: Phase::Done,
                    failed: c.failed,
                    retries: c.retries,
                },
            }
        },
        Phase::Canonicalize => if ok {
            Control { phase: after_build(policy), failed: c.failed, retries: c.retries }
        } else {
            Control {
                phase: Phase::Failed { at: Abort::Canonicalize },
                failed: c.failed,
                retries: c.retries,
            }
        },
        Phase::Copy => if ok {
            Control { phase: after_copy(policy), failed: c.failed, retries: c.retries }
        } else if c.retries < COPY_RETRIES {
            Control { phase: Phase::Pause, failed: c.failed, retries: c.retries + 1 }
        } else {
            Control { phase: Phase::Failed { at: Abort::Copy }, failed: c.failed, retries: c.retries }
        },
        Phase::Pause => Control { phase: Phase::Copy, failed: c.failed, retries: c.retries },
        Phase::ListGenerations => match event {
            Event::Current { id } => Control {
                phase: Phase::WriteMarker { id },
                failed: c.failed,
                retries: c.retries,
            },
            _ => Control { phase: after_marker(policy, true), failed: true, retries: c.retries },
        },
        Phase::WriteMarker { .. } => Control {
            phase: after_marker(policy, failed),
            failed,
            retries: c.retries,
        },
        Phase::ScheduleWatchdog => Control {
            phase: after_arm(policy, failed),
            failed,
            retries: c.retries,
        },
        Phase::SetProfile => Control {
            phase: after_switch(policy, failed),
            failed,
            retries: c.retries,
        },
        Phase::Activate { .. } => Control {
            phase: after_activate(policy, failed),
            failed,
            retries: c.retries,
        },
        Phase::TriggerRollback => Control {
            phase: Phase::StopTimer,
            failed: c.failed,
            retries: c.retries,
        },
        Phase::RemoveMarker => Control {
            phase: Phase::StopTimer,
            failed: c.failed,
            retries: c.retries,
        },
        Phase::StopTimer => Control {
            phase: after_stop_timer(policy),
            failed: c.failed,
            retries: c.retries,
        },
        Phase::StopRunTimer => Control { phase: Phase::Done, failed: c.failed, retries: c.retries },
        Phase::Done => c,
        Phase::Failed { .. } => c,
    }
}

/// What a deployment asks its driver to do.
#[derive(Clone, Debug, PartialEq, Eq)]
pub enum Request {
    /// Make a fresh temporary directory, and answer with its path.
    TempDir,
    /// Answer with the path of `name` in the directory the run was started
    /// from.
    OutputPath { name: String },
    /// Answer with the canonical form of `path`.
    Canonicalize { path: String },
    /// Run `command` on this machine.
    Local { command: Command },
    /// Have the executor run `command` on `host`, with elevated privileges
    /// if `elevate` is set. With `capture`, answer with what the command
    /// printed.
    Remote { host: String, command: Command, elevate: bool, capture: bool },
    /// Wait for `millis` milliseconds.
    Sleep { millis: u64 },
}

/// A request as plain values.
pub enum RequestView {
    TempDir,
    OutputPath { name: Seq<char> },
    Canonicalize { path: Seq<char> },
    Local { command: CommandView },
    Remote { host: Seq<char>, command: CommandView, elevate: bool, capture: bool },
    Sleep { millis: u64 },
}

impl View for Request {
    type V = RequestView;

    open spec fn view(&self) -> RequestView {
        match *self {
            Request::TempDir => RequestView::TempDir,
            Request::OutputPath { name } => RequestView::OutputPath { name: name@ },
            Request::Canonicalize { path } => RequestView::Canonicalize { path: path@ },
            Request::Local { command } => RequestView::Local { command: command@ },
            Request::Remote { host, command, elevate, capture } => RequestView::Remote {
                host: host@,
                command: command@,
                elevate,
                capture,
            },
            Request::Sleep { millis } => RequestView::Sleep { millis },
        }
    }
}

/// The request that `r` holds, as plain values.
pub open spec fn request_view(r: Option<Request>) -> Option<RequestView> {
    match r {
        Some(q) => Some(q@),
        None => None,
    }
}

/// How a request went.
#[derive(Clone, Debug, PartialEq, Eq)]
pub enum Reply {
    /// It succeeded. `output` holds the answer, where one was asked for.
    Success { output: String },
    /// It failed.
    Failure,
}

/// A deployment as plain values.
pub struct DeployView {
    pub policy: Policy,
    pub fail_fast: bool,
    pub privileged_build: bool,
    pub host: Seq<char>,
    pub attr: Seq<char>,
    pub nix_args: Seq<Seq<char>>,
    pub control: Control,
    pub out_link: Seq<char>,
    pub built: Seq<char>,
}

impl DeployView {
    /// The deployment of `host` before its first step.
    pub open spec fn initial(
        settings: BuildSystems,
        host: Seq<char>,
        local: bool,
        attr: Seq<char>,
        nix_args: Seq<Seq<char>>,
    ) -> DeployView {
        DeployView {
            policy: Policy {
                action: settings.spec_action(),
                local,
                disable_rollback: settings.disable_rollback,
            },
            fail_fast: settings.fail_fast,
            privileged_build: settings.privileged_build,
            host,
            attr,
            nix_args,
            control: spec_start(),
            out_link: Seq::empty(),
            built: Seq::empty(),
        }
    }

    /// The build that this deployment runs.
    pub open spec fn build_command(self) -> CommandView {
        match self.policy.action {
            Action::Upload { .. } => invocation::spec_system_build(
                self.out_link,
                self.attr,
                self.nix_args,
                self.privileged_build,
            ),
            Action::Package(_) => invocation::spec_package_build(
                self.out_link,
                self.attr,
                self.nix_args,
                self.fail_fast,
                self.privileged_build,
            ),
        }
    }

    /// A command for the host, to be run there with elevated privileges.
    pub open spec fn on_host(self, command: CommandView, capture: bool) -> RequestView {
        RequestView::Remote { host: self.host, command, elevate: true, capture }
    }

    /// What the deployment asks for next, or nothing once it has ended.
    pub open spec fn request(self) -> Option<RequestView> {
        match self.control.phase {
            Phase::Prepare => match self.policy.action {
                Action::Upload { .. } => Some(RequestView::TempDir),
                Action::Package(p) => Some(
                    RequestView::OutputPath { name: p.spec_out_prefix() + self.host },
                ),
            },
            Phase::Build => Some(RequestView::Local { command: self.build_command() }),
            Phase::Canonicalize => Some(RequestView::Canonicalize { path: self.out_link }),
            Phase::Copy => Some(
                RequestView::Local { command: invocation::spec_copy(self.host, self.built) },
            ),
            Phase::Pause => Some(RequestView::Sleep { millis: COPY_PAUSE_MILLIS }),
            Phase::ListGenerations => Some(
                self.on_host(invocation::spec_list_generations(), true),
            ),
            Phase::WriteMarker { id } => Some(
                self.on_host(invocation::spec_write_marker(id), false),
            ),
            Phase::ScheduleWatchdog => Some(
                self.on_host(invocation::spec_schedule_watchdog(), false),
            ),
            Phase::SetProfile => Some(
                self.on_host(invocation::spec_set_profile(self.built), false),
            ),
            Phase::Activate { mode } => Some(
                self.on_host(invocation::spec_activate(self.built, mode), false),
            ),
            Phase::TriggerRollback => Some(
                self.on_host(invocation::spec_trigger_rollback(), false),
            ),
            Phase::RemoveMarker => Some(self.on_host(invocation::spec_remove_marker(), false)),
            Phase::StopTimer => Some(self.on_host(invocation::spec_stop_timer(), false)),
            Phase::StopRunTimer => Some(self.on_host(invocation::spec_stop_run_timer(), false)),
            Phase::Done => None,
            Phase::Failed { .. } => None,
        }
    }

    /// What `reply` means for the order of steps. The answer to the request
    /// for the generations is a success only if it names one generation as
    /// the current one.
    pub open spec fn event(self, reply: Reply) -> Event {
        match reply {
            Reply::Failure => Event::Failure,
            Reply::Success { output } => if self.control.phase is ListGenerations {
                match spec_current_generation(output@) {
                    Ok(g) => Event::Current { id: g.id },
                    Err(_) => Event::Failure,
                }
            } else {
                Event::Success
            },
        }
    }

    /// The deployment once its request has been answered by `reply`. The
    /// answers to `Prepare` and `Canonicalize` are kept: the first is where
    /// the build leaves its link, the second is the system that is copied,
    /// selected and activated.
    pub open spec fn next(self, reply: Reply) -> DeployView {
        let control = spec_step(self.policy, self.control, self.event(reply));
        match reply {
            Reply::Success { output } => if self.control.phase is Prepare {
                DeployView { control, out_link: output@, ..self }
            } else if self.control.phase is Canonicalize {
                DeployView { control, built: output@, ..self }
            } else {
                DeployView { control, ..self }
            },
            Reply::Failure => DeployView { control, ..self },
        }
    }
}

/// The deployment of one host.
pub struct Deploy {
    settings: BuildSystems,
    local: bool,
    host: String,
    attr: String,
    nix_args: Vec<String>,
    control: Control,
    out_link: String,
    built: String,
}

impl View for Deploy {
    type V = DeployView;

    closed spec fn view(&self) -> DeployView {
        DeployView {
            policy: Policy {
                action: self.settings.spec_action(),
                local: self.local,
                disable_rollback: self.settings.disable_rollback,
            },
            fail_fast: self.settings.fail_fast,
            privileged_build: self.settings.privileged_build,
            host: self.host@,
            attr: self.attr@,
            nix_args: texts(self.nix_args@),
            control: self.control,
            out_link: self.out_link@,
            built: self.built@,
        }
    }
}

impl Deploy {
    /// The deployment of `host` under `settings`, before its first step.
    /// `local` says whether the host is this machine, `attr` is the build
    /// target that the configuration resolves `Action::attr_path` to, and
    /// `nix_args` are passed on to every build.
    pub fn new(
        settings: &BuildSystems,
        host: &str,
        local: bool,
        attr: &str,
        nix_args: &Vec<String>,
    ) -> (r: Deploy)
        ensures
            r@ == DeployView::initial(*settings, host@, local, attr@, texts(nix_args@)),
    {
        Deploy {
            settings: *settings,
            local,
            host: host.to_owned(),
            attr: attr.to_owned(),
            nix_args: copy_texts(nix_args),
            control: start(),
            out_link: String::new(),
            built: String::new(),
        }
    }

    /// What decides which steps this deployment takes.
    pub fn policy(&self) -> (r: Policy)
        ensures
            r == self@.policy,
    {
        Policy {
            action: self.settings.action(),
            local: self.local,
            disable_rollback: self.settings.disable_rollback,
        }
    }

    /// Where the deployment stands.
    pub fn control(&self) -> (r: Control)
        ensures
            r == self@.control,
    {
        self.control
    }

    /// The step that the deployment is about to take, or how it ended.
    pub fn phase(&self) -> (r: Phase)
        ensures
            r == self@.control.phase,
    {
        self.control.phase
    }

    /// Whether a step on the host has failed.
    pub fn failed(&self) -> (r: bool)
        ensures
            r == self@.control.failed,
    {
        self.control.failed
    }

    /// The host that is deployed to.
    pub fn host(&self) -> (r: &str)
        ensures
            r@ == self@.host,
    {
        self.host.as_str()
    }

    /// How the deployment ended: nothing while steps remain, `Ok` once
    /// every step that was due has been taken, whether or not the host took
    /// the new system, and the step that gave up otherwise.
    pub fn outcome(&self) -> (r: Option<Result<(), Abort>>)
        ensures
            r == match self@.control.phase {
                Phase::Done => Some(Ok::<(), Abort>(())),
                Phase::Failed { at } => Some(Err::<(), Abort>(at)),
                _ => None,
            },
    {
        match self.control.phase {
            Phase::Done => Some(Ok(())),
            Phase::Failed { at } => Some(Err(at)),
            _ => None,
        }
    }

    /// Whether the build of an SD card image has failed, which most often
    /// means that the configuration of the host does not import the module
    /// that defines the image.
    pub fn sd_image_build_failed(&self) -> (r: bool)
        ensures
            r == (self@.control.phase == (Phase::Failed { at: Abort::Build })
                && self@.policy.action == Action::Package(PackageAction::SdImage)),
    {
        match (self.control.phase, self.settings.action()) {
            (Phase::Failed { at: Abort::Build }, Action::Package(PackageAction::SdImage)) => true,
            _ => false,
        }
    }

    fn on_host(&self, command: Command, capture: bool) -> (r: Request)
        ensures
            r@ == self@.on_host(command@, capture),
    {
        Request::Remote { host: self.host.clone(), command, elevate: true, capture }
    }

    /// What the driver is to do next, or nothing once the deployment has
    /// ended.
    pub fn request(&self) -> (r: Option<Request>)
        ensures
            request_view(r) == self@.request(),
    {
        match self.control.phase {
            Phase::Prepare => match self.settings.action() {
                Action::Upload { .. } => Some(Request::TempDir),
                Action::Package(p) => Some(
                    Request::OutputPath { name: p.out_name(self.host.as_str()) },
                ),
            },
            Phase::Build => {
                let command = match self.settings.action() {
                    Action::Upload { .. } => invocation::system_build(
                        self.out_link.as_str(),
                        self.attr.as_str(),
                        &self.nix_args,
                        self.settings.privileged_build,
                    ),
                    Action::Package(_) => invocation::package_build(
                        self.out_link.as_str(),
                        self.attr.as_str(),
                        &self.nix_args,
                        self.settings.fail_fast,
                        self.settings.privileged_build,
                    ),
                };
                Some(Request::Local { command })
            },
            Phase::Canonicalize => Some(Request::Canonicalize { path: self.out_link.clone() }),
            Phase::Copy => Some(
                Request::Local {
                    command: invocation::copy(self.host.as_str(), self.built.as_str()),
                },
            ),
            Phase::Pause => Some(Request::Sleep { millis: COPY_PAUSE_MILLIS }),
            Phase::ListGenerations => Some(self.on_host(invocation::list_generations(), true)),
            Phase::WriteMarker { id } => Some(self.on_host(invocation::write_marker(id), false)),
            Phase::ScheduleWatchdog => Some(
                self.on_host(invocation::schedule_watchdog(), false),
            ),
            Phase::SetProfile => Some(
                self.on_host(invocation::set_profile(self.built.as_str()), false),
            ),
            Phase::Activate { mode } => Some(
                self.on_host(invocation::activate(self.built.as_str(), mode), false),
            ),
            Phase::TriggerRollback => Some(self.on_host(invocation::trigger_rollback(), false)),
            Phase::RemoveMarker => Some(self.on_host(invocation::remove_marker(), false)),
            Phase::StopTimer => Some(self.on_host(invocation::stop_timer(), false)),
            Phase::StopRunTimer => Some(self.on_host(invocation::stop_run_timer(), false)),
            Phase::Done => None,
            Phase::Failed { .. } => None,
        }
    }

    /// What `reply` means for the order of steps.
    pub fn event(&self, reply: &Reply) -> (r: Event)
        ensures
            r == self@.event(*reply),
    {
        match reply {
            Reply::Failure => Event::Failure,
            Reply::Success { output } => match self.control.phase {
                Phase::ListGenerations => match get_current_generation(output.as_str()) {
                    Ok(g) => Event::Current { id: g.id },
                    Err(_) => Event::Failure,
                },
                _ => Event::Success,
            },
        }
    }

    /// Takes the answer to the last request, and moves on.
    pub fn advance(self, reply: Reply) -> (r: Deploy)
        ensures
            r@ == self@.next(reply),
    {
        let event = self.event(&reply);
        let control = step(self.policy(), self.control, event);
        let phase = self.control.phase;
        let mut out_link = self.out_link;
        let mut built = self.built;
        match reply {
            Reply::Success { output } => match phase {
                Phase::Prepare => {
                    out_link = output;
                },
                Phase::Canonicalize => {
                    built = output;
                },
                _ => {},
            },
            Reply::Failure => {},
        }
        Deploy {
            settings: self.settings,
            local: self.local,
            host: self.host,
            attr: self.attr,
            nix_args: self.nix_args,
            control,
            out_link,
            built,
        }
    }
}

} // verus!
