//! The workflow orchestrator as a verified state machine.
//!
//! Every round trip to the remote-control server is a command; the driver
//! loop performs it and hands back an event. `Workflow::step` consumes the
//! event and decides the next command. The transition relation `spec_step`
//! pins every transition down, and the machine carries the session-lifecycle
//! guarantee: once a session is opened, the close command is issued exactly
//! once, on every exit path.

use vstd::prelude::*;
use vstd::string::*;

use crate::config::{Config, ConfigModel};
use crate::locators::{
    nav_item_label, selector, spec_nav_item_label, spec_selector, spec_sub_item_label,
    sub_item_label, Target,
};

verus! {

/// Which way a toggle pass runs: disable every enabled row, or enable every
/// disabled row.
#[derive(Clone, Copy, PartialEq, Eq, Structural, Debug)]
pub enum ToggleDirection {
    DisableEnabled,
    EnableDisabled,
}

/// The locator variant a direction scans for: the source state of the rows
/// it flips.
pub open spec fn spec_source_target(dir: ToggleDirection) -> Target {
    match dir {
        ToggleDirection::DisableEnabled => Target::EnabledToggle,
        ToggleDirection::EnableDisabled => Target::DisabledToggle,
    }
}

pub fn source_target(dir: ToggleDirection) -> (t: Target)
    ensures
        t == spec_source_target(dir),
{
    match dir {
        ToggleDirection::DisableEnabled => Target::EnabledToggle,
        ToggleDirection::EnableDisabled => Target::DisabledToggle,
    }
}

/// How a protocol-level failure came about.
#[derive(Clone, Copy, PartialEq, Eq, Structural, Debug)]
pub enum FailureKind {
    SessionCreate,
    ElementNotFound,
    Interaction,
    Protocol,
}

/// What the driver loop is asked to do next. `element` and `parent` values
/// are the opaque handles the driver itself assigned in earlier `Found` and
/// `FoundAll` events; they are only valid on the page they were found on.
#[derive(Debug)]
pub enum Command {
    /// Create the remote session against `server_url` with fixed
    /// capabilities, and apply the implicit element-wait timeout to every
    /// later lookup.
    OpenSession { server_url: String, implicit_wait_ms: u64, headless: bool, disable_gpu: bool },
    Goto { url: String },
    Find { selector: String },
    FindIn { parent: u64, selector: String },
    FindAll { selector: String },
    Click { element: u64 },
    SendKeys { element: u64, text: String },
    ReadInnerHtml { element: u64 },
    Sleep { ms: u64 },
    WaitNotDisplayed { element: u64 },
    CloseSession,
}

/// Mathematical image of a `Command`.
pub enum CommandModel {
    OpenSession { server_url: Seq<char>, implicit_wait_ms: u64, headless: bool, disable_gpu: bool },
    Goto { url: Seq<char> },
    Find { selector: Seq<char> },
    FindIn { parent: u64, selector: Seq<char> },
    FindAll { selector: Seq<char> },
    Click { element: u64 },
    SendKeys { element: u64, text: Seq<char> },
    ReadInnerHtml { element: u64 },
    Sleep { ms: u64 },
    WaitNotDisplayed { element: u64 },
    CloseSession,
}

impl View for Command {
    type V = CommandModel;

    open spec fn view(&self) -> CommandModel {
        match self {
            Command::OpenSession { server_url, implicit_wait_ms, headless, disable_gpu } => {
                CommandModel::OpenSession {
                    server_url: server_url@,
                    implicit_wait_ms: *implicit_wait_ms,
                    headless: *headless,
                    disable_gpu: *disable_gpu,
                }
            },
            Command::Goto { url } => CommandModel::Goto { url: url@ },
            Command::Find { selector } => CommandModel::Find { selector: selector@ },
            Command::FindIn { parent, selector } => CommandModel::FindIn {
                parent: *parent,
                selector: selector@,
            },
            Command::FindAll { selector } => CommandModel::FindAll { selector: selector@ },
            Command::Click { element } => CommandModel::Click { element: *element },
            Command::SendKeys { element, text } => CommandModel::SendKeys {
                element: *element,
                text: text@,
            },
            Command::ReadInnerHtml { element } => CommandModel::ReadInnerHtml {
                element: *element,
            },
            Command::Sleep { ms } => CommandModel::Sleep { ms: *ms },
            Command::WaitNotDisplayed { element } => CommandModel::WaitNotDisplayed {
                element: *element,
            },
            Command::CloseSession => CommandModel::CloseSession,
        }
    }
}

/// The image of an optional command.
pub open spec fn command_image(c: Option<Command>) -> Option<CommandModel> {
    match c {
        Option::None => Option::None,
        Option::Some(cc) => Option::Some(cc@),
    }
}

/// What the driver loop reports back for the command it just performed.
#[derive(Debug)]
pub enum Event {
    /// The command finished and returns nothing.
    Completed,
    /// A single-element lookup succeeded; `id` is the driver's handle.
    Found { id: u64 },
    /// A multi-element lookup succeeded, in the order the protocol returned.
    FoundAll { ids: Vec<u64> },
    /// An inner-HTML read succeeded.
    Text { text: String },
    /// The command failed.
    Failed { kind: FailureKind, detail: String },
}

/// Mathematical image of an `Event`.
pub enum EventModel {
    Completed,
    Found { id: u64 },
    FoundAll { ids: Seq<u64> },
    Text { text: Seq<char> },
    Failed { kind: FailureKind, detail: Seq<char> },
}

impl View for Event {
    type V = EventModel;

    open spec fn view(&self) -> EventModel {
        match self {
            Event::Completed => EventModel::Completed,
            Event::Found { id } => EventModel::Found { id: *id },
            Event::FoundAll { ids } => EventModel::FoundAll { ids: ids@ },
            Event::Text { text } => EventModel::Text { text: text@ },
            Event::Failed { kind, detail } => EventModel::Failed {
                kind: *kind,
                detail: detail@,
            },
        }
    }
}

/// Why a run failed. A protocol failure carries the driver's report; an
/// assertion failure is the navigation-label tripwire, distinct from a
/// timing failure because it signals that the target UI has changed.
#[derive(Debug)]
pub enum WorkflowError {
    Protocol { kind: FailureKind, detail: String },
    Assertion { expected: String, actual: String },
    /// The driver answered with a shape the in-flight command cannot produce.
    UnexpectedResponse,
}

/// Mathematical image of a `WorkflowError`.
pub enum WorkflowErrorModel {
    Protocol { kind: FailureKind, detail: Seq<char> },
    Assertion { expected: Seq<char>, actual: Seq<char> },
    UnexpectedResponse,
}

impl View for WorkflowError {
    type V = WorkflowErrorModel;

    open spec fn view(&self) -> WorkflowErrorModel {
        match self {
            WorkflowError::Protocol { kind, detail } => WorkflowErrorModel::Protocol {
                kind: *kind,
                detail: detail@,
            },
            WorkflowError::Assertion { expected, actual } => WorkflowErrorModel::Assertion {
                expected: expected@,
                actual: actual@,
            },
            WorkflowError::UnexpectedResponse => WorkflowErrorModel::UnexpectedResponse,
        }
    }
}

/// Where the machine stands: each phase names the command currently in
/// flight, together with the element handles it needs afterwards.
#[derive(Clone, Copy, PartialEq, Eq, Structural, Debug)]
pub enum Phase {
    /// Session creation is in flight.
    Opening,
    /// Navigation to the router URL is in flight.
    Navigating,
    // Login step.
    FindPassword,
    FocusPassword { pw: u64 },
    TypePassword { pw: u64 },
    FindLoginButton,
    ClickLoginButton { btn: u64 },
    // Navigation step: hamburger menu, settle, two-level descent with label
    // tripwires.
    FindHamburger,
    ClickHamburger { el: u64 },
    MenuSettle,
    FindNavItem,
    FindNavTitle { item: u64 },
    ReadNavTitle { item: u64, title: u64 },
    ClickNavTitle { item: u64, title: u64 },
    FindSubItem { item: u64 },
    FindSubTitle { sub: u64 },
    ReadSubTitle { title: u64 },
    ClickSubTitle { title: u64 },
    // Toggle step: scan, click each row, apply, settle around the busy
    // overlay.
    ToggleScan { dir: ToggleDirection },
    ToggleClick { dir: ToggleDirection, idx: usize },
    FindApply { dir: ToggleDirection },
    ClickApply { dir: ToggleDirection, apply: u64 },
    FindOverlay { dir: ToggleDirection },
    OverlayAppear { dir: ToggleDirection, overlay: u64 },
    OverlayWait { dir: ToggleDirection, overlay: u64 },
    OverlaySettle { dir: ToggleDirection },
    /// Session termination is in flight.
    Closing,
    /// Terminal: no further command is ever issued.
    Finished,
}

/// The workflow machine. It never performs I/O itself: `step` turns the
/// event for the in-flight command into the next state, and the next command
/// is read off the new state.
pub struct Workflow {
    cfg: Config,
    phase: Phase,
    /// The row handles the current toggle pass still has to click.
    pending: Vec<u64>,
    /// How many sessions were opened (0 or 1).
    opens: u8,
    /// How many close commands were issued (0 or 1).
    closes: u8,
    /// The first failure in flight, surfaced at the end; a later close
    /// failure never replaces it.
    failure: Option<WorkflowError>,
    /// Whether the close command itself failed; reported separately.
    close_fail: bool,
}

/// Mathematical image of the machine.
pub struct WorkflowModel {
    pub cfg: ConfigModel,
    pub phase: Phase,
    pub pending: Seq<u64>,
    pub opens: nat,
    pub closes: nat,
    pub failure: Option<WorkflowErrorModel>,
    pub close_fail: bool,
}

impl View for Workflow {
    type V = WorkflowModel;

    closed spec fn view(&self) -> WorkflowModel {
        WorkflowModel {
            cfg: self.cfg@,
            phase: self.phase,
            pending: self.pending@,
            opens: self.opens as nat,
            closes: self.closes as nat,
            failure: match self.failure {
                Option::None => Option::None,
                Option::Some(e) => Option::Some(e@),
            },
            close_fail: self.close_fail,
        }
    }
}

impl WorkflowModel {
    /// The machine's well-formedness invariant, established by `start` and
    /// preserved by every step.
    pub open spec fn inv(self) -> bool {
        &&& self.opens <= 1
        &&& self.closes <= self.opens
        &&& match self.phase {
            Phase::Opening => self.opens == 0 && self.closes == 0 && self.failure is None
                && !self.close_fail,
            Phase::Closing => self.opens == 1 && self.closes == 1 && !self.close_fail,
            Phase::Finished => self.closes == self.opens,
            Phase::ToggleClick { dir, idx } => self.opens == 1 && self.closes == 0 && (idx as int)
                < self.pending.len() && self.failure is None && !self.close_fail,
            _ => self.opens == 1 && self.closes == 0 && self.failure is None && !self.close_fail,
        }
    }
}

/// The machine a run starts from.
pub open spec fn spec_start(cfg: ConfigModel) -> WorkflowModel {
    WorkflowModel {
        cfg,
        phase: Phase::Opening,
        pending: Seq::empty(),
        opens: 0,
        closes: 0,
        failure: Option::None,
        close_fail: false,
    }
}

/// Record a failure: if a session is open and not yet closing, head for the
/// close command with the failure in flight; otherwise there is nothing to
/// clean up and the run is over.
pub open spec fn spec_fail(m: WorkflowModel, e: WorkflowErrorModel) -> WorkflowModel {
    if m.opens == 1 && m.closes == 0 {
        WorkflowModel { phase: Phase::Closing, closes: 1, failure: Option::Some(e), ..m }
    } else {
        WorkflowModel { phase: Phase::Finished, failure: Option::Some(e), ..m }
    }
}

/// One successful (non-`Failed`) transition. An event whose shape the
/// in-flight command cannot produce is a protocol violation and fails the
/// run.
pub open spec fn spec_advance(m: WorkflowModel, ev: EventModel) -> WorkflowModel {
    match (m.phase, ev) {
        // Session creation, then navigation to the router.
        (Phase::Opening, EventModel::Completed) => WorkflowModel {
            phase: Phase::Navigating,
            opens: 1,
            ..m
        },
        (Phase::Navigating, EventModel::Completed) => WorkflowModel {
            phase: Phase::FindPassword,
            ..m
        },
        // Login step: focus the password field, type the credential, press
        // the login control.
        (Phase::FindPassword, EventModel::Found { id }) => WorkflowModel {
            phase: Phase::FocusPassword { pw: id },
            ..m
        },
        (Phase::FocusPassword { pw }, EventModel::Completed) => WorkflowModel {
            phase: Phase::TypePassword { pw },
            ..m
        },
        (Phase::TypePassword { .. }, EventModel::Completed) => WorkflowModel {
            phase: Phase::FindLoginButton,
            ..m
        },
        (Phase::FindLoginButton, EventModel::Found { id }) => WorkflowModel {
            phase: Phase::ClickLoginButton { btn: id },
            ..m
        },
        (Phase::ClickLoginButton { .. }, EventModel::Completed) => WorkflowModel {
            phase: Phase::FindHamburger,
            ..m
        },
        // Navigation step: open the menu, let the transition settle, descend
        // two levels, asserting each label on the way.
        (Phase::FindHamburger, EventModel::Found { id }) => WorkflowModel {
            phase: Phase::ClickHamburger { el: id },
            ..m
        },
        (Phase::ClickHamburger { .. }, EventModel::Completed) => WorkflowModel {
            phase: Phase::MenuSettle,
            ..m
        },
        (Phase::MenuSettle, EventModel::Completed) => WorkflowModel {
            phase: Phase::FindNavItem,
            ..m
        },
        (Phase::FindNavItem, EventModel::Found { id }) => WorkflowModel {
            phase: Phase::FindNavTitle { item: id },
            ..m
        },
        (Phase::FindNavTitle { item }, EventModel::Found { id }) => WorkflowModel {
            phase: Phase::ReadNavTitle { item, title: id },
            ..m
        },
        (Phase::ReadNavTitle { item, title }, EventModel::Text { text }) => {
            if text == spec_nav_item_label() {
                WorkflowModel { phase: Phase::ClickNavTitle { item, title }, ..m }
            } else {
                spec_fail(
                    m,
                    WorkflowErrorModel::Assertion {
                        expected: spec_nav_item_label(),
                        actual: text,
                    },
                )
            }
        },
        (Phase::ClickNavTitle { item, .. }, EventModel::Completed) => WorkflowModel {
            phase: Phase::FindSubItem { item },
            ..m
        },
        (Phase::FindSubItem { .. }, EventModel::Found { id }) => WorkflowModel {
            phase: Phase::FindSubTitle { sub: id },
            ..m
        },
        (Phase::FindSubTitle { .. }, EventModel::Found { id }) => WorkflowModel {
            phase: Phase::ReadSubTitle { title: id },
            ..m
        },
        (Phase::ReadSubTitle { title }, EventModel::Text { text }) => {
            if text == spec_sub_item_label() {
                WorkflowModel { phase: Phase::ClickSubTitle { title }, ..m }
            } else {
                spec_fail(
                    m,
                    WorkflowErrorModel::Assertion {
                        expected: spec_sub_item_label(),
                        actual: text,
                    },
                )
            }
        },
        (Phase::ClickSubTitle { .. }, EventModel::Completed) => WorkflowModel {
            phase: Phase::ToggleScan { dir: ToggleDirection::DisableEnabled },
            ..m
        },
        // Toggle step: click every scanned row in order, then apply; an empty
        // scan still applies and settles.
        (Phase::ToggleScan { dir }, EventModel::FoundAll { ids }) => {
            if ids.len() == 0 {
                WorkflowModel { phase: Phase::FindApply { dir }, ..m }
            } else {
                WorkflowModel { phase: Phase::ToggleClick { dir, idx: 0 }, pending: ids, ..m }
            }
        },
        (Phase::ToggleClick { dir, idx }, EventModel::Completed) => {
            if idx + 1 < m.pending.len() {
                WorkflowModel { phase: Phase::ToggleClick { dir, idx: (idx + 1) as usize }, ..m }
            } else {
                WorkflowModel { phase: Phase::FindApply { dir }, ..m }
            }
        },
        (Phase::FindApply { dir }, EventModel::Found { id }) => WorkflowModel {
            phase: Phase::ClickApply { dir, apply: id },
            ..m
        },
        (Phase::ClickApply { dir, .. }, EventModel::Completed) => WorkflowModel {
            phase: Phase::FindOverlay { dir },
            ..m
        },
        (Phase::FindOverlay { dir }, EventModel::Found { id }) => WorkflowModel {
            phase: Phase::OverlayAppear { dir, overlay: id },
            ..m
        },
        (Phase::OverlayAppear { dir, overlay }, EventModel::Completed) => WorkflowModel {
            phase: Phase::OverlayWait { dir, overlay },
            ..m
        },
        (Phase::OverlayWait { dir, .. }, EventModel::Completed) => WorkflowModel {
            phase: Phase::OverlaySettle { dir },
            ..m
        },
        // After the first (disabling) pass, run the inverse pass; after the
        // second, the workflow succeeded and the session is closed.
        (Phase::OverlaySettle { dir }, EventModel::Completed) => {
            match dir {
                ToggleDirection::DisableEnabled => WorkflowModel {
                    phase: Phase::ToggleScan { dir: ToggleDirection::EnableDisabled },
                    ..m
                },
                ToggleDirection::EnableDisabled => WorkflowModel {
                    phase: Phase::Closing,
                    closes: 1,
                    ..m
                },
            }
        },
        (_, _) => spec_fail(m, WorkflowErrorModel::UnexpectedResponse),
    }
}

/// The full transition relation: what one call of `step` does.
pub open spec fn spec_step(m: WorkflowModel, ev: EventModel) -> WorkflowModel {
    match m.phase {
        Phase::Finished => m,
        Phase::Closing => match ev {
            // Whatever the close command came back with, the run is over;
            // anything but a clean completion is a close failure, reported
            // separately and never replacing a failure already in flight.
            EventModel::Completed => WorkflowModel { phase: Phase::Finished, ..m },
            _ => WorkflowModel { phase: Phase::Finished, close_fail: true, ..m },
        },
        _ => match ev {
            EventModel::Failed { kind, detail } => spec_fail(
                m,
                WorkflowErrorModel::Protocol { kind, detail },
            ),
            _ => spec_advance(m, ev),
        },
    }
}

/// The command in flight in a given state: each non-terminal phase stands
/// for exactly one protocol round trip.
pub open spec fn spec_command(m: WorkflowModel) -> Option<CommandModel> {
    match m.phase {
        Phase::Opening => Option::Some(
            CommandModel::OpenSession {
                server_url: m.cfg.selenium_url,
                implicit_wait_ms: 3000,
                headless: true,
                disable_gpu: true,
            },
        ),
        Phase::Navigating => Option::Some(CommandModel::Goto { url: m.cfg.router_url }),
        Phase::FindPassword => Option::Some(
            CommandModel::Find { selector: spec_selector(Target::PasswordInput) },
        ),
        Phase::FocusPassword { pw } => Option::Some(CommandModel::Click { element: pw }),
        Phase::TypePassword { pw } => Option::Some(
            CommandModel::SendKeys { element: pw, text: m.cfg.password },
        ),
        Phase::FindLoginButton => Option::Some(
            CommandModel::Find { selector: spec_selector(Target::LoginButton) },
        ),
        Phase::ClickLoginButton { btn } => Option::Some(CommandModel::Click { element: btn }),
        Phase::FindHamburger => Option::Some(
            CommandModel::Find { selector: spec_selector(Target::HamburgerMenu) },
        ),
        Phase::ClickHamburger { el } => Option::Some(CommandModel::Click { element: el }),
        Phase::MenuSettle => Option::Some(CommandModel::Sleep { ms: 500 }),
        Phase::FindNavItem => Option::Some(
            CommandModel::Find { selector: spec_selector(Target::NavItem) },
        ),
        Phase::FindNavTitle { item } => Option::Some(
            CommandModel::FindIn { parent: item, selector: spec_selector(Target::NavItemTitle) },
        ),
        Phase::ReadNavTitle { title, .. } => Option::Some(
            CommandModel::ReadInnerHtml { element: title },
        ),
        Phase::ClickNavTitle { title, .. } => Option::Some(CommandModel::Click { element: title }),
        Phase::FindSubItem { item } => Option::Some(
            CommandModel::FindIn { parent: item, selector: spec_selector(Target::SubNavItem) },
        ),
        Phase::FindSubTitle { sub } => Option::Some(
            CommandModel::FindIn { parent: sub, selector: spec_selector(Target::SubNavItemTitle) },
        ),
        Phase::ReadSubTitle { title } => Option::Some(
            CommandModel::ReadInnerHtml { element: title },
        ),
        Phase::ClickSubTitle { title } => Option::Some(CommandModel::Click { element: title }),
        Phase::ToggleScan { dir } => Option::Some(
            CommandModel::FindAll { selector: spec_selector(spec_source_target(dir)) },
        ),
        Phase::ToggleClick { idx, .. } => Option::Some(
            CommandModel::Click { element: m.pending[idx as int] },
        ),
        Phase::FindApply { .. } => Option::Some(
            CommandModel::Find { selector: spec_selector(Target::ApplyButton) },
        ),
        Phase::ClickApply { apply, .. } => Option::Some(CommandModel::Click { element: apply }),
        Phase::FindOverlay { .. } => Option::Some(
            CommandModel::Find { selector: spec_selector(Target::BusyOverlay) },
        ),
        Phase::OverlayAppear { .. } => Option::Some(CommandModel::Sleep { ms: 500 }),
        Phase::OverlayWait { overlay, .. } => Option::Some(
            CommandModel::WaitNotDisplayed { element: overlay },
        ),
        Phase::OverlaySettle { .. } => Option::Some(CommandModel::Sleep { ms: 500 }),
        Phase::Closing => Option::Some(CommandModel::CloseSession),
        Phase::Finished => Option::None,
    }
}

/// The machine after a whole sequence of events has been stepped through.
pub open spec fn spec_run(m: WorkflowModel, evs: Seq<EventModel>) -> WorkflowModel
    decreases evs.len(),
{
    if evs.len() == 0 {
        m
    } else {
        spec_run(spec_step(m, evs[0]), evs.subrange(1, evs.len() as int))
    }
}

/// How many of the steps along a run issue the session-close command.
pub open spec fn spec_close_count(m: WorkflowModel, evs: Seq<EventModel>) -> nat
    decreases evs.len(),
{
    if evs.len() == 0 {
        0
    } else {
        (if spec_command(spec_step(m, evs[0])) == Option::Some(CommandModel::CloseSession) {
            1nat
        } else {
            0nat
        }) + spec_close_count(spec_step(m, evs[0]), evs.subrange(1, evs.len() as int))
    }
}

/// Each step preserves the invariant, never takes a close back, and issues
/// the close command exactly in the step whose close counter grows — the
/// counter ties what the machine says to what it tells the driver to do.
pub proof fn lemma_step_close_discipline(m: WorkflowModel, ev: EventModel)
    requires
        m.inv(),
    ensures
        spec_step(m, ev).inv(),
        spec_step(m, ev).closes >= m.closes,
        spec_step(m, ev).opens >= m.opens,
        (spec_command(spec_step(m, ev)) == Option::Some(CommandModel::CloseSession)) <==> (
        spec_step(m, ev).closes == m.closes + 1),
{
}

/// The invariant holds after any event sequence.
pub proof fn lemma_run_preserves_inv(m: WorkflowModel, evs: Seq<EventModel>)
    requires
        m.inv(),
    ensures
        spec_run(m, evs).inv(),
    decreases evs.len(),
{
    if evs.len() > 0 {
        lemma_step_close_discipline(m, evs[0]);
        lemma_run_preserves_inv(spec_step(m, evs[0]), evs.subrange(1, evs.len() as int));
    }
}

/// Along any event sequence, the number of steps that issue the close
/// command equals the growth of the close counter.
pub proof fn lemma_close_count(m: WorkflowModel, evs: Seq<EventModel>)
    requires
        m.inv(),
    ensures
        spec_close_count(m, evs) == spec_run(m, evs).closes - m.closes,
    decreases evs.len(),
{
    if evs.len() > 0 {
        lemma_step_close_discipline(m, evs[0]);
        lemma_close_count(spec_step(m, evs[0]), evs.subrange(1, evs.len() as int));
    }
}

/// The session-lifecycle guarantee: drive a fresh run with any event
/// sequence at all — success, step failure, or assertion failure. If the run
/// reaches its terminal phase, the close command was issued exactly once
/// when a session was opened and never otherwise; and no sequence ever makes
/// it issue close twice.
pub proof fn lemma_close_exactly_once(cfg: ConfigModel, evs: Seq<EventModel>)
    ensures
        spec_close_count(spec_start(cfg), evs) == spec_run(spec_start(cfg), evs).closes,
        spec_run(spec_start(cfg), evs).closes <= 1,
        spec_run(spec_start(cfg), evs).phase is Finished ==> spec_run(spec_start(cfg), evs).closes
            == spec_run(spec_start(cfg), evs).opens,
{
    lemma_run_preserves_inv(spec_start(cfg), evs);
    lemma_close_count(spec_start(cfg), evs);
}

/// A failure in flight is never suppressed or replaced: whatever events
/// follow — the close command's own failure included — the first recorded
/// failure is the one surfaced at the end.
pub proof fn lemma_first_failure_sticks(m: WorkflowModel, evs: Seq<EventModel>)
    requires
        m.inv(),
        m.failure is Some,
    ensures
        spec_run(m, evs).failure == m.failure,
    decreases evs.len(),
{
    if evs.len() > 0 {
        lemma_step_close_discipline(m, evs[0]);
        lemma_first_failure_sticks(spec_step(m, evs[0]), evs.subrange(1, evs.len() as int));
    }
}

/// Toggle-pass idempotence on an empty scan: when the source-state query
/// matches nothing, the pass skips the clicking stage entirely — the very
/// next command is the apply-control lookup, not a row click — and the pass
/// goes on through applying and settling as usual.
pub proof fn lemma_empty_scan_still_applies(m: WorkflowModel, dir: ToggleDirection)
    requires
        m.inv(),
        m.phase == (Phase::ToggleScan { dir }),
    ensures
        ({
            let n = spec_step(m, EventModel::FoundAll { ids: Seq::empty() });
            &&& n.phase == (Phase::FindApply { dir })
            &&& spec_command(n) == Option::Some(
                CommandModel::Find { selector: spec_selector(Target::ApplyButton) },
            )
            &&& !(spec_command(n) matches Option::Some(CommandModel::Click { .. }))
        }),
{
}

/// Toggle-pass idempotence, whole pass: after an empty scan, successful
/// apply and settle responses complete the pass without any failure — the
/// disabling pass hands over to the enabling scan, and the enabling pass
/// closes the session in success.
pub proof fn lemma_empty_scan_completes(
    m: WorkflowModel,
    dir: ToggleDirection,
    apply_id: u64,
    overlay_id: u64,
)
    requires
        m.inv(),
        m.phase == (Phase::ToggleScan { dir }),
    ensures
        ({
            let n = spec_run(m, spec_empty_pass_events(apply_id, overlay_id));
            &&& dir is DisableEnabled ==> n.phase == (Phase::ToggleScan {
                dir: ToggleDirection::EnableDisabled,
            })
            &&& dir is EnableDisabled ==> n.phase is Closing
            &&& n.failure == m.failure
        }),
{
    let evs = spec_empty_pass_events(apply_id, overlay_id);
    let m1 = spec_step(m, evs[0]);
    let m2 = spec_step(m1, evs[1]);
    let m3 = spec_step(m2, evs[2]);
    let m4 = spec_step(m3, evs[3]);
    let m5 = spec_step(m4, evs[4]);
    let m6 = spec_step(m5, evs[5]);
    let m7 = spec_step(m6, evs[6]);
    assert(spec_run(m, evs) == m7) by {
        reveal_with_fuel(spec_run, 8);
        assert(evs.subrange(1, 7).subrange(1, 6) =~= evs.subrange(2, 7));
        assert(evs.subrange(2, 7).subrange(1, 5) =~= evs.subrange(3, 7));
        assert(evs.subrange(3, 7).subrange(1, 4) =~= evs.subrange(4, 7));
        assert(evs.subrange(4, 7).subrange(1, 3) =~= evs.subrange(5, 7));
        assert(evs.subrange(5, 7).subrange(1, 2) =~= evs.subrange(6, 7));
        assert(evs.subrange(6, 7).subrange(1, 1) =~= Seq::<EventModel>::empty());
    }
}

/// Splitting an event sequence splits the run.
pub proof fn lemma_run_append(m: WorkflowModel, a: Seq<EventModel>, b: Seq<EventModel>)
    ensures
        spec_run(m, a + b) == spec_run(spec_run(m, a), b),
    decreases a.len(),
{
    if a.len() == 0 {
        assert(a + b =~= b);
    } else {
        assert((a + b)[0] == a[0]);
        assert((a + b).subrange(1, (a + b).len() as int) =~= a.subrange(1, a.len() as int) + b);
        lemma_run_append(spec_step(m, a[0]), a.subrange(1, a.len() as int), b);
    }
}

/// The events of one whole successful login-and-navigation prefix: session
/// opened, router page loaded, credential typed and submitted, menu opened
/// and settled, both navigation labels exactly as expected.
pub open spec fn spec_login_nav_events(
    pw: u64,
    btn: u64,
    ham: u64,
    item: u64,
    title: u64,
    sub: u64,
    stitle: u64,
) -> Seq<EventModel> {
    seq![
        EventModel::Completed,
        EventModel::Completed,
        EventModel::Found { id: pw },
        EventModel::Completed,
        EventModel::Completed,
        EventModel::Found { id: btn },
        EventModel::Completed,
        EventModel::Found { id: ham },
        EventModel::Completed,
        EventModel::Completed,
        EventModel::Found { id: item },
        EventModel::Found { id: title },
        EventModel::Text { text: spec_nav_item_label() },
        EventModel::Completed,
        EventModel::Found { id: sub },
        EventModel::Found { id: stitle },
        EventModel::Text { text: spec_sub_item_label() },
        EventModel::Completed,
    ]
}

/// The events of one whole toggle pass whose scan matched nothing.
pub open spec fn spec_empty_pass_events(apply_id: u64, overlay_id: u64) -> Seq<EventModel> {
    seq![
        EventModel::FoundAll { ids: Seq::empty() },
        EventModel::Found { id: apply_id },
        EventModel::Completed,
        EventModel::Found { id: overlay_id },
        EventModel::Completed,
        EventModel::Completed,
        EventModel::Completed,
    ]
}

/// A successful login and navigation bring a fresh run to the first
/// (disabling) toggle scan with nothing recorded against it.
pub proof fn lemma_login_nav_success(
    cfg: ConfigModel,
    pw: u64,
    btn: u64,
    ham: u64,
    item: u64,
    title: u64,
    sub: u64,
    stitle: u64,
)
    ensures
        ({
            let n = spec_run(spec_start(cfg), spec_login_nav_events(pw, btn, ham, item, title, sub, stitle));
            &&& n.phase == (Phase::ToggleScan { dir: ToggleDirection::DisableEnabled })
            &&& n.failure is None
            &&& n.inv()
        }),
{
    let evs = spec_login_nav_events(pw, btn, ham, item, title, sub, stitle);
    let m0 = spec_start(cfg);
    let m1 = spec_step(m0, evs[0]);
    let m2 = spec_step(m1, evs[1]);
    let m3 = spec_step(m2, evs[2]);
    let m4 = spec_step(m3, evs[3]);
    let m5 = spec_step(m4, evs[4]);
    let m6 = spec_step(m5, evs[5]);
    let m7 = spec_step(m6, evs[6]);
    let m8 = spec_step(m7, evs[7]);
    let m9 = spec_step(m8, evs[8]);
    let m10 = spec_step(m9, evs[9]);
    let m11 = spec_step(m10, evs[10]);
    let m12 = spec_step(m11, evs[11]);
    let m13 = spec_step(m12, evs[12]);
    let m14 = spec_step(m13, evs[13]);
    let m15 = spec_step(m14, evs[14]);
    let m16 = spec_step(m15, evs[15]);
    let m17 = spec_step(m16, evs[16]);
    let m18 = spec_step(m17, evs[17]);
    assert(spec_run(m0, evs) == m18) by {
        reveal_with_fuel(spec_run, 20);
        assert(evs.subrange(1, 18).subrange(1, 17) =~= evs.subrange(2, 18));
        assert(evs.subrange(2, 18).subrange(1, 16) =~= evs.subrange(3, 18));
        assert(evs.subrange(3, 18).subrange(1, 15) =~= evs.subrange(4, 18));
        assert(evs.subrange(4, 18).subrange(1, 14) =~= evs.subrange(5, 18));
        assert(evs.subrange(5, 18).subrange(1, 13) =~= evs.subrange(6, 18));
        assert(evs.subrange(6, 18).subrange(1, 12) =~= evs.subrange(7, 18));
        assert(evs.subrange(7, 18).subrange(1, 11) =~= evs.subrange(8, 18));
        assert(evs.subrange(8, 18).subrange(1, 10) =~= evs.subrange(9, 18));
        assert(evs.subrange(9, 18).subrange(1, 9) =~= evs.subrange(10, 18));
        assert(evs.subrange(10, 18).subrange(1, 8) =~= evs.subrange(11, 18));
        assert(evs.subrange(11, 18).subrange(1, 7) =~= evs.subrange(12, 18));
        assert(evs.subrange(12, 18).subrange(1, 6) =~= evs.subrange(13, 18));
        assert(evs.subrange(13, 18).subrange(1, 5) =~= evs.subrange(14, 18));
        assert(evs.subrange(14, 18).subrange(1, 4) =~= evs.subrange(15, 18));
        assert(evs.subrange(15, 18).subrange(1, 3) =~= evs.subrange(16, 18));
        assert(evs.subrange(16, 18).subrange(1, 2) =~= evs.subrange(17, 18));
        assert(evs.subrange(17, 18).subrange(1, 1) =~= Seq::<EventModel>::empty());
    }
}

/// The happy path, end to end: with every lookup succeeding, both labels as
/// expected, both scans empty, and the close completing, the fixed sequence
/// login → navigate → disabling pass → enabling pass runs to its terminal
/// phase with no failure of any kind, and the one session it opened was
/// closed. Success is reachable: the machine does not owe its other
/// guarantees to failing early.
pub proof fn lemma_happy_path(
    cfg: ConfigModel,
    pw: u64,
    btn: u64,
    ham: u64,
    item: u64,
    title: u64,
    sub: u64,
    stitle: u64,
    apply1: u64,
    overlay1: u64,
    apply2: u64,
    overlay2: u64,
)
    ensures
        ({
            let evs = spec_login_nav_events(pw, btn, ham, item, title, sub, stitle)
                + spec_empty_pass_events(apply1, overlay1) + spec_empty_pass_events(
                apply2,
                overlay2,
            ) + seq![EventModel::Completed];
            let n = spec_run(spec_start(cfg), evs);
            &&& n.phase is Finished
            &&& n.failure is None
            &&& !n.close_fail
            &&& n.opens == 1
            &&& n.closes == 1
        }),
{
    let login_nav = spec_login_nav_events(pw, btn, ham, item, title, sub, stitle);
    let pass1 = spec_empty_pass_events(apply1, overlay1);
    let pass2 = spec_empty_pass_events(apply2, overlay2);
    let last = seq![EventModel::Completed];
    let m0 = spec_start(cfg);

    lemma_login_nav_success(cfg, pw, btn, ham, item, title, sub, stitle);
    let ma = spec_run(m0, login_nav);

    lemma_empty_scan_completes(ma, ToggleDirection::DisableEnabled, apply1, overlay1);
    lemma_run_preserves_inv(ma, pass1);
    let mb = spec_run(ma, pass1);
    assert(mb.phase == (Phase::ToggleScan { dir: ToggleDirection::EnableDisabled }));

    lemma_empty_scan_completes(mb, ToggleDirection::EnableDisabled, apply2, overlay2);
    lemma_run_preserves_inv(mb, pass2);
    let mc = spec_run(mb, pass2);
    assert(mc.phase is Closing);

    let md = spec_step(mc, EventModel::Completed);
    assert(spec_run(mc, last) == md) by {
        reveal_with_fuel(spec_run, 2);
        assert(last.subrange(1, 1) =~= Seq::<EventModel>::empty());
    }

    lemma_run_append(m0, login_nav, pass1);
    lemma_run_append(m0, login_nav + pass1, pass2);
    lemma_run_append(m0, login_nav + pass1 + pass2, last);
}

/// The navigation-label tripwire: when the top-level item's label is not
/// exactly the expected text, the machine records the assertion failure with
/// both texts, the item is never clicked — the very next command is already
/// the session close — and no later step runs: every step after it is
/// terminal.
pub proof fn lemma_nav_label_tripwire(m: WorkflowModel, item: u64, title: u64, text: Seq<char>)
    requires
        m.inv(),
        m.phase == (Phase::ReadNavTitle { item, title }),
        text != spec_nav_item_label(),
    ensures
        ({
            let n = spec_step(m, EventModel::Text { text });
            &&& n.phase is Closing
            &&& n.failure == Option::Some(
                WorkflowErrorModel::Assertion { expected: spec_nav_item_label(), actual: text },
            )
            &&& spec_command(n) == Option::Some(CommandModel::CloseSession)
            &&& forall|ev2: EventModel| spec_step(n, ev2).phase is Finished
        }),
{
}

impl Workflow {
    /// Build the command the current phase stands for.
    fn emit(&self) -> (r: Option<Command>)
        requires
            self@.inv(),
        ensures
            command_image(r) == spec_command(self@),
    {
        match self.phase {
            Phase::Opening => Some(
                Command::OpenSession {
                    server_url: self.cfg.selenium_url.clone(),
                    implicit_wait_ms: 3000,
                    headless: true,
                    disable_gpu: true,
                },
            ),
            Phase::Navigating => Some(Command::Goto { url: self.cfg.router_url.clone() }),
            Phase::FindPassword => Some(
                Command::Find { selector: selector(Target::PasswordInput) },
            ),
            Phase::FocusPassword { pw } => Some(Command::Click { element: pw }),
            Phase::TypePassword { pw } => Some(
                Command::SendKeys { element: pw, text: self.cfg.password.clone() },
            ),
            Phase::FindLoginButton => Some(
                Command::Find { selector: selector(Target::LoginButton) },
            ),
            Phase::ClickLoginButton { btn } => Some(Command::Click { element: btn }),
            Phase::FindHamburger => Some(
                Command::Find { selector: selector(Target::HamburgerMenu) },
            ),
            Phase::ClickHamburger { el } => Some(Command::Click { element: el }),
            Phase::MenuSettle => Some(Command::Sleep { ms: 500 }),
            Phase::FindNavItem => Some(Command::Find { selector: selector(Target::NavItem) }),
            Phase::FindNavTitle { item } => Some(
                Command::FindIn { parent: item, selector: selector(Target::NavItemTitle) },
            ),
            Phase::ReadNavTitle { title, .. } => Some(Command::ReadInnerHtml { element: title }),
            Phase::ClickNavTitle { title, .. } => Some(Command::Click { element: title }),
            Phase::FindSubItem { item } => Some(
                Command::FindIn { parent: item, selector: selector(Target::SubNavItem) },
            ),
            Phase::FindSubTitle { sub } => Some(
                Command::FindIn { parent: sub, selector: selector(Target::SubNavItemTitle) },
            ),
            Phase::ReadSubTitle { title } => Some(Command::ReadInnerHtml { element: title }),
            Phase::ClickSubTitle { title } => Some(Command::Click { element: title }),
            Phase::ToggleScan { dir } => Some(
                Command::FindAll { selector: selector(source_target(dir)) },
            ),
            Phase::ToggleClick { idx, .. } => Some(Command::Click { element: self.pending[idx] }),
            Phase::FindApply { .. } => Some(
                Command::Find { selector: selector(Target::ApplyButton) },
            ),
            Phase::ClickApply { apply, .. } => Some(Command::Click { element: apply }),
            Phase::FindOverlay { .. } => Some(
                Command::Find { selector: selector(Target::BusyOverlay) },
            ),
            Phase::OverlayAppear { .. } => Some(Command::Sleep { ms: 500 }),
            Phase::OverlayWait { overlay, .. } => Some(
                Command::WaitNotDisplayed { element: overlay },
            ),
            Phase::OverlaySettle { .. } => Some(Command::Sleep { ms: 500 }),
            Phase::Closing => Some(Command::CloseSession),
            Phase::Finished => None,
        }
    }

    /// Start a run: the machine is in its initial state and the first
    /// command (session creation) is in flight.
    pub fn start(cfg: Config) -> (r: (Workflow, Option<Command>))
        ensures
            r.0@ == spec_start(cfg@),
            r.0@.inv(),
            command_image(r.1) == spec_command(r.0@),
    {
        let wf = Workflow {
            cfg,
            phase: Phase::Opening,
            pending: Vec::new(),
            opens: 0,
            closes: 0,
            failure: None,
            close_fail: false,
        };
        let cmd = wf.emit();
        (wf, cmd)
    }

    /// Record a failure, exactly as `spec_fail` says.
    fn apply_failure(&mut self, e: WorkflowError)
        requires
            old(self)@.inv(),
        ensures
            final(self)@ == spec_fail(old(self)@, e@),
    {
        if self.opens == 1 && self.closes == 0 {
            self.phase = Phase::Closing;
            self.closes = 1;
            self.failure = Some(e);
        } else {
            self.phase = Phase::Finished;
            self.failure = Some(e);
        }
    }

    /// One successful transition, exactly as `spec_advance` says.
    fn apply_advance(&mut self, ev: Event)
        requires
            old(self)@.inv(),
            !(old(self)@.phase is Closing),
            !(old(self)@.phase is Finished),
            !(ev@ is Failed),
        ensures
            final(self)@ == spec_advance(old(self)@, ev@),
    {
        match (self.phase, ev) {
            (Phase::Opening, Event::Completed) => {
                self.phase = Phase::Navigating;
                self.opens = 1;
            },
            (Phase::Navigating, Event::Completed) => {
                self.phase = Phase::FindPassword;
            },
            (Phase::FindPassword, Event::Found { id }) => {
                self.phase = Phase::FocusPassword { pw: id };
            },
            (Phase::FocusPassword { pw }, Event::Completed) => {
                self.phase = Phase::TypePassword { pw };
            },
            (Phase::TypePassword { .. }, Event::Completed) => {
                self.phase = Phase::FindLoginButton;
            },
            (Phase::FindLoginButton, Event::Found { id }) => {
                self.phase = Phase::ClickLoginButton { btn: id };
            },
            (Phase::ClickLoginButton { .. }, Event::Completed) => {
                self.phase = Phase::FindHamburger;
            },
            (Phase::FindHamburger, Event::Found { id }) => {
                self.phase = Phase::ClickHamburger { el: id };
            },
            (Phase::ClickHamburger { .. }, Event::Completed) => {
                self.phase = Phase::MenuSettle;
            },
            (Phase::MenuSettle, Event::Completed) => {
                self.phase = Phase::FindNavItem;
            },
            (Phase::FindNavItem, Event::Found { id }) => {
                self.phase = Phase::FindNavTitle { item: id };
            },
            (Phase::FindNavTitle { item }, Event::Found { id }) => {
                self.phase = Phase::ReadNavTitle { item, title: id };
            },
            (Phase::ReadNavTitle { item, title }, Event::Text { text }) => {
                let expected = nav_item_label();
                if text == expected {
                    self.phase = Phase::ClickNavTitle { item, title };
                } else {
                    self.apply_failure(WorkflowError::Assertion { expected, actual: text });
                }
            },
            (Phase::ClickNavTitle { item, .. }, Event::Completed) => {
                self.phase = Phase::FindSubItem { item };
            },
            (Phase::FindSubItem { .. }, Event::Found { id }) => {
                self.phase = Phase::FindSubTitle { sub: id };
            },
            (Phase::FindSubTitle { .. }, Event::Found { id }) => {
                self.phase = Phase::ReadSubTitle { title: id };
            },
            (Phase::ReadSubTitle { title }, Event::Text { text }) => {
                let expected = sub_item_label();
                if text == expected {
                    self.phase = Phase::ClickSubTitle { title };
                } else {
                    self.apply_failure(WorkflowError::Assertion { expected, actual: text });
                }
            },
            (Phase::ClickSubTitle { .. }, Event::Completed) => {
                self.phase = Phase::ToggleScan { dir: ToggleDirection::DisableEnabled };
            },
            (Phase::ToggleScan { dir }, Event::FoundAll { ids }) => {
                if ids.len() == 0 {
                    self.phase = Phase::FindApply { dir };
                } else {
                    self.pending = ids;
                    self.phase = Phase::ToggleClick { dir, idx: 0 };
                }
            },
            (Phase::ToggleClick { dir, idx }, Event::Completed) => {
                let n = self.pending.len();
                if idx + 1 < n {
                    self.phase = Phase::ToggleClick { dir, idx: idx + 1 };
                } else {
                    self.phase = Phase::FindApply { dir };
                }
            },
            (Phase::FindApply { dir }, Event::Found { id }) => {
                self.phase = Phase::ClickApply { dir, apply: id };
            },
            (Phase::ClickApply { dir, .. }, Event::Completed) => {
                self.phase = Phase::FindOverlay { dir };
            },
            (Phase::FindOverlay { dir }, Event::Found { id }) => {
                self.phase = Phase::OverlayAppear { dir, overlay: id };
            },
            (Phase::OverlayAppear { dir, overlay }, Event::Completed) => {
                self.phase = Phase::OverlayWait { dir, overlay };
            },
            (Phase::OverlayWait { dir, .. }, Event::Completed) => {
                self.phase = Phase::OverlaySettle { dir };
            },
            (Phase::OverlaySettle { dir }, Event::Completed) => {
                match dir {
                    ToggleDirection::DisableEnabled => {
                        self.phase = Phase::ToggleScan {
                            dir: ToggleDirection::EnableDisabled,
                        };
                    },
                    ToggleDirection::EnableDisabled => {
                        self.phase = Phase::Closing;
                        self.closes = 1;
                    },
                }
            },
            (_, _) => {
                self.apply_failure(WorkflowError::UnexpectedResponse);
            },
        }
    }

    /// Consume the event for the in-flight command and hand back the next
    /// command, exactly as the transition relation `spec_step` says.
    pub fn step(&mut self, ev: Event) -> (cmd: Option<Command>)
        requires
            old(self)@.inv(),
        ensures
            final(self)@ == spec_step(old(self)@, ev@),
            final(self)@.inv(),
            command_image(cmd) == spec_command(final(self)@),
    {
        match self.phase {
            Phase::Finished => {},
            Phase::Closing => {
                match ev {
                    Event::Completed => {
                        self.phase = Phase::Finished;
                    },
                    _ => {
                        self.phase = Phase::Finished;
                        self.close_fail = true;
                    },
                }
            },
            _ => {
                match ev {
                    Event::Failed { kind, detail } => {
                        self.apply_failure(WorkflowError::Protocol { kind, detail });
                    },
                    _ => {
                        self.apply_advance(ev);
                    },
                }
            },
        }
        self.emit()
    }

    /// The phase the machine currently stands in.
    pub fn current_phase(&self) -> (r: Phase)
        ensures
            r == self@.phase,
    {
        self.phase
    }

    /// How many sessions this run opened (0 or 1).
    pub fn opens_issued(&self) -> (r: u8)
        ensures
            r as nat == self@.opens,
    {
        self.opens
    }

    /// How many close commands this run issued (0 or 1).
    pub fn closes_issued(&self) -> (r: u8)
        ensures
            r as nat == self@.closes,
    {
        self.closes
    }

    /// The failure in flight, if any.
    pub fn error(&self) -> (r: &Option<WorkflowError>)
        ensures
            match r {
                Option::None => self@.failure is None,
                Option::Some(e) => self@.failure == Option::Some(e@),
            },
    {
        &self.failure
    }

    /// Whether the close command itself failed.
    pub fn close_failed(&self) -> (r: bool)
        ensures
            r == self@.close_fail,
    {
        self.close_fail
    }
}

} // verus!
