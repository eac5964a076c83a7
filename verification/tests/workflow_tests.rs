use std::collections::HashMap;

use router_toggle::config::Config;
use router_toggle::workflow::{
    Command, Event, FailureKind, Phase, Workflow, WorkflowError,
};

fn test_config() -> Config {
    Config {
        selenium_url: String::from("http://localhost:9515"),
        router_url: String::from("http://192.168.0.1/"),
        password: String::from("hunter2"),
    }
}

#[derive(Clone, Copy, PartialEq, Eq, Debug)]
enum Meaning {
    NavTitle,
    SubTitle,
    Row(usize),
    Apply,
    Other,
}

/// A fake protocol double: a page with toggle rows, two navigation labels,
/// and counters for everything the workflow does to it.
struct FakeRouter {
    rows_enabled: Vec<bool>,
    nav_label: String,
    sub_label: String,
    opens: u32,
    closes: u32,
    row_clicks: u32,
    apply_clicks: u32,
    nav_title_clicks: u32,
    /// For each multi-element scan: (selector, matches, enabled rows at that moment).
    scans: Vec<(String, usize, usize)>,
    /// A selector whose single-element lookup should fail, if any.
    fail_find: Option<String>,
    fail_open: bool,
    fail_close: bool,
    next_id: u64,
    meanings: HashMap<u64, Meaning>,
}

impl FakeRouter {
    fn new(rows_enabled: Vec<bool>) -> FakeRouter {
        FakeRouter {
            rows_enabled,
            nav_label: String::from("Internet"),
            sub_label: String::from("IPv6 Host Exposure"),
            opens: 0,
            closes: 0,
            row_clicks: 0,
            apply_clicks: 0,
            nav_title_clicks: 0,
            scans: Vec::new(),
            fail_find: None,
            fail_open: false,
            fail_close: false,
            next_id: 1,
            meanings: HashMap::new(),
        }
    }

    fn fresh(&mut self, m: Meaning) -> u64 {
        let id = self.next_id;
        self.next_id += 1;
        self.meanings.insert(id, m);
        id
    }

    fn enabled_count(&self) -> usize {
        self.rows_enabled.iter().filter(|e| **e).count()
    }

    fn perform(&mut self, cmd: &Command) -> Event {
        match cmd {
            Command::OpenSession { .. } => {
                if self.fail_open {
                    Event::Failed {
                        kind: FailureKind::SessionCreate,
                        detail: String::from("connection refused"),
                    }
                } else {
                    self.opens += 1;
                    Event::Completed
                }
            }
            Command::Goto { .. } => Event::Completed,
            Command::Find { selector } => {
                if self.fail_find.as_deref() == Some(selector.as_str()) {
                    return Event::Failed {
                        kind: FailureKind::ElementNotFound,
                        detail: selector.clone(),
                    };
                }
                let meaning = if selector.contains("applyButton") {
                    Meaning::Apply
                } else {
                    Meaning::Other
                };
                let id = self.fresh(meaning);
                Event::Found { id }
            }
            Command::FindIn { selector, .. } => {
                let meaning = if selector.as_str() == "a.mobile-navigation-item-title" {
                    Meaning::NavTitle
                } else if selector.as_str() == "a.mobile-sub-navigation-item-title" {
                    Meaning::SubTitle
                } else {
                    Meaning::Other
                };
                let id = self.fresh(meaning);
                Event::Found { id }
            }
            Command::FindAll { selector } => {
                let want_enabled = selector.ends_with(".button-on");
                let mut ids = Vec::new();
                for i in 0..self.rows_enabled.len() {
                    if self.rows_enabled[i] == want_enabled {
                        ids.push(self.fresh(Meaning::Row(i)));
                    }
                }
                self.scans
                    .push((selector.clone(), ids.len(), self.enabled_count()));
                Event::FoundAll { ids }
            }
            Command::Click { element } => {
                match self.meanings.get(element).copied() {
                    Some(Meaning::Row(i)) => {
                        self.rows_enabled[i] = !self.rows_enabled[i];
                        self.row_clicks += 1;
                    }
                    Some(Meaning::Apply) => {
                        self.apply_clicks += 1;
                    }
                    Some(Meaning::NavTitle) => {
                        self.nav_title_clicks += 1;
                    }
                    _ => {}
                }
                Event::Completed
            }
            Command::SendKeys { .. } => Event::Completed,
            Command::ReadInnerHtml { element } => {
                let text = match self.meanings.get(element).copied() {
                    Some(Meaning::NavTitle) => self.nav_label.clone(),
                    Some(Meaning::SubTitle) => self.sub_label.clone(),
                    _ => String::new(),
                };
                Event::Text { text }
            }
            Command::Sleep { .. } => Event::Completed,
            Command::WaitNotDisplayed { .. } => Event::Completed,
            Command::CloseSession => {
                self.closes += 1;
                if self.fail_close {
                    Event::Failed {
                        kind: FailureKind::Protocol,
                        detail: String::from("session already gone"),
                    }
                } else {
                    Event::Completed
                }
            }
        }
    }
}

fn run_against(fake: &mut FakeRouter) -> Workflow {
    let (mut wf, mut cmd) = Workflow::start(test_config());
    let mut steps = 0u32;
    while let Some(c) = cmd {
        let ev = fake.perform(&c);
        cmd = wf.step(ev);
        steps += 1;
        assert!(steps < 10_000, "the machine must terminate");
    }
    assert!(matches!(wf.current_phase(), Phase::Finished));
    wf
}

#[test]
fn start_issues_session_creation() {
    let (wf, cmd) = Workflow::start(test_config());
    assert!(matches!(wf.current_phase(), Phase::Opening));
    match cmd {
        Some(Command::OpenSession {
            server_url,
            implicit_wait_ms,
            headless,
            disable_gpu,
        }) => {
            assert_eq!(server_url, "http://localhost:9515");
            assert_eq!(implicit_wait_ms, 3000);
            assert!(headless);
            assert!(disable_gpu);
        }
        _ => panic!("the first command must create the session"),
    }
}

#[test]
fn end_to_end_two_enabled_one_disabled() {
    let mut fake = FakeRouter::new(vec![true, true, false]);
    let wf = run_against(&mut fake);
    // Disable pass flips the 2 enabled rows off; enable pass flips all 3 on.
    assert_eq!(fake.rows_enabled, vec![true, true, true]);
    assert_eq!(fake.scans.len(), 2);
    assert_eq!(fake.scans[0].1, 2, "disable pass must scan the 2 enabled rows");
    assert_eq!(fake.scans[0].2, 2);
    assert_eq!(
        fake.scans[1].2, 0,
        "after applying and settling the disable pass, no row is enabled"
    );
    assert_eq!(fake.scans[1].1, 3, "enable pass must scan all 3 disabled rows");
    assert_eq!(fake.row_clicks, 5);
    assert_eq!(fake.apply_clicks, 2, "each pass applies exactly once");
    assert_eq!(fake.closes, 1, "the session is closed exactly once");
    assert_eq!(wf.closes_issued(), 1);
    assert!(wf.error().is_none());
    assert!(!wf.close_failed());
}

#[test]
fn disable_pass_empties_the_enabled_set() {
    let mut fake = FakeRouter::new(vec![true, true, true]);
    let wf = run_against(&mut fake);
    assert_eq!(fake.scans[0].1, 3, "3 rows match the enabled locator first");
    assert_eq!(
        fake.scans[1].2, 0,
        "a later enabled-state count is 0 after the disable pass"
    );
    assert_eq!(fake.closes, 1);
    assert!(wf.error().is_none());
}

#[test]
fn empty_scan_still_applies_and_settles() {
    let mut fake = FakeRouter::new(Vec::new());
    let wf = run_against(&mut fake);
    assert_eq!(fake.row_clicks, 0, "no row click on an empty scan");
    assert_eq!(
        fake.apply_clicks, 2,
        "both passes still apply although nothing matched"
    );
    assert_eq!(fake.closes, 1);
    assert!(wf.error().is_none());
    assert!(!wf.close_failed());
}

#[test]
fn nav_label_mismatch_fails_before_any_nav_click() {
    let mut fake = FakeRouter::new(vec![true]);
    fake.nav_label = String::from("Internot");
    let wf = run_against(&mut fake);
    assert_eq!(
        fake.nav_title_clicks, 0,
        "the mismatched item is never clicked"
    );
    assert_eq!(fake.scans.len(), 0, "no toggle step runs after the tripwire");
    assert_eq!(fake.apply_clicks, 0);
    assert_eq!(fake.closes, 1, "the session is still closed");
    match wf.error() {
        Some(WorkflowError::Assertion { expected, actual }) => {
            assert_eq!(expected, "Internet");
            assert_eq!(actual, "Internot");
        }
        _ => panic!("a label mismatch must be an assertion failure"),
    }
}

#[test]
fn sub_label_mismatch_is_assertion_failure() {
    let mut fake = FakeRouter::new(vec![true]);
    fake.sub_label = String::from("IPv4 Host Exposure");
    let wf = run_against(&mut fake);
    assert_eq!(fake.scans.len(), 0);
    assert_eq!(fake.closes, 1);
    match wf.error() {
        Some(WorkflowError::Assertion { expected, actual }) => {
            assert_eq!(expected, "IPv6 Host Exposure");
            assert_eq!(actual, "IPv4 Host Exposure");
        }
        _ => panic!("a label mismatch must be an assertion failure"),
    }
}

#[test]
fn element_not_found_closes_the_session() {
    let mut fake = FakeRouter::new(vec![true]);
    fake.fail_find = Some(String::from("input[type='password']#Password_m"));
    let wf = run_against(&mut fake);
    assert_eq!(fake.closes, 1, "a step failure still closes the session");
    match wf.error() {
        Some(WorkflowError::Protocol { kind, .. }) => {
            assert_eq!(*kind, FailureKind::ElementNotFound);
        }
        _ => panic!("a lookup failure must surface as a protocol error"),
    }
}

#[test]
fn open_failure_means_nothing_to_close() {
    let mut fake = FakeRouter::new(vec![true]);
    fake.fail_open = true;
    let wf = run_against(&mut fake);
    assert_eq!(fake.opens, 0);
    assert_eq!(fake.closes, 0, "no session was opened, none is closed");
    assert_eq!(wf.opens_issued(), 0);
    assert_eq!(wf.closes_issued(), 0);
    assert!(matches!(
        wf.error(),
        Some(WorkflowError::Protocol { kind: FailureKind::SessionCreate, .. })
    ));
}

#[test]
fn close_failure_does_not_replace_success() {
    let mut fake = FakeRouter::new(vec![false]);
    fake.fail_close = true;
    let wf = run_against(&mut fake);
    assert_eq!(fake.closes, 1);
    assert!(wf.error().is_none(), "a close-only failure replaces no result");
    assert!(wf.close_failed());
}

#[test]
fn close_failure_does_not_replace_step_failure() {
    let mut fake = FakeRouter::new(vec![false]);
    fake.nav_label = String::from("Changed");
    fake.fail_close = true;
    let wf = run_against(&mut fake);
    assert_eq!(fake.closes, 1);
    assert!(matches!(wf.error(), Some(WorkflowError::Assertion { .. })));
    assert!(wf.close_failed());
}

#[test]
fn out_of_protocol_answer_fails_and_still_closes() {
    let (mut wf, _cmd) = Workflow::start(test_config());
    // Session opened, navigation command in flight.
    let _ = wf.step(Event::Completed);
    // Answer the navigation with an element instead of a completion.
    let cmd = wf.step(Event::Found { id: 3 });
    assert!(matches!(cmd, Some(Command::CloseSession)));
    let cmd = wf.step(Event::Completed);
    assert!(cmd.is_none());
    assert!(matches!(wf.current_phase(), Phase::Finished));
    assert!(matches!(wf.error(), Some(WorkflowError::UnexpectedResponse)));
    assert_eq!(wf.closes_issued(), 1);
}

#[test]
fn credential_is_typed_into_the_password_field() {
    // Follow the machine by hand up to the send-keys command.
    let (mut wf, mut cmd) = Workflow::start(test_config());
    // Session opened, navigation done.
    assert!(matches!(cmd, Some(Command::OpenSession { .. })));
    cmd = wf.step(Event::Completed);
    assert!(matches!(cmd, Some(Command::Goto { ref url }) if url == "http://192.168.0.1/"));
    cmd = wf.step(Event::Completed);
    match cmd {
        Some(Command::Find { ref selector }) => {
            assert_eq!(selector, "input[type='password']#Password_m");
        }
        _ => panic!("login starts at the password field"),
    }
    cmd = wf.step(Event::Found { id: 7 });
    assert!(matches!(cmd, Some(Command::Click { element: 7 })));
    cmd = wf.step(Event::Completed);
    match cmd {
        Some(Command::SendKeys { element, ref text }) => {
            assert_eq!(element, 7);
            assert_eq!(text, "hunter2");
        }
        _ => panic!("the credential is typed into the focused field"),
    }
}
