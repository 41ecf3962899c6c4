//! The login sessions of the host: at most one per provider, from the
//! request that opens its window to the window's destruction.
//!
//! The manager decides; the host acts. Each method takes what the host
//! observed (a request, a navigation attempt, a timer, a destroyed window)
//! and returns what the host is to do.

use vstd::prelude::*;
use vstd::string::StringExecFns;
use crate::provider::{descriptor_of, in_registry, law_unknown_key_is_default, lookup};
use crate::provider::{DescriptorModel, ProviderDescriptor};
use crate::script::{observer_script, render_observer_script};
use crate::signal::{judge, judge_navigation, sentinel_prefix, token_marker};
use crate::signal::{Verdict, VerdictModel};
use crate::text::{find, opt_view, same_text, starts_with};

verus! {

/// Where a session stands in its life.
#[derive(Clone, Copy, PartialEq, Eq, Structural, Debug)]
pub enum Phase {
    /// The window is open and no token has been reported.
    Observing,
    /// The token has been reported; the window is still open.
    Captured,
    /// The host has been told to destroy the window.
    Closing,
}

/// One open login session.
struct Session {
    pub label: String,
    pub phase: Phase,
}

/// The open sessions by window label.
pub type Table = Map<Seq<char>, Phase>;

/// The window that the host is to create.
#[derive(Debug)]
pub struct WindowPlan {
    pub label: String,
    pub url: String,
    pub title: String,
    /// Runs in the window before any script of the page.
    pub script: String,
    pub width: u32,
    pub height: u32,
    pub resizable: bool,
    /// Cookies and storage of an earlier attempt are cleared before use.
    pub clear_browsing_data: bool,
}

/// A window plan as plain values.
pub ghost struct WindowPlanModel {
    pub label: Seq<char>,
    pub url: Seq<char>,
    pub title: Seq<char>,
    pub script: Seq<char>,
    pub width: u32,
    pub height: u32,
    pub resizable: bool,
    pub clear_browsing_data: bool,
}

impl View for WindowPlan {
    type V = WindowPlanModel;

    open spec fn view(&self) -> WindowPlanModel {
        WindowPlanModel {
            label: self.label@,
            url: self.url@,
            title: self.title@,
            script: self.script@,
            width: self.width,
            height: self.height,
            resizable: self.resizable,
            clear_browsing_data: self.clear_browsing_data,
        }
    }
}

/// What the host does on a login request.
#[derive(Debug)]
pub enum LoginAction {
    /// The provider's window exists: bring it to the front, and nothing else.
    Focus(String),
    /// Create the window.
    Open(WindowPlan),
}

/// A login action as plain values.
pub ghost enum LoginActionModel {
    Focus(Seq<char>),
    Open(WindowPlanModel),
}

impl View for LoginAction {
    type V = LoginActionModel;

    open spec fn view(&self) -> LoginActionModel {
        match self {
            LoginAction::Focus(l) => LoginActionModel::Focus(l@),
            LoginAction::Open(p) => LoginActionModel::Open(p@),
        }
    }
}

/// What the host does on a navigation attempt in a login window.
#[derive(Debug)]
pub struct NavigationOutcome {
    /// May the navigation go on?
    pub allow: bool,
    /// The token to report as a success, where there is one.
    pub success: Option<String>,
    /// After how many milliseconds the window is to be closed, where it is.
    pub close_after_ms: Option<u64>,
}

/// A navigation outcome as plain values.
pub ghost struct OutcomeModel {
    pub allow: bool,
    pub success: Option<Seq<char>>,
    pub close_after_ms: Option<u64>,
}

impl View for NavigationOutcome {
    type V = OutcomeModel;

    open spec fn view(&self) -> OutcomeModel {
        OutcomeModel {
            allow: self.allow,
            success: match self.success {
                Some(t) => Some(t@),
                None => None,
            },
            close_after_ms: self.close_after_ms,
        }
    }
}

/// The time between a capture and the closing of its window.
pub const CLOSE_DELAY_MS: u64 = 500;

/// The window label of a provider key.
pub open spec fn label_of(key: Seq<char>) -> Seq<char> {
    "login-"@ + key
}

/// The window of a provider.
pub open spec fn plan_of(d: DescriptorModel) -> WindowPlanModel {
    WindowPlanModel {
        label: label_of(d.key),
        url: d.login_url,
        title: d.title,
        script: observer_script(d.auth_match_pattern, d.poll_url),
        width: 500,
        height: 700,
        resizable: false,
        clear_browsing_data: true,
    }
}

/// The action on a login request: focus where the provider's window is
/// open, create it otherwise.
pub open spec fn request_action(t: Table, provider: Option<Seq<char>>) -> LoginActionModel {
    let d = descriptor_of(provider);
    if t.dom().contains(label_of(d.key)) {
        LoginActionModel::Focus(label_of(d.key))
    } else {
        LoginActionModel::Open(plan_of(d))
    }
}

/// The sessions after a login request.
pub open spec fn after_request(t: Table, provider: Option<Seq<char>>) -> Table {
    let l = label_of(descriptor_of(provider).key);
    if t.dom().contains(l) {
        t
    } else {
        t.insert(l, Phase::Observing)
    }
}

/// Does a navigation to `url` in the window `label` report a token? Only a
/// signal with a token does, and only while the session is observing.
pub open spec fn reports_token(t: Table, label: Seq<char>, url: Seq<char>) -> bool {
    judge(url) is Capture && t.dom().contains(label) && t[label] == Phase::Observing
}

/// The outcome of a navigation attempt.
pub open spec fn navigation_outcome(t: Table, label: Seq<char>, url: Seq<char>) -> OutcomeModel {
    match judge(url) {
        VerdictModel::Proceed => OutcomeModel { allow: true, success: None, close_after_ms: None },
        VerdictModel::Discard => OutcomeModel { allow: false, success: None, close_after_ms: None },
        VerdictModel::Capture(token) => if reports_token(t, label, url) {
            OutcomeModel {
                allow: false,
                success: Some(token),
                close_after_ms: Some(CLOSE_DELAY_MS),
            }
        } else {
            OutcomeModel { allow: false, success: None, close_after_ms: None }
        },
    }
}

/// The sessions after a navigation attempt.
pub open spec fn after_navigation(t: Table, label: Seq<char>, url: Seq<char>) -> Table {
    if reports_token(t, label, url) {
        t.insert(label, Phase::Captured)
    } else {
        t
    }
}

/// The sessions after the host was asked to close the window `label`.
pub open spec fn after_close(t: Table, label: Seq<char>) -> Table {
    if t.dom().contains(label) {
        t.insert(label, Phase::Closing)
    } else {
        t
    }
}

spec fn holds(s: Seq<Session>, l: Seq<char>) -> bool {
    exists|i: int| 0 <= i < s.len() && (#[trigger] s[i]).label@ == l
}

spec fn slot(s: Seq<Session>, l: Seq<char>) -> int {
    choose|i: int| 0 <= i < s.len() && (#[trigger] s[i]).label@ == l
}

spec fn distinct(s: Seq<Session>) -> bool {
    forall|i: int, j: int| 0 <= i < j < s.len() ==> (#[trigger] s[i]).label@ != (#[trigger] s[j]).label@
}

spec fn table_of(s: Seq<Session>) -> Table {
    Map::new(|l: Seq<char>| holds(s, l), |l: Seq<char>| s[slot(s, l)].phase)
}

proof fn lemma_slot(s: Seq<Session>, i: int)
    requires
        distinct(s),
        0 <= i < s.len(),
    ensures
        holds(s, s[i].label@),
        slot(s, s[i].label@) == i,
        table_of(s).dom().contains(s[i].label@),
        table_of(s)[s[i].label@] == s[i].phase,
{
    let l = s[i].label@;
    assert(holds(s, l));
    let k = slot(s, l);
    assert(0 <= k < s.len() && s[k].label@ == l);
    if k < i {
        assert(s[k].label@ != s[i].label@);
    } else if i < k {
        assert(s[i].label@ != s[k].label@);
    }
}

proof fn lemma_push(s: Seq<Session>, x: Session)
    requires
        distinct(s),
        !holds(s, x.label@),
    ensures
        distinct(s.push(x)),
        table_of(s.push(x)) == table_of(s).insert(x.label@, x.phase),
{
    let s2 = s.push(x);
    assert forall|i: int, j: int| 0 <= i < j < s2.len() implies (#[trigger] s2[i]).label@ != (
    #[trigger] s2[j]).label@ by {
        if j < s.len() {
            assert(s[i].label@ != s[j].label@);
        } else {
            assert(s2[i] == s[i]);
            if s[i].label@ == x.label@ {
                assert(holds(s, x.label@));
            }
        }
    }
    let a = table_of(s2);
    let b = table_of(s).insert(x.label@, x.phase);
    assert forall|l: Seq<char>| a.dom().contains(l) <==> b.dom().contains(l) by {
        if holds(s2, l) {
            let i = slot(s2, l);
            if i < s.len() {
                assert(s[i] == s2[i]);
                assert(holds(s, l));
            }
        }
        if holds(s, l) {
            let i = slot(s, l);
            assert(s2[i] == s[i]);
            assert(holds(s2, l));
        }
        if l == x.label@ {
            assert(s2[s.len() as int] == x);
            assert(holds(s2, l));
        }
    }
    assert forall|l: Seq<char>| a.dom().contains(l) implies a[l] == b[l] by {
        let i = slot(s2, l);
        lemma_slot(s2, i);
        if i < s.len() {
            assert(s2[i] == s[i]);
            lemma_slot(s, i);
        }
    }
    assert(a =~= b);
}

proof fn lemma_remove(s: Seq<Session>, i: int)
    requires
        distinct(s),
        0 <= i < s.len(),
    ensures
        distinct(s.remove(i)),
        !holds(s.remove(i), s[i].label@),
        table_of(s.remove(i)) == table_of(s).remove(s[i].label@),
{
    let s2 = s.remove(i);
    let gone = s[i].label@;
    assert forall|a: int| 0 <= a < s2.len() implies #[trigger] s2[a] == s[if a < i {
        a
    } else {
        a + 1
    }] by {}
    assert forall|a: int, b: int| 0 <= a < b < s2.len() implies (#[trigger] s2[a]).label@ != (
    #[trigger] s2[b]).label@ by {
        let a1 = if a < i { a } else { a + 1 };
        let b1 = if b < i { b } else { b + 1 };
        assert(s[a1].label@ != s[b1].label@);
    }
    if holds(s2, gone) {
        let a = slot(s2, gone);
        let a1 = if a < i { a } else { a + 1 };
        assert(s2[a] == s[a1]);
        if a1 < i {
            assert(s[a1].label@ != s[i].label@);
        } else {
            assert(s[i].label@ != s[a1].label@);
        }
    }
    let x = table_of(s2);
    let y = table_of(s).remove(gone);
    assert forall|l: Seq<char>| x.dom().contains(l) <==> y.dom().contains(l) by {
        if holds(s2, l) {
            let a = slot(s2, l);
            let a1 = if a < i { a } else { a + 1 };
            assert(s2[a] == s[a1]);
            assert(holds(s, l));
        }
        if holds(s, l) && l != gone {
            let a1 = slot(s, l);
            let a = if a1 < i { a1 } else { a1 - 1 };
            assert(s2[a] == s[a1]);
            assert(holds(s2, l));
        }
    }
    assert forall|l: Seq<char>| x.dom().contains(l) implies x[l] == y[l] by {
        let a = slot(s2, l);
        let a1 = if a < i { a } else { a + 1 };
        assert(s2[a] == s[a1]);
        lemma_slot(s2, a);
        lemma_slot(s, a1);
    }
    assert(x =~= y);
}

/// The sessions of the host.
pub struct LoginManager {
    sessions: Vec<Session>,
}

impl View for LoginManager {
    type V = Table;

    closed spec fn view(&self) -> Table {
        table_of(self.sessions@)
    }
}

impl LoginManager {
    /// No two sessions share a label.
    pub closed spec fn wf(&self) -> bool {
        distinct(self.sessions@)
    }

    /// A manager without sessions.
    pub fn new() -> (m: LoginManager)
        ensures
            m.wf(),
            m@ == Map::<Seq<char>, Phase>::empty(),
    {
        let m = LoginManager { sessions: Vec::new() };
        assert(m@ =~= Map::<Seq<char>, Phase>::empty());
        m
    }

    fn locate(&self, label: &str) -> (r: Option<usize>)
        requires
            self.wf(),
        ensures
            match r {
                Some(i) => i < self.sessions@.len() && self.sessions@[i as int].label@ == label@
                    && self@.dom().contains(label@) && self@[label@]
                    == self.sessions@[i as int].phase,
                None => !holds(self.sessions@, label@) && !self@.dom().contains(label@),
            },
    {
        let mut i: usize = 0;
        while i < self.sessions.len()
            invariant
                self.wf(),
                i <= self.sessions@.len(),
                forall|j: int| 0 <= j < i ==> (#[trigger] self.sessions@[j]).label@ != label@,
            decreases self.sessions@.len() - i,
        {
            if same_text(self.sessions[i].label.as_str(), label) {
                proof {
                    lemma_slot(self.sessions@, i as int);
                }
                return Some(i);
            }
            i += 1;
        }
        None
    }

    /// The phase of the session in the window `label`, where there is one.
    pub fn phase_of(&self, label: &str) -> (r: Option<Phase>)
        requires
            self.wf(),
        ensures
            r == (if self@.dom().contains(label@) {
                Some(self@[label@])
            } else {
                None
            }),
    {
        match self.locate(label) {
            Some(i) => Some(self.sessions[i].phase),
            None => None,
        }
    }

    /// The number of open sessions.
    pub fn count(&self) -> (n: usize)
        requires
            self.wf(),
        ensures
            n == self@.dom().len(),
            self@.dom().finite(),
    {
        proof {
            lemma_table_size(self.sessions@);
        }
        self.sessions.len()
    }

    fn put(&mut self, label: String, phase: Phase)
        requires
            old(self).wf(),
        ensures
            final(self).wf(),
            final(self)@ == old(self)@.insert(label@, phase),
    {
        match self.locate(label.as_str()) {
            Some(i) => {
                let _gone: Session = self.sessions.remove(i);
                proof {
                    lemma_remove(old(self).sessions@, i as int);
                }
            },
            None => {},
        }
        let ghost before = self.sessions@;
        let session = Session { label, phase };
        proof {
            lemma_push(before, session);
        }
        self.sessions.push(session);
        assert(self@ =~= old(self)@.insert(label@, phase));
    }

    fn drop_session(&mut self, label: &str)
        requires
            old(self).wf(),
        ensures
            final(self).wf(),
            final(self)@ == old(self)@.remove(label@),
    {
        match self.locate(label) {
            Some(i) => {
                let _gone: Session = self.sessions.remove(i);
                proof {
                    lemma_remove(old(self).sessions@, i as int);
                }
            },
            None => {
                assert(self@ =~= old(self)@.remove(label@));
            },
        }
    }

    /// A login was requested for `provider`. Where the provider's window is
    /// open the host focuses it and nothing changes; otherwise a session
    /// begins and the host creates the window that is returned.
    pub fn request_login(&mut self, provider: Option<&str>) -> (action: LoginAction)
        requires
            old(self).wf(),
        ensures
            final(self).wf(),
            action@ == request_action(old(self)@, opt_view(provider)),
            final(self)@ == after_request(old(self)@, opt_view(provider)),
    {
        let d: ProviderDescriptor = lookup(provider);
        let mut label: String = String::from_str("login-");
        label.append(d.key.as_str());
        match self.locate(label.as_str()) {
            Some(_) => LoginAction::Focus(label),
            None => {
                let script: String = render_observer_script(
                    d.auth_match_pattern.as_str(),
                    d.poll_url.as_str(),
                );
                self.put(label.clone(), Phase::Observing);
                LoginAction::Open(
                    WindowPlan {
                        label,
                        url: d.login_url,
                        title: d.title,
                        script,
                        width: 500,
                        height: 700,
                        resizable: false,
                        clear_browsing_data: true,
                    },
                )
            },
        }
    }

    /// The host could not create the window `label`: its session ends, and
    /// nothing is reported.
    pub fn window_failed(&mut self, label: &str)
        requires
            old(self).wf(),
        ensures
            final(self).wf(),
            final(self)@ == old(self)@.remove(label@),
    {
        self.drop_session(label);
    }

    /// The page in the window `label` tries to navigate to `url`. An
    /// ordinary address goes on. A signal is stopped; the first one with a
    /// token in an observing session reports the token and asks for the
    /// window to be closed after the delay.
    pub fn navigate(&mut self, label: &str, url: &str) -> (outcome: NavigationOutcome)
        requires
            old(self).wf(),
        ensures
            final(self).wf(),
            outcome@ == navigation_outcome(old(self)@, label@, url@),
            final(self)@ == after_navigation(old(self)@, label@, url@),
    {
        match judge_navigation(url) {
            Verdict::Proceed => NavigationOutcome {
                allow: true,
                success: None,
                close_after_ms: None,
            },
            Verdict::Discard => NavigationOutcome {
                allow: false,
                success: None,
                close_after_ms: None,
            },
            Verdict::Capture(token) => {
                let observing: bool = match self.phase_of(label) {
                    Some(Phase::Observing) => true,
                    _ => false,
                };
                if observing {
                    self.put(String::from_str(label), Phase::Captured);
                    NavigationOutcome {
                        allow: false,
                        success: Some(token),
                        close_after_ms: Some(CLOSE_DELAY_MS),
                    }
                } else {
                    NavigationOutcome { allow: false, success: None, close_after_ms: None }
                }
            },
        }
    }

    /// The window `label` is to be closed. Returns whether the host has a
    /// window to destroy; where the window is gone, nothing happens.
    pub fn close(&mut self, label: &str) -> (destroy: bool)
        requires
            old(self).wf(),
        ensures
            final(self).wf(),
            destroy == old(self)@.dom().contains(label@),
            final(self)@ == after_close(old(self)@, label@),
    {
        match self.locate(label) {
            Some(_) => {
                self.put(String::from_str(label), Phase::Closing);
                true
            },
            None => false,
        }
    }

    /// The window `label` was destroyed, by whatever cause. Its session
    /// ends. Returns whether a login window went, so that the host reports
    /// it as closed.
    pub fn window_destroyed(&mut self, label: &str) -> (report_closed: bool)
        requires
            old(self).wf(),
        ensures
            final(self).wf(),
            report_closed == old(self)@.dom().contains(label@),
            final(self)@ == old(self)@.remove(label@),
    {
        let open: bool = self.locate(label).is_some();
        self.drop_session(label);
        open
    }
}

proof fn lemma_table_size(s: Seq<Session>)
    requires
        distinct(s),
    ensures
        table_of(s).dom().finite(),
        table_of(s).dom().len() == s.len(),
    decreases s.len(),
{
    if s.len() == 0 {
        assert(table_of(s).dom() =~= Set::<Seq<char>>::empty());
    } else {
        let i = s.len() - 1;
        lemma_remove(s, i);
        let r = s.remove(i);
        lemma_table_size(r);
        lemma_push(r, s[i]);
        assert(r.push(s[i]) =~= s);
        assert(table_of(s).dom() =~= table_of(r).dom().insert(s[i].label@));
        assert(!table_of(r).dom().contains(s[i].label@));
    }
}

/// One thing that the host observes, as plain values.
pub ghost enum Step {
    /// A login request, with its provider key.
    Request(Option<Seq<char>>),
    /// A navigation attempt: the window's label and the address.
    Navigate(Seq<char>, Seq<char>),
    /// The close timer of a window fired.
    Close(Seq<char>),
    /// A window was destroyed.
    Destroyed(Seq<char>),
    /// A window could not be created.
    Failed(Seq<char>),
}

/// The sessions after one step.
pub open spec fn after_step(t: Table, e: Step) -> Table {
    match e {
        Step::Request(p) => after_request(t, p),
        Step::Navigate(l, u) => after_navigation(t, l, u),
        Step::Close(l) => after_close(t, l),
        Step::Destroyed(l) => t.remove(l),
        Step::Failed(l) => t.remove(l),
    }
}

/// Does the step report a token for the window `label`?
pub open spec fn step_reports(t: Table, e: Step, label: Seq<char>) -> bool {
    match e {
        Step::Navigate(l, u) => l == label && reports_token(t, l, u),
        _ => false,
    }
}

/// Does the step end the session of the window `label`?
pub open spec fn step_ends(e: Step, label: Seq<char>) -> bool {
    match e {
        Step::Destroyed(l) => l == label,
        Step::Failed(l) => l == label,
        _ => false,
    }
}

/// How many tokens a run of steps reports for the window `label`.
pub open spec fn reports_in(t: Table, steps: Seq<Step>, label: Seq<char>) -> nat
    decreases steps.len(),
{
    if steps.len() == 0 {
        0
    } else {
        let now: nat = if step_reports(t, steps[0], label) {
            1
        } else {
            0
        };
        now + reports_in(after_step(t, steps[0]), steps.drop_first(), label)
    }
}

/// A request with a key outside the registry acts, on every set of
/// sessions, as a request without a key does.
pub proof fn law_unknown_provider_acts_as_default(t: Table, key: Seq<char>)
    requires
        !in_registry(key),
    ensures
        request_action(t, Some(key)) == request_action(t, None),
        after_request(t, Some(key)) == after_request(t, None),
{
    law_unknown_key_is_default(key);
}

/// Two requests in a row for one provider give one session: whatever the
/// first did, the second focuses the provider's window and changes nothing,
/// and the first added at most that one session.
pub proof fn law_second_request_focuses(t: Table, provider: Option<Seq<char>>)
    ensures
        ({
            let l = label_of(descriptor_of(provider).key);
            let once = after_request(t, provider);
            &&& once.dom().contains(l)
            &&& once.dom() == t.dom().insert(l)
            &&& request_action(once, provider) == LoginActionModel::Focus(l)
            &&& after_request(once, provider) == once
        }),
{
    let l = label_of(descriptor_of(provider).key);
    let once = after_request(t, provider);
    assert(once.dom() =~= t.dom().insert(l));
}

/// While the session of a window is not ended, at most one token is ever
/// reported for it, and none once it has left the observing phase.
pub proof fn law_at_most_one_success(t: Table, steps: Seq<Step>, label: Seq<char>)
    requires
        forall|i: int| 0 <= i < steps.len() ==> !step_ends(#[trigger] steps[i], label),
    ensures
        reports_in(t, steps, label) <= 1,
        t.dom().contains(label) && t[label] != Phase::Observing ==> reports_in(t, steps, label)
            == 0,
    decreases steps.len(),
{
    if steps.len() > 0 {
        let e = steps[0];
        let rest = steps.drop_first();
        let next = after_step(t, e);
        assert(!step_ends(e, label));
        assert forall|i: int| 0 <= i < rest.len() implies !step_ends(#[trigger] rest[i], label) by {
            assert(rest[i] == steps[i + 1]);
        }
        law_at_most_one_success(next, rest, label);
        if step_reports(t, e, label) {
            assert(next.dom().contains(label) && next[label] == Phase::Captured);
        }
        if t.dom().contains(label) && t[label] != Phase::Observing {
            assert(!step_reports(t, e, label));
            assert(next.dom().contains(label) && next[label] != Phase::Observing);
        }
    }
}

/// An address outside the signal channel is let through in every session,
/// and the sessions stay as they are.
pub proof fn law_ordinary_navigation_is_untouched(t: Table, label: Seq<char>, url: Seq<char>)
    requires
        !starts_with(url, sentinel_prefix()),
    ensures
        navigation_outcome(t, label, url) == (OutcomeModel {
            allow: true,
            success: None,
            close_after_ms: None,
        }),
        after_navigation(t, label, url) == t,
{
}

/// A signal without a token marker is stopped, reports nothing, asks for no
/// close and leaves the sessions as they are.
pub proof fn law_signal_without_token_is_dropped(t: Table, label: Seq<char>, url: Seq<char>)
    requires
        starts_with(url, sentinel_prefix()),
        find(url, token_marker()).is_none(),
    ensures
        navigation_outcome(t, label, url) == (OutcomeModel {
            allow: false,
            success: None,
            close_after_ms: None,
        }),
        after_navigation(t, label, url) == t,
{
}

/// Once a window is destroyed nothing is reported for it until a new
/// request opens it again: a report of success never follows the report of
/// the window's end within one session.
pub proof fn law_no_success_after_destruction(t: Table, label: Seq<char>, url: Seq<char>)
    ensures
        navigation_outcome(t.remove(label), label, url).success.is_none(),
        after_navigation(t.remove(label), label, url) == t.remove(label),
{
}

/// A capture is followed through to the window's end: the signal with a
/// token in an observing session reports that token and asks for the close
/// after the delay; the close then finds the window to destroy; and the
/// destruction is reported and leaves no session behind.
pub proof fn law_capture_leads_to_close(t: Table, label: Seq<char>, url: Seq<char>)
    requires
        t.dom().contains(label),
        t[label] == Phase::Observing,
        judge(url) is Capture,
    ensures
        ({
            let captured = after_navigation(t, label, url);
            let closing = after_close(captured, label);
            &&& navigation_outcome(t, label, url).allow == false
            &&& navigation_outcome(t, label, url).success == Some(judge(url)->Capture_0)
            &&& navigation_outcome(t, label, url).close_after_ms == Some(CLOSE_DELAY_MS)
            &&& captured.dom().contains(label)
            &&& closing.dom().contains(label)
            &&& !closing.remove(label).dom().contains(label)
        }),
{
}

/// Closing a window that is gone changes nothing and asks for nothing, so
/// a second close after the window's destruction is no error.
pub proof fn law_close_of_absent_window_is_noop(t: Table, label: Seq<char>)
    ensures
        after_close(t.remove(label), label) == t.remove(label),
        !t.remove(label).dom().contains(label),
        after_close(after_close(t, label), label) == after_close(t, label),
{
    assert(after_close(after_close(t, label), label) =~= after_close(t, label));
}

/// The name under which a captured token is reported.
pub fn success_event() -> (name: String)
    ensures
        name@ == "login-success"@,
{
    String::from_str("login-success")
}

/// The name under which the end of a login window is reported.
pub fn closed_event() -> (name: String)
    ensures
        name@ == "login-closed"@,
{
    String::from_str("login-closed")
}

} // verus!
