//! One run that brings a devnet up: an optional full reset, a single start
//! request, readiness waits on node, faucet and backend in that order, and the
//! final report.
//!
//! The run decides; its caller acts. `next_action` says what the caller must
//! do now, and `advance` takes back whether that succeeded. The first failure
//! ends the run: from then on the only action is `Abort`.
use vstd::prelude::*;
use crate::report::{connection_report, report_for, ConnectionReport, ReportView};
use crate::topology::{Backend, Service, backend_id_spec, backend_of, topology};

verus! {

/// A phase of a run that asks something of the outside world.
#[derive(Clone, Copy, Debug, PartialEq, Eq, Structural)]
pub enum Step {
    /// Tear every service down and discard its data.
    Reset,
    /// Ask the container runtime to start the topology.
    Start,
    WaitNode,
    WaitFaucet,
    WaitBackend,
    /// Finalise the progress display and print the connection report.
    Finish,
}

/// Which phase of a run failed.
#[derive(Clone, Copy, Debug, PartialEq, Eq, Structural)]
pub enum RunError {
    ResetFailure,
    StartFailure,
    /// The service that never became ready.
    ReadinessFailure(Service),
}

/// The phases of a run, in the order they happen.
pub open spec fn plan(b: Backend, fresh: bool) -> Seq<Step> {
    let reset: Seq<Step> = if fresh { seq![Step::Reset] } else { seq![] };
    let backend: Seq<Step> = if b != Backend::NoBackend { seq![Step::WaitBackend] } else { seq![] };
    reset + seq![Step::Start, Step::WaitNode, Step::WaitFaucet] + backend + seq![Step::Finish]
}

/// The error a run ends with when `s` fails.
pub open spec fn failure_of(s: Step, b: Backend) -> RunError {
    match s {
        Step::Reset => RunError::ResetFailure,
        Step::Start => RunError::StartFailure,
        Step::WaitNode => RunError::ReadinessFailure(Service::Node),
        Step::WaitFaucet => RunError::ReadinessFailure(Service::Faucet),
        Step::WaitBackend => RunError::ReadinessFailure(
            if b == Backend::ZainoIndexer { Service::WalletIndexer } else { Service::WalletServer },
        ),
        // Finishing cannot fail: `advance` does not take a failure for it.
        Step::Finish => RunError::StartFailure,
    }
}

/// What a caller must do next.
pub enum Action {
    /// Tear the devnet down, data included.
    Reset,
    /// Start exactly these services, in this order.
    Start { services: Vec<Service> },
    /// Show `message`, then wait until the node is ready.
    WaitNode { message: String },
    /// Show `message`, then wait until the faucet is ready.
    WaitFaucet { message: String },
    /// Show `message`, then wait until the backend named `backend_id` is ready.
    WaitBackend { backend_id: String, message: String },
    /// Finalise the progress display with `message`, then print `report`.
    Finish { message: String, report: ConnectionReport },
    /// The run failed: stop, and print no report.
    Abort(RunError),
    /// The run is over and succeeded.
    Done,
}

pub enum ActionView {
    Reset,
    Start { services: Seq<Service> },
    WaitNode { message: Seq<char> },
    WaitFaucet { message: Seq<char> },
    WaitBackend { backend_id: Seq<char>, message: Seq<char> },
    Finish { message: Seq<char>, report: ReportView },
    Abort(RunError),
    Done,
}

impl View for Action {
    type V = ActionView;

    open spec fn view(&self) -> ActionView {
        match self {
            Action::Reset => ActionView::Reset,
            Action::Start { services } => ActionView::Start { services: services@ },
            Action::WaitNode { message } => ActionView::WaitNode { message: message@ },
            Action::WaitFaucet { message } => ActionView::WaitFaucet { message: message@ },
            Action::WaitBackend { backend_id, message } => ActionView::WaitBackend {
                backend_id: backend_id@,
                message: message@,
            },
            Action::Finish { message, report } => ActionView::Finish {
                message: message@,
                report: report@,
            },
            Action::Abort(e) => ActionView::Abort(*e),
            Action::Done => ActionView::Done,
        }
    }
}

/// The progress text shown while waiting on a backend.
pub open spec fn backend_wait_message(b: Backend) -> Seq<char> {
    if b == Backend::ZainoIndexer {
        "Waiting for zaino..."@
    } else {
        "Waiting for lwd..."@
    }
}

/// The action that carries out step `s` of a run with backend `b`.
pub open spec fn action_for(s: Step, b: Backend) -> ActionView {
    match s {
        Step::Reset => ActionView::Reset,
        Step::Start => ActionView::Start { services: topology(b) },
        Step::WaitNode => ActionView::WaitNode { message: "Waiting for Zebra..."@ },
        Step::WaitFaucet => ActionView::WaitFaucet { message: "Waiting for Faucet..."@ },
        Step::WaitBackend => ActionView::WaitBackend {
            backend_id: backend_id_spec(b),
            message: backend_wait_message(b),
        },
        Step::Finish => ActionView::Finish {
            message: "All services ready!"@,
            report: report_for(b),
        },
    }
}

/// A run as its contracts see it: how many steps have succeeded, and the
/// error it ended with, if one came.
pub struct RunState {
    pub backend: Backend,
    pub fresh: bool,
    pub done: nat,
    pub failed: Option<RunError>,
}

impl RunState {
    pub open spec fn steps(self) -> Seq<Step> {
        plan(self.backend, self.fresh)
    }

    /// Every succeeded step is a step of the plan, and a failure belongs to
    /// the step that was under way.
    pub open spec fn valid(self) -> bool {
        &&& self.done <= self.steps().len()
        &&& self.failed matches Some(e) ==> self.done < self.steps().len() && e == failure_of(
            self.steps()[self.done as int],
            self.backend,
        )
    }

    /// Neither failed nor finished.
    pub open spec fn in_progress(self) -> bool {
        self.failed is None && self.done < self.steps().len()
    }

    /// The steps the caller has been asked to carry out so far: those that
    /// succeeded and, after a failure, the one that failed.
    pub open spec fn issued(self) -> Seq<Step> {
        if self.failed is Some {
            self.steps().take(self.done as int + 1)
        } else {
            self.steps().take(self.done as int)
        }
    }

    /// What the caller is asked to do in this state.
    pub open spec fn next(self) -> ActionView {
        if let Some(e) = self.failed {
            ActionView::Abort(e)
        } else if self.done < self.steps().len() {
            action_for(self.steps()[self.done as int], self.backend)
        } else {
            ActionView::Done
        }
    }
}

/// One run of bringing a devnet up.
pub struct Devnet {
    backend: Backend,
    fresh: bool,
    steps: Vec<Step>,
    done: usize,
    failed: Option<RunError>,
}

impl View for Devnet {
    type V = RunState;

    closed spec fn view(&self) -> RunState {
        RunState {
            backend: self.backend,
            fresh: self.fresh,
            done: self.done as nat,
            failed: self.failed,
        }
    }
}

impl Devnet {
    pub closed spec fn wf(&self) -> bool {
        &&& self@.valid()
        &&& self.steps@ == plan(self.backend, self.fresh)
    }

    /// A run that has not started, for the backend named `backend_id`; with
    /// `fresh` it begins with a full reset.
    pub fn new(backend_id: &str, fresh: bool) -> (r: Devnet)
        ensures
            r.wf(),
            r@ == (RunState { backend: backend_of(backend_id@), fresh, done: 0, failed: None }),
    {
        let backend = Backend::from_id(backend_id);
        let mut steps: Vec<Step> = Vec::new();
        if fresh {
            steps.push(Step::Reset);
        }
        steps.push(Step::Start);
        steps.push(Step::WaitNode);
        steps.push(Step::WaitFaucet);
        if backend.is_some() {
            steps.push(Step::WaitBackend);
        }
        steps.push(Step::Finish);
        let r = Devnet { backend, fresh, steps, done: 0, failed: None };
        assert(r.steps@ =~= plan(backend, fresh));
        r
    }

    /// The step under way, if the run is in progress.
    pub fn current_step(&self) -> (r: Option<Step>)
        requires
            self.wf(),
        ensures
            r == (if self@.in_progress() { Some(self@.steps()[self@.done as int]) } else { None }),
    {
        if self.failed.is_none() && self.done < self.steps.len() {
            Some(self.steps[self.done])
        } else {
            None
        }
    }

    /// What the caller must do now.
    pub fn next_action(&self) -> (r: Action)
        requires
            self.wf(),
        ensures
            r@ == self@.next(),
    {
        if let Some(e) = self.failed {
            return Action::Abort(e);
        }
        if self.done >= self.steps.len() {
            return Action::Done;
        }
        let b = self.backend;
        match self.steps[self.done] {
            Step::Reset => Action::Reset,
            Step::Start => Action::Start { services: b.services() },
            Step::WaitNode => Action::WaitNode { message: "Waiting for Zebra...".to_owned() },
            Step::WaitFaucet => Action::WaitFaucet { message: "Waiting for Faucet...".to_owned() },
            Step::WaitBackend => {
                let message = if matches!(b, Backend::ZainoIndexer) {
                    "Waiting for zaino...".to_owned()
                } else {
                    "Waiting for lwd...".to_owned()
                };
                Action::WaitBackend { backend_id: b.id().to_owned(), message }
            },
            Step::Finish => Action::Finish {
                message: "All services ready!".to_owned(),
                report: connection_report(b),
            },
        }
    }

    /// Records how the step under way went. A success moves to the next
    /// step; a failure ends the run with that step's error.
    pub fn advance(&mut self, succeeded: bool)
        requires
            old(self).wf(),
            old(self)@.in_progress(),
            !succeeded ==> old(self)@.steps()[old(self)@.done as int] != Step::Finish,
        ensures
            final(self).wf(),
            final(self)@.backend == old(self)@.backend,
            final(self)@.fresh == old(self)@.fresh,
            succeeded ==> final(self)@.done == old(self)@.done + 1 && final(self)@.failed is None,
            !succeeded ==> final(self)@.done == old(self)@.done && final(self)@.failed == Some(
                failure_of(old(self)@.steps()[old(self)@.done as int], old(self)@.backend),
            ),
    {
        if succeeded {
            self.done = self.done + 1;
        } else {
            let e = match self.steps[self.done] {
                Step::Reset => RunError::ResetFailure,
                Step::Start => RunError::StartFailure,
                Step::WaitNode => RunError::ReadinessFailure(Service::Node),
                Step::WaitFaucet => RunError::ReadinessFailure(Service::Faucet),
                Step::WaitBackend => RunError::ReadinessFailure(
                    if matches!(self.backend, Backend::ZainoIndexer) {
                        Service::WalletIndexer
                    } else {
                        Service::WalletServer
                    },
                ),
                Step::Finish => RunError::StartFailure,
            };
            self.failed = Some(e);
        }
    }
}

/// A fresh run resets first, and only then starts anything; a run that is
/// not fresh never resets.
pub proof fn lemma_reset_precedes_start(b: Backend, fresh: bool)
    ensures
        fresh ==> plan(b, fresh)[0] == Step::Reset,
        fresh ==> forall|i: int|
            0 <= i < plan(b, fresh).len() && plan(b, fresh)[i] == Step::Start ==> 0 < i,
        !fresh ==> !plan(b, fresh).contains(Step::Reset),
{
    let p = plan(b, fresh);
    if !fresh {
        assert forall|i: int| 0 <= i < p.len() implies p[i] != Step::Reset by {
            if b != Backend::NoBackend {
                assert(i < 5);
            }
        }
    }
}

/// The readiness waits come in the order node, faucet, backend, each once.
pub proof fn lemma_wait_order(b: Backend, fresh: bool)
    ensures
        forall|i: int, j: int|
            0 <= i < plan(b, fresh).len() && 0 <= j < plan(b, fresh).len() && plan(b, fresh)[i]
                == Step::WaitNode && plan(b, fresh)[j] == Step::WaitFaucet ==> i < j,
        forall|i: int, j: int|
            0 <= i < plan(b, fresh).len() && 0 <= j < plan(b, fresh).len() && plan(b, fresh)[i]
                == Step::WaitFaucet && plan(b, fresh)[j] == Step::WaitBackend ==> i < j,
        forall|i: int, j: int|
            0 <= i < plan(b, fresh).len() && 0 <= j < plan(b, fresh).len() && plan(b, fresh)[i]
                == Step::WaitNode && plan(b, fresh)[j] == Step::WaitBackend ==> i < j,
{
}

/// A run is only ever asked to wait on the faucet once the node wait has
/// succeeded, and on the backend once the faucet wait has.
pub proof fn lemma_waits_follow_success(st: RunState)
    requires
        st.valid(),
        st.in_progress(),
    ensures
        st.steps()[st.done as int] == Step::WaitFaucet ==> exists|i: int|
            0 <= i < st.done && st.steps()[i] == Step::WaitNode,
        st.steps()[st.done as int] == Step::WaitBackend ==> exists|i: int|
            0 <= i < st.done && st.steps()[i] == Step::WaitFaucet,
{
    let p = st.steps();
    let k: int = if st.fresh { 1 } else { 0 };
    assert(p[k + 1] == Step::WaitNode);
    assert(p[k + 2] == Step::WaitFaucet);
}

/// Without a backend no backend wait is ever asked for, and the report lists
/// only the node and the faucet.
pub proof fn lemma_no_backend(fresh: bool)
    ensures
        !plan(Backend::NoBackend, fresh).contains(Step::WaitBackend),
        report_for(Backend::NoBackend).endpoints == seq![
            crate::report::node_endpoint(),
            crate::report::faucet_endpoint(),
        ],
{
    let p = plan(Backend::NoBackend, fresh);
    assert forall|i: int| 0 <= i < p.len() implies p[i] != Step::WaitBackend by {}
}

/// Once the node wait has failed the run is over: neither the faucet nor the
/// backend was waited on, no report was asked for, and the only action left
/// is to abort.
pub proof fn lemma_node_failure_stops(st: RunState)
    requires
        st.valid(),
        st.failed == Some(RunError::ReadinessFailure(Service::Node)),
    ensures
        !st.issued().contains(Step::WaitFaucet),
        !st.issued().contains(Step::WaitBackend),
        !st.issued().contains(Step::Finish),
        st.next() == ActionView::Abort(RunError::ReadinessFailure(Service::Node)),
        !st.in_progress(),
{
    let p = st.steps();
    let k: int = if st.fresh { 1 } else { 0 };
    assert(st.done == k + 1);
    let q = st.issued();
    assert forall|i: int| 0 <= i < q.len() implies q[i] != Step::WaitFaucet && q[i]
        != Step::WaitBackend && q[i] != Step::Finish by {
        assert(q[i] == p[i]);
    }
}

} // verus!
