use vstd::prelude::*;

use crate::config::SockOpt;
use crate::error::NetError;

verus! {

/// One native call made while a socket is set up.
#[derive(Debug, PartialEq, Eq)]
pub enum SetupStep {
    /// Switch non-blocking mode on or off.
    NonBlocking(bool),
    /// Set a socket option.
    SetOption(SockOpt),
    /// Bind to the native address whose bytes are given.
    Bind(Vec<u8>),
    /// Listen with the given backlog.
    Listen(i32),
}

/// The mathematical value of a setup step.
pub enum SetupStepView {
    NonBlocking(bool),
    SetOption(SockOpt),
    Bind(Seq<u8>),
    Listen(i32),
}

impl SetupStepView {
    /// A failure of this step ends the setup; only advisory options are
    /// allowed to fail.
    pub open spec fn is_fatal(self) -> bool {
        match self {
            SetupStepView::SetOption(o) => !o.is_advisory(),
            _ => true,
        }
    }
}

impl View for SetupStep {
    type V = SetupStepView;

    open spec fn view(&self) -> SetupStepView {
        match self {
            SetupStep::NonBlocking(on) => SetupStepView::NonBlocking(*on),
            SetupStep::SetOption(o) => SetupStepView::SetOption(*o),
            SetupStep::Bind(b) => SetupStepView::Bind(b@),
            SetupStep::Listen(n) => SetupStepView::Listen(*n),
        }
    }
}

pub open spec fn steps_view(s: Seq<SetupStep>) -> Seq<SetupStepView> {
    s.map_values(|x: SetupStep| x@)
}

/// Appends a step to a list of setup steps.
pub fn push_step(out: &mut Vec<SetupStep>, s: SetupStep)
    ensures
        steps_view(final(out)@) == steps_view(old(out)@) + seq![s@],
{
    out.push(s);
    assert(steps_view(final(out)@) =~= steps_view(old(out)@) + seq![s@]);
}

/// The outcome of a setup after the given results of its first steps: the
/// first failure of a fatal step, or success.
pub open spec fn setup_outcome(steps: Seq<SetupStepView>, results: Seq<Result<(), NetError>>) -> Result<
    (),
    NetError,
>
    decreases results.len(),
{
    if results.len() == 0 {
        Ok(())
    } else {
        match setup_outcome(steps, results.drop_last()) {
            Err(e) => Err(e),
            Ok(_) => match results.last() {
                Err(e) => if steps[results.len() - 1].is_fatal() {
                    Err(e)
                } else {
                    Ok(())
                },
                Ok(_) => Ok(()),
            },
        }
    }
}

/// What the driver of a setup does next.
#[derive(Copy, Clone, Debug, PartialEq, Eq)]
pub enum SetupAction {
    /// Perform the step at this index and record its result.
    Perform(usize),
    /// The setup is over, with this outcome.
    Finished(Result<(), NetError>),
}

/// The action that follows the given results.
pub open spec fn next_setup_action(
    steps: Seq<SetupStepView>,
    results: Seq<Result<(), NetError>>,
) -> SetupAction {
    match setup_outcome(steps, results) {
        Err(e) => SetupAction::Finished(Err(e)),
        Ok(_) => if results.len() < steps.len() {
            SetupAction::Perform(results.len() as usize)
        } else {
            SetupAction::Finished(Ok(()))
        },
    }
}

/// A setup of a socket in progress: a list of native calls made in order,
/// where the first failure of a fatal step ends the setup with that error
/// and failures of advisory options are passed over.
pub struct SetupSession {
    steps: Vec<SetupStep>,
    next: usize,
    failure: Option<NetError>,
    results: Ghost<Seq<Result<(), NetError>>>,
}

impl SetupSession {
    /// The steps of the setup.
    pub closed spec fn steps(&self) -> Seq<SetupStepView> {
        steps_view(self.steps@)
    }

    /// The results recorded so far, one per step performed.
    pub closed spec fn results(&self) -> Seq<Result<(), NetError>> {
        self.results@
    }

    pub closed spec fn wf(&self) -> bool {
        &&& self.results@.len() == self.next
        &&& self.next <= self.steps@.len()
        &&& self.failure == match setup_outcome(steps_view(self.steps@), self.results@) {
            Ok(_) => None,
            Err(e) => Some(e),
        }
    }

    /// Whether the setup is over.
    pub open spec fn is_finished(&self) -> bool {
        next_setup_action(self.steps(), self.results()) is Finished
    }

    /// A setup of the given steps, none performed yet.
    pub fn new(steps: Vec<SetupStep>) -> (r: SetupSession)
        ensures
            r.wf(),
            r.steps() == steps_view(steps@),
            r.results() == Seq::<Result<(), NetError>>::empty(),
    {
        SetupSession { steps, next: 0, failure: None, results: Ghost(Seq::empty()) }
    }

    /// The number of steps.
    pub fn len(&self) -> (r: usize)
        ensures
            r == self.steps().len(),
    {
        self.steps.len()
    }

    /// The step at index `i`.
    pub fn step(&self, i: usize) -> (r: &SetupStep)
        requires
            i < self.steps().len(),
        ensures
            r@ == self.steps()[i as int],
    {
        &self.steps[i]
    }

    /// What to do next.
    pub fn next_action(&self) -> (r: SetupAction)
        requires
            self.wf(),
        ensures
            r == next_setup_action(self.steps(), self.results()),
    {
        match self.failure {
            Some(e) => SetupAction::Finished(Err(e)),
            None => if self.next < self.steps.len() {
                SetupAction::Perform(self.next)
            } else {
                SetupAction::Finished(Ok(()))
            },
        }
    }

    /// Records the result of the step that `next_action` asked for.
    pub fn record(&mut self, r: Result<(), NetError>)
        requires
            old(self).wf(),
            !old(self).is_finished(),
        ensures
            final(self).wf(),
            final(self).steps() == old(self).steps(),
            final(self).results() == old(self).results().push(r),
    {
        assert(self.steps().len() == self.steps@.len());
        assert(next_setup_action(self.steps(), self.results()) is Perform);
        assert(self.next < self.steps@.len());
        let len = self.steps.len();
        assert(self.next < len);
        let ghost results = self.results@.push(r);
        assert(results.drop_last() =~= self.results@);
        if let Err(e) = r {
            if !self.step_is_advisory(self.next) {
                self.failure = Some(e);
            }
        }
        self.next = self.next + 1;
        self.results = Ghost(results);
    }

    fn step_is_advisory(&self, i: usize) -> (r: bool)
        requires
            i < self.steps@.len(),
        ensures
            r == !self.steps()[i as int].is_fatal(),
    {
        match &self.steps[i] {
            SetupStep::SetOption(o) => o.advisory(),
            _ => false,
        }
    }
}

/// A setup fails only with the error of a fatal step, and succeeds when every
/// fatal step that was performed succeeded: a failure of an advisory option
/// is never reported.
pub proof fn lemma_setup_fails_only_at_fatal(
    steps: Seq<SetupStepView>,
    results: Seq<Result<(), NetError>>,
)
    requires
        results.len() <= steps.len(),
    ensures
        setup_outcome(steps, results) is Err ==> exists|i: int|
            0 <= i < results.len() && steps[i].is_fatal() && results[i] == setup_outcome(
                steps,
                results,
            ),
        (forall|i: int| 0 <= i < results.len() && steps[i].is_fatal() ==> results[i] is Ok)
            ==> setup_outcome(steps, results) == Ok::<(), NetError>(()),
    decreases results.len(),
{
    if results.len() > 0 {
        let prev = results.drop_last();
        lemma_setup_fails_only_at_fatal(steps, prev);
        if setup_outcome(steps, prev) is Err {
            let i = choose|i: int|
                0 <= i < prev.len() && steps[i].is_fatal() && prev[i] == setup_outcome(steps, prev);
            assert(results[i] == prev[i]);
        }
        if forall|i: int| 0 <= i < results.len() && steps[i].is_fatal() ==> results[i] is Ok {
            assert forall|i: int| 0 <= i < prev.len() && steps[i].is_fatal() implies prev[i] is Ok by {
                assert(prev[i] == results[i]);
            }
        }
    }
}

} // verus!
