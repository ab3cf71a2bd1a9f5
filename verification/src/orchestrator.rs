//! The update orchestrator: the state machine that ties manifest, comparison
//! and transfer together.
//!
//! It starts by waiting for a first manifest, whose version becomes the
//! baseline. From then on it polls: after each interval the manifest is
//! fetched again, and the first one whose version is newer than the baseline
//! starts the transfer of its image. Any failure ends the run.
//!
//! Like the transfer engine, the orchestrator performs nothing itself: it
//! says what is to be done next and takes the outcome as an event.

use vstd::prelude::*;
use crate::config::Config;
use crate::manifest::{FetchError, Update, UpdateModel};
use crate::transfer::TransferError;
use crate::version::{is_newer, lemma_equal_is_not_newer, newer, SemanticVersion, VersionModel};

verus! {

/// The number of seconds between two polls of the manifest.
pub const POLL_INTERVAL_SECS: u64 = 30;

/// What a fetched manifest means for a device at a given baseline.
#[derive(Debug, PartialEq, Eq)]
pub enum UpdateDecision {
    /// The manifest offers a version newer than the baseline.
    NewerAvailable(Update),
    /// The manifest offers nothing newer.
    UpToDate,
}

/// Why a run of the orchestrator ended.
#[derive(Clone, Copy, Debug, PartialEq, Eq, Structural)]
pub enum AgentError {
    /// A manifest could not be had.
    Fetch(FetchError),
    /// The transfer of the image failed.
    Transfer(TransferError),
    /// An outcome was reported that the orchestrator had not asked for.
    OutOfTurn,
}

/// Where the orchestrator stands.
#[derive(Clone, Copy, Debug, PartialEq, Eq, Structural)]
pub enum AgentPhase {
    /// The first manifest is awaited; there is no baseline yet.
    Init,
    /// The baseline is stored; the next poll is awaited.
    Polling,
    /// A newer version was found; the outcome of its transfer is awaited.
    Transferring,
    /// The transfer succeeded. The device restarts into the new image, so a
    /// running program does not see this phase.
    Committed,
    /// The run ended with an error. Nothing follows.
    Failed(AgentError),
}

/// The outcome of what the orchestrator asked for last.
#[derive(Debug, PartialEq, Eq)]
pub enum AgentEvent {
    /// A fetch of the manifest ended.
    Fetched(Result<Update, FetchError>),
    /// The transfer ended.
    Transferred(Result<(), TransferError>),
}

/// What the orchestrator asks for next.
#[derive(Debug, PartialEq, Eq)]
pub enum AgentAction {
    /// Wait this many seconds, then fetch the manifest.
    Poll { delay_secs: u64 },
    /// Transfer the image found at this location.
    Transfer { link: String },
    /// End the run with this error.
    Halt(AgentError),
    /// Nothing: the new image is committed.
    Finished,
}

/// The mathematical value of an [`AgentAction`].
pub enum ActionModel {
    Poll { delay_secs: u64 },
    Transfer { link: Seq<char> },
    Halt(AgentError),
    Finished,
}

impl View for AgentAction {
    type V = ActionModel;

    open spec fn view(&self) -> ActionModel {
        match *self {
            AgentAction::Poll { delay_secs } => ActionModel::Poll { delay_secs },
            AgentAction::Transfer { link } => ActionModel::Transfer { link: link@ },
            AgentAction::Halt(error) => ActionModel::Halt(error),
            AgentAction::Finished => ActionModel::Finished,
        }
    }
}

/// The mathematical value of an [`Orchestrator`].
pub struct AgentModel {
    pub phase: AgentPhase,
    /// The version of the first manifest, once there is one.
    pub baseline: Option<VersionModel>,
}

/// The update orchestrator of one device.
#[derive(Debug)]
pub struct Orchestrator {
    config: Config,
    phase: AgentPhase,
    baseline: Option<SemanticVersion>,
}

/// Whether a manifest offers an update to a device at this baseline.
pub open spec fn offers_update(update: UpdateModel, baseline: VersionModel) -> bool {
    newer(update.version, baseline)
}

/// Compares a fetched manifest with the baseline.
pub fn decide(fetched: Update, baseline: &SemanticVersion) -> (decision: UpdateDecision)
    ensures
        decision is NewerAvailable <==> offers_update(fetched@, baseline@),
        decision matches UpdateDecision::NewerAvailable(update) ==> update@ == fetched@,
{
    if is_newer(fetched.version(), baseline) {
        UpdateDecision::NewerAvailable(fetched)
    } else {
        UpdateDecision::UpToDate
    }
}

/// The orchestrator at its start.
pub open spec fn agent_initial() -> AgentModel {
    AgentModel { phase: AgentPhase::Init, baseline: None }
}

/// The run ended by an error; the baseline stays.
pub open spec fn halted(agent: AgentModel, error: AgentError) -> (AgentModel, ActionModel) {
    (AgentModel { phase: AgentPhase::Failed(error), baseline: agent.baseline }, ActionModel::Halt(error))
}

/// The next poll, after the interval.
pub open spec fn next_poll() -> ActionModel {
    ActionModel::Poll { delay_secs: POLL_INTERVAL_SECS }
}

/// One step of the orchestrator: its state after an event, and what it asks
/// for.
pub open spec fn agent_step(agent: AgentModel, event: AgentEvent) -> (AgentModel, ActionModel) {
    match agent.phase {
        AgentPhase::Init => match event {
            AgentEvent::Fetched(Ok(update)) => (
                AgentModel { phase: AgentPhase::Polling, baseline: Some(update@.version) },
                next_poll(),
            ),
            AgentEvent::Fetched(Err(error)) => halted(agent, AgentError::Fetch(error)),
            AgentEvent::Transferred(_) => halted(agent, AgentError::OutOfTurn),
        },
        AgentPhase::Polling => match event {
            AgentEvent::Fetched(Ok(update)) => if agent.baseline is Some && offers_update(
                update@,
                agent.baseline->0,
            ) {
                (
                    AgentModel { phase: AgentPhase::Transferring, baseline: agent.baseline },
                    ActionModel::Transfer { link: update@.link },
                )
            } else {
                (agent, next_poll())
            },
            AgentEvent::Fetched(Err(error)) => halted(agent, AgentError::Fetch(error)),
            AgentEvent::Transferred(_) => halted(agent, AgentError::OutOfTurn),
        },
        AgentPhase::Transferring => match event {
            AgentEvent::Transferred(Ok(_)) => (
                AgentModel { phase: AgentPhase::Committed, baseline: agent.baseline },
                ActionModel::Finished,
            ),
            AgentEvent::Transferred(Err(error)) => halted(agent, AgentError::Transfer(error)),
            AgentEvent::Fetched(_) => halted(agent, AgentError::OutOfTurn),
        },
        AgentPhase::Committed => (agent, ActionModel::Finished),
        AgentPhase::Failed(error) => (agent, ActionModel::Halt(error)),
    }
}

/// What holds of an orchestrator in every state that it reaches: there is a
/// baseline from the first manifest on, and none before.
pub open spec fn agent_consistent(agent: AgentModel) -> bool {
    &&& agent.phase == AgentPhase::Init ==> agent.baseline is None
    &&& (agent.phase == AgentPhase::Polling || agent.phase == AgentPhase::Transferring || agent.phase
        == AgentPhase::Committed) ==> agent.baseline is Some
}

impl View for Orchestrator {
    type V = AgentModel;

    closed spec fn view(&self) -> AgentModel {
        AgentModel {
            phase: self.phase,
            baseline: match self.baseline {
                Some(version) => Some(version@),
                None => None,
            },
        }
    }
}

impl Orchestrator {
    /// The settings that the orchestrator was made with.
    pub closed spec fn settings(&self) -> Config {
        self.config
    }

    /// An orchestrator that waits for the first manifest, to be fetched at
    /// once from the address in the settings.
    pub fn new(config: Config) -> (orchestrator: Orchestrator)
        ensures
            orchestrator@ == agent_initial(),
            orchestrator.settings() == config,
    {
        Orchestrator { config, phase: AgentPhase::Init, baseline: None }
    }

    /// The settings that the orchestrator was made with.
    pub fn config(&self) -> (config: &Config)
        ensures
            *config == self.settings(),
    {
        &self.config
    }

    /// The address from which the manifest is fetched.
    pub fn manifest_url(&self) -> (url: &'static str)
        ensures
            url == self.settings().manifest_url,
    {
        self.config.manifest_url
    }

    /// The phase that the orchestrator is in.
    pub fn phase(&self) -> (phase: AgentPhase)
        ensures
            phase == self@.phase,
    {
        self.phase
    }

    /// The baseline: the version of the first manifest, once there is one.
    pub fn baseline(&self) -> (baseline: Option<&SemanticVersion>)
        ensures
            baseline is Some <==> self@.baseline is Some,
            baseline matches Some(version) ==> self@.baseline == Some(version@),
    {
        self.baseline.as_ref()
    }

    fn halt(&mut self, error: AgentError) -> (action: AgentAction)
        ensures
            (final(self)@, action@) == halted(old(self)@, error),
            final(self).settings() == old(self).settings(),
    {
        self.phase = AgentPhase::Failed(error);
        AgentAction::Halt(error)
    }

    /// Takes the outcome of what was asked for last, and says what is to be
    /// done next: one [`agent_step`].
    pub fn advance(&mut self, event: AgentEvent) -> (action: AgentAction)
        ensures
            (final(self)@, action@) == agent_step(old(self)@, event),
            final(self).settings() == old(self).settings(),
    {
        match self.phase {
            AgentPhase::Init => match event {
                AgentEvent::Fetched(Ok(update)) => {
                    self.baseline = Some(update.version().clone());
                    self.phase = AgentPhase::Polling;
                    AgentAction::Poll { delay_secs: POLL_INTERVAL_SECS }
                },
                AgentEvent::Fetched(Err(error)) => self.halt(AgentError::Fetch(error)),
                AgentEvent::Transferred(_) => self.halt(AgentError::OutOfTurn),
            },
            AgentPhase::Polling => match event {
                AgentEvent::Fetched(Ok(update)) => {
                    let decision = match &self.baseline {
                        Some(baseline) => decide(update, baseline),
                        None => UpdateDecision::UpToDate,
                    };
                    match decision {
                        UpdateDecision::NewerAvailable(found) => {
                            self.phase = AgentPhase::Transferring;
                            AgentAction::Transfer { link: found.into_link() }
                        },
                        UpdateDecision::UpToDate => AgentAction::Poll {
                            delay_secs: POLL_INTERVAL_SECS,
                        },
                    }
                },
                AgentEvent::Fetched(Err(error)) => self.halt(AgentError::Fetch(error)),
                AgentEvent::Transferred(_) => self.halt(AgentError::OutOfTurn),
            },
            AgentPhase::Transferring => match event {
                AgentEvent::Transferred(Ok(_)) => {
                    self.phase = AgentPhase::Committed;
                    AgentAction::Finished
                },
                AgentEvent::Transferred(Err(error)) => self.halt(AgentError::Transfer(error)),
                AgentEvent::Fetched(_) => self.halt(AgentError::OutOfTurn),
            },
            AgentPhase::Committed => AgentAction::Finished,
            AgentPhase::Failed(error) => AgentAction::Halt(error),
        }
    }
}

/// The orchestrator after a run of events, counted from `start`.
pub open spec fn agent_after(start: AgentModel, events: Seq<AgentEvent>) -> AgentModel
    decreases events.len(),
{
    if events.len() == 0 {
        start
    } else {
        agent_step(agent_after(start, events.drop_last()), events.last()).0
    }
}

/// What the orchestrator asks for in answer to the event at `at`.
pub open spec fn agent_answer(start: AgentModel, events: Seq<AgentEvent>, at: int) -> ActionModel {
    agent_step(agent_after(start, events.take(at)), events[at]).1
}

/// Whether an event is a manifest that offers nothing newer than `baseline`.
pub open spec fn nothing_newer(event: AgentEvent, baseline: VersionModel) -> bool {
    event matches AgentEvent::Fetched(Ok(update)) && !offers_update(update@, baseline)
}

/// Whether an event is a manifest whose version is `baseline` itself.
pub open spec fn same_version(event: AgentEvent, baseline: VersionModel) -> bool {
    event matches AgentEvent::Fetched(Ok(update)) && update@.version == baseline
}

/// The orchestrator after the first `at + 1` events is one step from the
/// orchestrator after the first `at`.
pub proof fn lemma_agent_unfolds(start: AgentModel, events: Seq<AgentEvent>, at: int)
    requires
        0 <= at < events.len(),
    ensures
        agent_after(start, events.take(at + 1)) == agent_step(
            agent_after(start, events.take(at)),
            events[at],
        ).0,
{
    let longer = events.take(at + 1);
    assert(longer.drop_last() =~= events.take(at));
    assert(longer.last() == events[at]);
}

/// Every state that the orchestrator reaches from a consistent one is
/// consistent, and a baseline, once stored, is never replaced.
pub proof fn lemma_baseline_is_kept(start: AgentModel, events: Seq<AgentEvent>)
    requires
        agent_consistent(start),
    ensures
        agent_consistent(agent_after(start, events)),
        start.baseline is Some ==> agent_after(start, events).baseline == start.baseline,
    decreases events.len(),
{
    if events.len() > 0 {
        lemma_baseline_is_kept(start, events.drop_last());
    }
}

/// The baseline is the version of the first manifest: whatever follows, it
/// is what every later manifest is compared with.
pub proof fn lemma_first_manifest_sets_baseline(events: Seq<AgentEvent>, first: Update)
    requires
        events.len() > 0,
        events[0] == AgentEvent::Fetched(Ok(first)),
    ensures
        agent_after(agent_initial(), events).baseline == Some(first@.version),
        agent_answer(agent_initial(), events, 0) == next_poll(),
{
    let start = agent_initial();
    assert(events.take(0).len() == 0);
    lemma_agent_unfolds(start, events, 0);
    let stored = agent_after(start, events.take(1));
    lemma_after_in_two_runs(start, events, 1);
    lemma_baseline_is_kept(stored, events.skip(1));
}

/// A run of events can be cut in two: the orchestrator after all of them is
/// the one that the later events lead to from where the earlier ones ended.
pub proof fn lemma_after_in_two_runs(start: AgentModel, events: Seq<AgentEvent>, cut: int)
    requires
        0 <= cut <= events.len(),
    ensures
        agent_after(start, events) == agent_after(
            agent_after(start, events.take(cut)),
            events.skip(cut),
        ),
    decreases events.len(),
{
    if cut == events.len() {
        assert(events.take(cut) =~= events);
        assert(events.skip(cut).len() == 0);
    } else {
        let shorter = events.drop_last();
        lemma_after_in_two_runs(start, shorter, cut);
        assert(shorter.take(cut) =~= events.take(cut));
        assert(shorter.skip(cut) =~= events.skip(cut).drop_last());
        assert(events.skip(cut).last() == events.last());
    }
}

/// While every manifest fetched offers nothing newer than the baseline, the
/// orchestrator stays as it is and asks for the next poll each time: no
/// transfer starts, however long this goes on.
pub proof fn lemma_nothing_newer_never_transfers(polling: AgentModel, events: Seq<AgentEvent>)
    requires
        polling.phase == AgentPhase::Polling,
        polling.baseline is Some,
        forall|at: int|
            0 <= at < events.len() ==> nothing_newer(#[trigger] events[at], polling.baseline->0),
    ensures
        agent_after(polling, events) == polling,
        forall|at: int|
            0 <= at < events.len() ==> #[trigger] agent_answer(polling, events, at) == next_poll(),
    decreases events.len(),
{
    if events.len() > 0 {
        let shorter = events.drop_last();
        assert forall|at: int| 0 <= at < shorter.len() implies nothing_newer(
            #[trigger] shorter[at],
            polling.baseline->0,
        ) by {
            assert(shorter[at] == events[at]);
        }
        lemma_nothing_newer_never_transfers(polling, shorter);
        assert forall|at: int| 0 <= at < events.len() implies #[trigger] agent_answer(
            polling,
            events,
            at,
        ) == next_poll() by {
            if at < shorter.len() {
                assert(shorter.take(at) =~= events.take(at));
                assert(agent_answer(polling, shorter, at) == next_poll());
            } else {
                assert(events.take(at) =~= shorter);
            }
        }
    }
}

/// Polls that keep returning the version of the baseline never start a
/// transfer: the orchestrator stays as it is and asks for the next poll each
/// time.
pub proof fn lemma_same_version_never_transfers(polling: AgentModel, events: Seq<AgentEvent>)
    requires
        polling.phase == AgentPhase::Polling,
        polling.baseline is Some,
        forall|at: int|
            0 <= at < events.len() ==> same_version(#[trigger] events[at], polling.baseline->0),
    ensures
        agent_after(polling, events) == polling,
        forall|at: int|
            0 <= at < events.len() ==> #[trigger] agent_answer(polling, events, at) == next_poll(),
{
    assert forall|at: int| 0 <= at < events.len() implies nothing_newer(
        #[trigger] events[at],
        polling.baseline->0,
    ) by {
        if let AgentEvent::Fetched(Ok(update)) = events[at] {
            lemma_equal_is_not_newer(update@.version, polling.baseline->0);
        }
    }
    lemma_nothing_newer_never_transfers(polling, events);
}

/// The transfer starts at the first poll whose manifest is newer than the
/// baseline: every poll before it is answered by the next poll, and this one
/// by the transfer of its image.
pub proof fn lemma_first_newer_starts_transfer(
    polling: AgentModel,
    events: Seq<AgentEvent>,
    at: int,
)
    requires
        polling.phase == AgentPhase::Polling,
        polling.baseline is Some,
        0 <= at < events.len(),
        forall|before: int|
            0 <= before < at ==> nothing_newer(#[trigger] events[before], polling.baseline->0),
        events[at] matches AgentEvent::Fetched(Ok(update)) && offers_update(
            update@,
            polling.baseline->0,
        ),
    ensures
        forall|before: int|
            0 <= before < at ==> #[trigger] agent_answer(polling, events, before) == next_poll(),
        events[at] matches AgentEvent::Fetched(Ok(update)) && agent_answer(polling, events, at)
            == (ActionModel::Transfer { link: update@.link }),
        agent_after(polling, events.take(at + 1)).phase == AgentPhase::Transferring,
{
    let earlier = events.take(at);
    assert forall|before: int| 0 <= before < earlier.len() implies nothing_newer(
        #[trigger] earlier[before],
        polling.baseline->0,
    ) by {
        assert(earlier[before] == events[before]);
    }
    lemma_nothing_newer_never_transfers(polling, earlier);
    assert forall|before: int| 0 <= before < at implies #[trigger] agent_answer(
        polling,
        events,
        before,
    ) == next_poll() by {
        assert(earlier.take(before) =~= events.take(before));
        assert(agent_answer(polling, earlier, before) == next_poll());
    }
    lemma_agent_unfolds(polling, events, at);
}

/// A transfer starts only in answer to a manifest fetched while polling,
/// whose version is newer than the baseline; and it is the image of that
/// manifest that is transferred.
pub proof fn lemma_transfer_needs_newer_version(
    start: AgentModel,
    events: Seq<AgentEvent>,
    at: int,
)
    requires
        0 <= at < events.len(),
        agent_answer(start, events, at) is Transfer,
    ensures
        agent_after(start, events.take(at)).phase == AgentPhase::Polling,
        agent_after(start, events.take(at)).baseline is Some,
        events[at] matches AgentEvent::Fetched(Ok(update)) && offers_update(
            update@,
            agent_after(start, events.take(at)).baseline->0,
        ) && agent_answer(start, events, at) == (ActionModel::Transfer { link: update@.link }),
{
}

/// A run that has ended stays ended: after a failure every event is answered
/// by the same error, and the state does not change.
pub proof fn lemma_failure_is_terminal(
    start: AgentModel,
    events: Seq<AgentEvent>,
    early: int,
    late: int,
)
    requires
        0 <= early <= late < events.len(),
        agent_after(start, events.take(early)).phase is Failed,
    ensures
        agent_after(start, events.take(late)) == agent_after(start, events.take(early)),
        agent_answer(start, events, late) == ActionModel::Halt(
            agent_after(start, events.take(early)).phase->Failed_0,
        ),
    decreases late - early,
{
    if early < late {
        lemma_failure_is_terminal(start, events, early, late - 1);
        lemma_agent_unfolds(start, events, late - 1);
    }
}

/// A manifest that could not be had ends the run, at the first fetch as at
/// any poll: the error is handed on, and no retry is made.
pub proof fn lemma_failed_fetch_ends_run(agent: AgentModel, error: FetchError)
    requires
        agent.phase == AgentPhase::Init || agent.phase == AgentPhase::Polling,
    ensures
        agent_step(agent, AgentEvent::Fetched(Err(error))) == halted(
            agent,
            AgentError::Fetch(error),
        ),
{
}

} // verus!
