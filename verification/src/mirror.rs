//! The mirror synchronizer: keeps a checkout of the upstream repository
//! current without ever forcing it.
//!
//! The synchronizer owns one checkout.  It is made by a clone before any
//! request is served, and afterwards only a refresh changes it.  A refresh
//! points the remote at the upstream again, fetches the tracked branch and
//! looks at how the fetched commit relates to the local branch:
//!
//! - up to date: nothing is done;
//! - the local branch can be fast-forwarded: the branch is moved to the
//!   fetched commit, `HEAD` is set to the branch and its tree is checked out
//!   over the working directory;
//! - the histories have diverged: the refresh is given up with an error and
//!   the checkout is left alone.
//!
//! Running git is not done here.  A [`Mirror`] is told what happened, as an
//! [`Event`], and answers what to do next, as an [`Action`]; the caller runs
//! the commands.  A failed refresh is reported and over: the mirror is ready
//! for the next tick, in the state the checkout was left in.

use vstd::prelude::*;
use vstd::string::*;

verus! {

/// The name of a commit.
#[derive(Clone, Debug, PartialEq, Eq)]
pub struct CommitId {
    pub bytes: Vec<u8>,
}

impl View for CommitId {
    type V = Seq<u8>;

    open spec fn view(&self) -> Seq<u8> {
        self.bytes@
    }
}

/// How the fetched commit relates to the local branch.
#[derive(Clone, Copy, Debug, PartialEq, Eq, Structural)]
pub enum MergeRelation {
    /// The local branch holds the fetched commit already.
    UpToDate,
    /// The fetched commit descends from the local branch.
    FastForward,
    /// Neither holds the other.
    Diverged,
}

/// Why a synchronization failed.
#[derive(Clone, Copy, Debug, PartialEq, Eq, Structural)]
pub enum SyncError {
    /// The upstream could not be reached or did not answer.
    Network,
    /// The upstream history is no continuation of the local one.
    Diverged,
    /// The checkout could not be read or written.
    Filesystem,
}

/// Where a mirror stands.
#[derive(Clone, Copy, Debug, PartialEq, Eq, Structural)]
pub enum Stage {
    /// There is no checkout yet.
    Uninitialized,
    /// The clone is running.
    Cloning,
    /// The checkout is complete and no refresh is running.
    Ready,
    /// A refresh is setting the remote's location.
    SettingRemote,
    /// A refresh is fetching the tracked branch.
    Fetching,
    /// A refresh is comparing the fetched commit with the local branch.
    Analyzing,
    /// A refresh is moving the local branch to the fetched commit.
    MovingBranch,
    /// A refresh is setting `HEAD` to the local branch.
    SettingHead,
    /// A refresh is checking out the tree of `HEAD`.
    CheckingOut,
    /// The clone failed; there is nothing to serve.
    Dead,
}

/// A command for the version-control client.
#[derive(Clone, Debug, PartialEq, Eq)]
pub enum Command {
    /// Clone `url` into a fresh directory.
    Clone { url: String },
    /// Point `remote` at `url`.
    SetRemoteUrl { remote: String, url: String },
    /// Fetch `branch` from `remote`.
    Fetch { remote: String, branch: String },
    /// Compare the commit that `reference` names with the local branch.
    Analyze { reference: String },
    /// Move `reference` to the commit `target`, logged under `message`.
    SetBranchTarget { reference: String, target: CommitId, message: String },
    /// Let `HEAD` name `reference`.
    SetHead { reference: String },
    /// Check out the tree of `HEAD`, overwriting the working directory.
    CheckoutHead,
}

/// What a [`Command`] holds.
pub enum CommandView {
    Clone { url: Seq<char> },
    SetRemoteUrl { remote: Seq<char>, url: Seq<char> },
    Fetch { remote: Seq<char>, branch: Seq<char> },
    Analyze { reference: Seq<char> },
    SetBranchTarget { reference: Seq<char>, target: Seq<u8>, message: Seq<char> },
    SetHead { reference: Seq<char> },
    CheckoutHead,
}

impl View for Command {
    type V = CommandView;

    open spec fn view(&self) -> CommandView {
        match self {
            Command::Clone { url } => CommandView::Clone { url: url@ },
            Command::SetRemoteUrl { remote, url } => CommandView::SetRemoteUrl {
                remote: remote@,
                url: url@,
            },
            Command::Fetch { remote, branch } => CommandView::Fetch {
                remote: remote@,
                branch: branch@,
            },
            Command::Analyze { reference } => CommandView::Analyze { reference: reference@ },
            Command::SetBranchTarget { reference, target, message } => CommandView::SetBranchTarget {
                reference: reference@,
                target: target@,
                message: message@,
            },
            Command::SetHead { reference } => CommandView::SetHead { reference: reference@ },
            Command::CheckoutHead => CommandView::CheckoutHead,
        }
    }
}

/// How a refresh ended.
#[derive(Clone, Copy, Debug, PartialEq, Eq, Structural)]
pub enum Outcome {
    /// There was nothing to do.
    UpToDate,
    /// The checkout was moved to the fetched commit.
    FastForwarded,
    /// The refresh was given up.
    Failed(SyncError),
}

/// What the caller is to do next.
#[derive(Clone, Debug, PartialEq, Eq)]
pub enum Action {
    /// Run the command and tell how it went.
    Run(Command),
    /// The checkout is complete: requests may be served from it.
    Serve,
    /// There is no checkout and there will be none: do not start.
    Abort(SyncError),
    /// The refresh is over.
    Report(Outcome),
    /// The event does not apply where the mirror stands; nothing has changed
    /// and nothing is to be done.
    Skip,
}

/// What an [`Action`] holds.
pub enum ActionView {
    Run(CommandView),
    Serve,
    Abort(SyncError),
    Report(Outcome),
    Skip,
}

impl View for Action {
    type V = ActionView;

    open spec fn view(&self) -> ActionView {
        match self {
            Action::Run(command) => ActionView::Run(command@),
            Action::Serve => ActionView::Serve,
            Action::Abort(error) => ActionView::Abort(*error),
            Action::Report(outcome) => ActionView::Report(*outcome),
            Action::Skip => ActionView::Skip,
        }
    }
}

/// What the caller tells a mirror.
#[derive(Clone, Debug, PartialEq, Eq)]
pub enum Event {
    /// The process starts.
    Start,
    /// The timer fired.
    Tick,
    /// The command that was to be run has succeeded.
    Succeeded,
    /// The analysis that was to be run has this result for the fetched
    /// commit `target`.
    Analyzed { up_to_date: bool, fast_forward: bool, target: CommitId },
    /// The command that was to be run has failed.
    Failed,
}

/// What an [`Event`] holds.
pub enum EventView {
    Start,
    Tick,
    Succeeded,
    Analyzed { up_to_date: bool, fast_forward: bool, target: Seq<u8> },
    Failed,
}

impl View for Event {
    type V = EventView;

    open spec fn view(&self) -> EventView {
        match self {
            Event::Start => EventView::Start,
            Event::Tick => EventView::Tick,
            Event::Succeeded => EventView::Succeeded,
            Event::Analyzed { up_to_date, fast_forward, target } => EventView::Analyzed {
                up_to_date: *up_to_date,
                fast_forward: *fast_forward,
                target: target@,
            },
            Event::Failed => EventView::Failed,
        }
    }
}

/// The synchronizer of one checkout.
#[derive(Clone, Debug, PartialEq, Eq)]
pub struct Mirror {
    upstream: String,
    branch: String,
    stage: Stage,
}

/// What a [`Mirror`] holds.
pub struct MirrorView {
    /// Where the upstream repository is found.
    pub upstream: Seq<char>,
    /// The branch that is tracked.
    pub branch: Seq<char>,
    pub stage: Stage,
}

impl View for Mirror {
    type V = MirrorView;

    closed spec fn view(&self) -> MirrorView {
        MirrorView { upstream: self.upstream@, branch: self.branch@, stage: self.stage }
    }
}

/// The remote that a clone sets up for the upstream.
pub open spec fn remote_name() -> Seq<char> {
    "origin"@
}

/// The reference that a fetch leaves the fetched commit under.
pub open spec fn fetch_head() -> Seq<char> {
    "FETCH_HEAD"@
}

/// The full name of a local branch.
pub open spec fn branch_reference(branch: Seq<char>) -> Seq<char> {
    "refs/heads/"@ + branch
}

/// The message that a fast-forward is logged under.
pub open spec fn fast_forward_message() -> Seq<char> {
    "Fast-Forward"@
}

/// What an analysis says: up to date where it says so, else fast-forward
/// where it says so, else diverged.
pub open spec fn relation_of(up_to_date: bool, fast_forward: bool) -> MergeRelation {
    if up_to_date {
        MergeRelation::UpToDate
    } else if fast_forward {
        MergeRelation::FastForward
    } else {
        MergeRelation::Diverged
    }
}

/// A refresh is running in this stage.
pub open spec fn is_refreshing(stage: Stage) -> bool {
    stage is SettingRemote || stage is Fetching || stage is Analyzing || stage is MovingBranch
        || stage is SettingHead || stage is CheckingOut
}

/// There is a complete checkout in this stage.
pub open spec fn has_checkout(stage: Stage) -> bool {
    stage is Ready || is_refreshing(stage)
}

/// The kind of error that a failure in a stage is taken for: talking to the
/// upstream is the network's, everything else the disk's.
pub open spec fn failure_in(stage: Stage) -> SyncError {
    if stage is Cloning || stage is Fetching {
        SyncError::Network
    } else {
        SyncError::Filesystem
    }
}

/// The stage a mirror goes to on an event.
pub open spec fn next_stage(stage: Stage, event: EventView) -> Stage {
    match (stage, event) {
        (Stage::Uninitialized, EventView::Start) => Stage::Cloning,
        (Stage::Cloning, EventView::Succeeded) => Stage::Ready,
        (Stage::Cloning, EventView::Failed) => Stage::Dead,
        (Stage::Ready, EventView::Tick) => Stage::SettingRemote,
        (Stage::SettingRemote, EventView::Succeeded) => Stage::Fetching,
        (Stage::Fetching, EventView::Succeeded) => Stage::Analyzing,
        (Stage::Analyzing, EventView::Analyzed { up_to_date, fast_forward, .. }) => {
            if relation_of(up_to_date, fast_forward) is FastForward {
                Stage::MovingBranch
            } else {
                Stage::Ready
            }
        },
        (Stage::MovingBranch, EventView::Succeeded) => Stage::SettingHead,
        (Stage::SettingHead, EventView::Succeeded) => Stage::CheckingOut,
        (Stage::CheckingOut, EventView::Succeeded) => Stage::Ready,
        (_, EventView::Failed) => if is_refreshing(stage) {
            Stage::Ready
        } else {
            stage
        },
        _ => stage,
    }
}

/// What a mirror answers to an event.
pub open spec fn next_action(mirror: MirrorView, event: EventView) -> ActionView {
    match (mirror.stage, event) {
        (Stage::Uninitialized, EventView::Start) => ActionView::Run(
            CommandView::Clone { url: mirror.upstream },
        ),
        (Stage::Cloning, EventView::Succeeded) => ActionView::Serve,
        (Stage::Cloning, EventView::Failed) => ActionView::Abort(failure_in(mirror.stage)),
        (Stage::Ready, EventView::Tick) => ActionView::Run(
            CommandView::SetRemoteUrl { remote: remote_name(), url: mirror.upstream },
        ),
        (Stage::SettingRemote, EventView::Succeeded) => ActionView::Run(
            CommandView::Fetch { remote: remote_name(), branch: mirror.branch },
        ),
        (Stage::Fetching, EventView::Succeeded) => ActionView::Run(
            CommandView::Analyze { reference: fetch_head() },
        ),
        (Stage::Analyzing, EventView::Analyzed { up_to_date, fast_forward, target }) => {
            match relation_of(up_to_date, fast_forward) {
                MergeRelation::UpToDate => ActionView::Report(Outcome::UpToDate),
                MergeRelation::FastForward => ActionView::Run(
                    CommandView::SetBranchTarget {
                        reference: branch_reference(mirror.branch),
                        target,
                        message: fast_forward_message(),
                    },
                ),
                MergeRelation::Diverged => ActionView::Report(Outcome::Failed(SyncError::Diverged)),
            }
        },
        (Stage::MovingBranch, EventView::Succeeded) => ActionView::Run(
            CommandView::SetHead { reference: branch_reference(mirror.branch) },
        ),
        (Stage::SettingHead, EventView::Succeeded) => ActionView::Run(CommandView::CheckoutHead),
        (Stage::CheckingOut, EventView::Succeeded) => ActionView::Report(Outcome::FastForwarded),
        (_, EventView::Failed) => if is_refreshing(mirror.stage) {
            ActionView::Report(Outcome::Failed(failure_in(mirror.stage)))
        } else {
            ActionView::Skip
        },
        _ => ActionView::Skip,
    }
}

/// Tells what an analysis says.
pub fn classify(up_to_date: bool, fast_forward: bool) -> (relation: MergeRelation)
    ensures
        relation == relation_of(up_to_date, fast_forward),
{
    if up_to_date {
        MergeRelation::UpToDate
    } else if fast_forward {
        MergeRelation::FastForward
    } else {
        MergeRelation::Diverged
    }
}

impl Mirror {
    /// A mirror of `branch` of the repository at `upstream`, without a
    /// checkout yet.
    pub fn new(upstream: String, branch: String) -> (mirror: Mirror)
        ensures
            mirror@ == (MirrorView {
                upstream: upstream@,
                branch: branch@,
                stage: Stage::Uninitialized,
            }),
    {
        Mirror { upstream, branch, stage: Stage::Uninitialized }
    }

    /// Where the mirror stands.
    pub fn stage(&self) -> (stage: Stage)
        ensures
            stage == self@.stage,
    {
        self.stage
    }

    /// Tells whether requests may be served: whether there is a complete
    /// checkout.
    pub fn may_serve(&self) -> (r: bool)
        ensures
            r == has_checkout(self@.stage),
    {
        match self.stage {
            Stage::Uninitialized | Stage::Cloning | Stage::Dead => false,
            _ => true,
        }
    }

    fn branch_reference(&self) -> (reference: String)
        ensures
            reference@ == branch_reference(self@.branch),
    {
        let mut reference = String::from_str("refs/heads/");
        reference.append(self.branch.as_str());
        reference
    }

    fn failure(&self) -> (error: SyncError)
        ensures
            error == failure_in(self@.stage),
    {
        match self.stage {
            Stage::Cloning | Stage::Fetching => SyncError::Network,
            _ => SyncError::Filesystem,
        }
    }

    /// Takes an event and answers what to do next.
    pub fn step(&mut self, event: Event) -> (action: Action)
        ensures
            final(self)@.upstream == old(self)@.upstream,
            final(self)@.branch == old(self)@.branch,
            final(self)@.stage == next_stage(old(self)@.stage, event@),
            action@ == next_action(old(self)@, event@),
    {
        match event {
            Event::Start => match self.stage {
                Stage::Uninitialized => {
                    self.stage = Stage::Cloning;
                    Action::Run(Command::Clone { url: self.upstream.clone() })
                },
                _ => Action::Skip,
            },
            Event::Tick => match self.stage {
                Stage::Ready => {
                    self.stage = Stage::SettingRemote;
                    Action::Run(
                        Command::SetRemoteUrl {
                            remote: String::from_str("origin"),
                            url: self.upstream.clone(),
                        },
                    )
                },
                _ => Action::Skip,
            },
            Event::Succeeded => match self.stage {
                Stage::Cloning => {
                    self.stage = Stage::Ready;
                    Action::Serve
                },
                Stage::SettingRemote => {
                    self.stage = Stage::Fetching;
                    Action::Run(
                        Command::Fetch {
                            remote: String::from_str("origin"),
                            branch: self.branch.clone(),
                        },
                    )
                },
                Stage::Fetching => {
                    self.stage = Stage::Analyzing;
                    Action::Run(Command::Analyze { reference: String::from_str("FETCH_HEAD") })
                },
                Stage::MovingBranch => {
                    self.stage = Stage::SettingHead;
                    Action::Run(Command::SetHead { reference: self.branch_reference() })
                },
                Stage::SettingHead => {
                    self.stage = Stage::CheckingOut;
                    Action::Run(Command::CheckoutHead)
                },
                Stage::CheckingOut => {
                    self.stage = Stage::Ready;
                    Action::Report(Outcome::FastForwarded)
                },
                _ => Action::Skip,
            },
            Event::Analyzed { up_to_date, fast_forward, target } => match self.stage {
                Stage::Analyzing => match classify(up_to_date, fast_forward) {
                    MergeRelation::UpToDate => {
                        self.stage = Stage::Ready;
                        Action::Report(Outcome::UpToDate)
                    },
                    MergeRelation::FastForward => {
                        self.stage = Stage::MovingBranch;
                        Action::Run(
                            Command::SetBranchTarget {
                                reference: self.branch_reference(),
                                target,
                                message: String::from_str("Fast-Forward"),
                            },
                        )
                    },
                    MergeRelation::Diverged => {
                        self.stage = Stage::Ready;
                        Action::Report(Outcome::Failed(SyncError::Diverged))
                    },
                },
                _ => Action::Skip,
            },
            Event::Failed => match self.stage {
                Stage::Cloning => {
                    let error = self.failure();
                    self.stage = Stage::Dead;
                    Action::Abort(error)
                },
                Stage::Uninitialized | Stage::Ready | Stage::Dead => Action::Skip,
                _ => {
                    let error = self.failure();
                    self.stage = Stage::Ready;
                    Action::Report(Outcome::Failed(error))
                },
            },
        }
    }
}

/// The mirror after one event.
pub open spec fn stepped(mirror: MirrorView, event: EventView) -> MirrorView {
    MirrorView {
        upstream: mirror.upstream,
        branch: mirror.branch,
        stage: next_stage(mirror.stage, event),
    }
}

/// The mirror after a sequence of events.
pub open spec fn after(mirror: MirrorView, events: Seq<EventView>) -> MirrorView
    decreases events.len(),
{
    if events.len() == 0 {
        mirror
    } else {
        after(stepped(mirror, events.first()), events.drop_first())
    }
}

/// The answers of a mirror to a sequence of events, one for each.
pub open spec fn answers(mirror: MirrorView, events: Seq<EventView>) -> Seq<ActionView>
    decreases events.len(),
{
    if events.len() == 0 {
        Seq::empty()
    } else {
        seq![next_action(mirror, events.first())] + answers(
            stepped(mirror, events.first()),
            events.drop_first(),
        )
    }
}

/// The command changes what the local branch or `HEAD` names, or what the
/// working directory holds.
pub open spec fn touches_checkout(command: CommandView) -> bool {
    command is Clone || command is SetBranchTarget || command is SetHead
        || command is CheckoutHead
}

/// The action is a command that touches the checkout.
pub open spec fn touching(action: ActionView) -> bool {
    action matches ActionView::Run(command) && touches_checkout(command)
}

/// The event is an analysis that allows a fast-forward.
pub open spec fn allows_fast_forward(event: EventView) -> bool {
    event matches EventView::Analyzed { up_to_date, fast_forward, .. } && relation_of(
        up_to_date,
        fast_forward,
    ) is FastForward
}

/// What a refresh is told up to its analysis, where nothing fails: the tick,
/// then that the remote is set and the branch fetched.
pub open spec fn refresh_events(analysis: EventView) -> Seq<EventView> {
    seq![EventView::Tick, EventView::Succeeded, EventView::Succeeded, analysis]
}

/// What a fast-forward is told after its analysis, where nothing fails: that
/// the branch is moved, `HEAD` set and the tree checked out.
pub open spec fn fast_forward_events() -> Seq<EventView> {
    seq![EventView::Succeeded, EventView::Succeeded, EventView::Succeeded]
}

/// The commands of every refresh: set the remote, fetch, analyze.
pub open spec fn refresh_commands(mirror: MirrorView) -> Seq<ActionView> {
    seq![
        ActionView::Run(CommandView::SetRemoteUrl { remote: remote_name(), url: mirror.upstream }),
        ActionView::Run(CommandView::Fetch { remote: remote_name(), branch: mirror.branch }),
        ActionView::Run(CommandView::Analyze { reference: fetch_head() }),
    ]
}

/// The commands of a fast-forward to `target`: move the branch, set `HEAD`,
/// check out.
pub open spec fn fast_forward_commands(mirror: MirrorView, target: Seq<u8>) -> Seq<ActionView> {
    seq![
        ActionView::Run(
            CommandView::SetBranchTarget {
                reference: branch_reference(mirror.branch),
                target,
                message: fast_forward_message(),
            },
        ),
        ActionView::Run(CommandView::SetHead { reference: branch_reference(mirror.branch) }),
        ActionView::Run(CommandView::CheckoutHead),
    ]
}

/// A checkout that is there stays there: no event takes a mirror from a
/// stage with a complete checkout to one without.
pub proof fn checkout_is_kept(stage: Stage, event: EventView)
    requires
        has_checkout(stage),
    ensures
        has_checkout(next_stage(stage, event)),
{
}

/// There is no checkout before the clone has succeeded: only that takes a
/// mirror to a stage with a checkout.
pub proof fn checkout_comes_from_the_clone(stage: Stage, event: EventView)
    requires
        !has_checkout(stage),
        has_checkout(next_stage(stage, event)),
    ensures
        stage is Cloning,
        event is Succeeded,
        next_stage(stage, event) is Ready,
{
}

/// Refreshes do not overlap: a tick that comes while a refresh is running
/// is skipped and the refresh goes on where it was.
pub proof fn tick_during_refresh_is_skipped(mirror: MirrorView)
    requires
        is_refreshing(mirror.stage),
    ensures
        next_action(mirror, EventView::Tick) == ActionView::Skip,
        stepped(mirror, EventView::Tick) == mirror,
{
}

/// A failure ends the refresh and nothing more: it is reported under the
/// kind of the stage it happened in, and the mirror is ready for the next
/// tick.
pub proof fn failure_ends_the_refresh(mirror: MirrorView)
    requires
        is_refreshing(mirror.stage),
    ensures
        next_action(mirror, EventView::Failed) == ActionView::Report(
            Outcome::Failed(failure_in(mirror.stage)),
        ),
        next_stage(mirror.stage, EventView::Failed) is Ready,
        !(failure_in(mirror.stage) is Diverged),
{
}

/// Events in a row are answered as the first ones, then the others from
/// where the first ones led.
pub proof fn answers_in_a_row(mirror: MirrorView, first: Seq<EventView>, second: Seq<EventView>)
    ensures
        answers(mirror, first + second) == answers(mirror, first) + answers(
            after(mirror, first),
            second,
        ),
        after(mirror, first + second) == after(after(mirror, first), second),
    decreases first.len(),
{
    if first.len() > 0 {
        let then = stepped(mirror, first.first());
        assert((first + second).drop_first() =~= first.drop_first() + second);
        answers_in_a_row(then, first.drop_first(), second);
    }
}

proof fn answers_to_one(mirror: MirrorView, event: EventView, others: Seq<EventView>)
    ensures
        answers(mirror, seq![event] + others) == seq![next_action(mirror, event)] + answers(
            stepped(mirror, event),
            others,
        ),
        after(mirror, seq![event] + others) == after(stepped(mirror, event), others),
{
    let events = seq![event] + others;
    assert(events.drop_first() =~= others);
}

proof fn refresh_up_to_analysis(mirror: MirrorView, analysis: EventView)
    requires
        mirror.stage is Ready,
    ensures
        answers(mirror, refresh_events(analysis)) == refresh_commands(mirror).push(
            next_action(
                MirrorView {
                    upstream: mirror.upstream,
                    branch: mirror.branch,
                    stage: Stage::Analyzing,
                },
                analysis,
            ),
        ),
        after(mirror, refresh_events(analysis)) == (MirrorView {
            upstream: mirror.upstream,
            branch: mirror.branch,
            stage: next_stage(Stage::Analyzing, analysis),
        }),
{
    let e1 = seq![EventView::Succeeded, EventView::Succeeded, analysis];
    let e2 = seq![EventView::Succeeded, analysis];
    let e3 = seq![analysis];
    let m1 = stepped(mirror, EventView::Tick);
    let m2 = stepped(m1, EventView::Succeeded);
    let m3 = stepped(m2, EventView::Succeeded);
    assert(refresh_events(analysis) =~= seq![EventView::Tick] + e1);
    assert(e1 =~= seq![EventView::Succeeded] + e2);
    assert(e2 =~= seq![EventView::Succeeded] + e3);
    answers_to_one(mirror, EventView::Tick, e1);
    answers_to_one(m1, EventView::Succeeded, e2);
    answers_to_one(m2, EventView::Succeeded, e3);
    answers_to_one(m3, analysis, Seq::empty());
}

/// Refreshing an up-to-date checkout: the remote is set, the branch fetched
/// and analyzed, and that is all.  The refresh succeeds and the mirror is
/// ready as before.
pub proof fn up_to_date_refresh_does_nothing(
    mirror: MirrorView,
    fast_forward: bool,
    target: Seq<u8>,
)
    requires
        mirror.stage is Ready,
    ensures
        ({
            let events = refresh_events(
                EventView::Analyzed { up_to_date: true, fast_forward, target },
            );
            &&& answers(mirror, events) == refresh_commands(mirror).push(
                ActionView::Report(Outcome::UpToDate),
            )
            &&& after(mirror, events) == mirror
            &&& forall|i: int|
                0 <= i < answers(mirror, events).len() ==> !touching(#[trigger] answers(mirror, events)[i])
        }),
{
    refresh_up_to_analysis(mirror, EventView::Analyzed { up_to_date: true, fast_forward, target });
}

/// Non-fast-forward safety: where the histories have diverged, the remote
/// is set, the branch fetched and analyzed, and that is all.  No command
/// touches the checkout, the refresh reports the divergence, and the mirror
/// is ready as before.
pub proof fn diverged_refresh_touches_nothing(mirror: MirrorView, target: Seq<u8>)
    requires
        mirror.stage is Ready,
    ensures
        ({
            let events = refresh_events(
                EventView::Analyzed { up_to_date: false, fast_forward: false, target },
            );
            &&& answers(mirror, events) == refresh_commands(mirror).push(
                ActionView::Report(Outcome::Failed(SyncError::Diverged)),
            )
            &&& after(mirror, events) == mirror
            &&& forall|i: int|
                0 <= i < answers(mirror, events).len() ==> !touching(#[trigger] answers(mirror, events)[i])
        }),
{
    refresh_up_to_analysis(
        mirror,
        EventView::Analyzed { up_to_date: false, fast_forward: false, target },
    );
}

/// A fast-forward: after the analysis the branch is moved to the fetched
/// commit, `HEAD` set to the branch and its tree checked out, in this order.
/// The refresh succeeds and the mirror is ready as before.
pub proof fn fast_forward_refresh_moves_to_target(mirror: MirrorView, target: Seq<u8>)
    requires
        mirror.stage is Ready,
    ensures
        ({
            let events = refresh_events(
                EventView::Analyzed { up_to_date: false, fast_forward: true, target },
            ) + fast_forward_events();
            &&& answers(mirror, events) == (refresh_commands(mirror) + fast_forward_commands(
                mirror,
                target,
            )).push(ActionView::Report(Outcome::FastForwarded))
            &&& after(mirror, events) == mirror
        }),
{
    let analysis = EventView::Analyzed { up_to_date: false, fast_forward: true, target };
    refresh_up_to_analysis(mirror, analysis);
    answers_in_a_row(mirror, refresh_events(analysis), fast_forward_events());
    let m0 = after(mirror, refresh_events(analysis));
    let m1 = stepped(m0, EventView::Succeeded);
    let m2 = stepped(m1, EventView::Succeeded);
    let e1 = seq![EventView::Succeeded, EventView::Succeeded];
    let e2 = seq![EventView::Succeeded];
    assert(fast_forward_events() =~= seq![EventView::Succeeded] + e1);
    assert(e1 =~= seq![EventView::Succeeded] + e2);
    answers_to_one(m0, EventView::Succeeded, e1);
    answers_to_one(m1, EventView::Succeeded, e2);
    answers_to_one(m2, EventView::Succeeded, Seq::empty());
}

/// Idempotent refresh: a refresh that finds the checkout up to date, right
/// after a refresh that succeeded, succeeds too and touches nothing.  The
/// analysis says "up to date" where the upstream has not moved since the
/// first refresh.
pub proof fn refresh_after_refresh_is_idle(
    mirror: MirrorView,
    first: EventView,
    second_fast_forward: bool,
    second_target: Seq<u8>,
)
    requires
        mirror.stage is Ready,
        first is Analyzed,
        !(relation_of(first->up_to_date, first->fast_forward) is Diverged),
    ensures
        ({
            let first_events = if allows_fast_forward(first) {
                refresh_events(first) + fast_forward_events()
            } else {
                refresh_events(first)
            };
            let second_events = refresh_events(
                EventView::Analyzed {
                    up_to_date: true,
                    fast_forward: second_fast_forward,
                    target: second_target,
                },
            );
            let first_answers = answers(mirror, first_events);
            let both = answers(mirror, first_events + second_events);
            &&& first_answers.last() == ActionView::Report(
                if allows_fast_forward(first) {
                    Outcome::FastForwarded
                } else {
                    Outcome::UpToDate
                },
            )
            &&& both == first_answers + refresh_commands(mirror).push(
                ActionView::Report(Outcome::UpToDate),
            )
            &&& forall|i: int| first_answers.len() <= i < both.len() ==> !touching(#[trigger] both[i])
            &&& after(mirror, first_events + second_events) == mirror
        }),
{
    let target = first->target;
    let first_events = if allows_fast_forward(first) {
        refresh_events(first) + fast_forward_events()
    } else {
        refresh_events(first)
    };
    let second_events = refresh_events(
        EventView::Analyzed { up_to_date: true, fast_forward: second_fast_forward, target: second_target },
    );
    if allows_fast_forward(first) {
        fast_forward_refresh_moves_to_target(mirror, target);
    } else {
        up_to_date_refresh_does_nothing(mirror, first->fast_forward, target);
    }
    up_to_date_refresh_does_nothing(mirror, second_fast_forward, second_target);
    answers_in_a_row(mirror, first_events, second_events);
}

/// The checkout is touched only on a fast-forward: from a mirror that is
/// ready or refreshing and has not come to moving the branch, whatever
/// happens, as long as no analysis allows a fast-forward no command touches
/// the checkout.
pub proof fn only_fast_forward_touches_checkout(mirror: MirrorView, events: Seq<EventView>)
    requires
        mirror.stage is Ready || mirror.stage is SettingRemote || mirror.stage is Fetching
            || mirror.stage is Analyzing,
        forall|i: int| 0 <= i < events.len() ==> !allows_fast_forward(#[trigger] events[i]),
    ensures
        answers(mirror, events).len() == events.len(),
        forall|i: int| 0 <= i < events.len() ==> !touching(#[trigger] answers(mirror, events)[i]),
        ({
            let stage = after(mirror, events).stage;
            stage is Ready || stage is SettingRemote || stage is Fetching || stage is Analyzing
        }),
    decreases events.len(),
{
    if events.len() > 0 {
        let then = stepped(mirror, events.first());
        let rest = events.drop_first();
        only_fast_forward_touches_checkout(then, rest);
    }
}

} // verus!
