//! The maintenance of one repository as a state machine. The caller performs
//! each action it is handed (a directory change, a Git command, a print) and
//! reports back what happened; the machine decides what comes next.

use vstd::prelude::*;

use crate::count::{parse_stash_count, stated_count};
use crate::warning::{get_stash_warning_message, is_warning_rendering};

verus! {

/// A Git command that maintenance runs inside a repository.
#[derive(PartialEq, Eq, Structural, Clone, Copy, Debug)]
pub enum GitOperation {
    /// Aggressive garbage collection of the object store.
    Gc,
    /// A fetch that prunes remote-tracking branches gone from the remote.
    Prune,
    /// The listing of stash entries, one per line.
    StashList,
}

/// The arguments with which Git is run for an operation.
pub open spec fn operation_words(op: GitOperation) -> Seq<Seq<char>> {
    match op {
        GitOperation::Gc => seq!["gc"@, "--aggressive"@],
        GitOperation::Prune => seq!["fetch"@, "--prune"@],
        GitOperation::StashList => seq!["stash"@, "list"@],
    }
}

impl GitOperation {
    /// The arguments with which Git is run for this operation.
    pub fn arguments(&self) -> (r: Vec<&'static str>)
        ensures
            r@.len() == 2,
            r@[0]@ == operation_words(*self)[0],
            r@[1]@ == operation_words(*self)[1],
    {
        match self {
            GitOperation::Gc => vec!["gc", "--aggressive"],
            GitOperation::Prune => vec!["fetch", "--prune"],
            GitOperation::StashList => vec!["stash", "list"],
        }
    }
}

/// How far the maintenance of a repository has come.
#[derive(PartialEq, Eq, Structural, Clone, Copy, Debug)]
pub enum Phase {
    Start,
    SavingDir,
    EnteringDir,
    Cleaning,
    Pruning,
    Counting,
    Printing,
    Restoring,
    Done,
    Aborted,
}

/// What the caller reports after performing an action.
#[derive(Clone, Debug)]
pub enum Event {
    /// Asks for the first action.
    Begin,
    /// The working directory in force before the repository was entered.
    DirSaved(String),
    /// The action completed.
    StepDone,
    /// What the stash listing, counted by lines, printed.
    StashOutput(Vec<u8>),
    /// The action could not be performed.
    Failed,
    /// The stash listing, asked for to count the stash, could not be started.
    ListingFailed,
}

/// What the machine asks the caller to do next.
#[derive(Clone, Debug)]
pub enum Action {
    /// Record the current working directory and report it.
    SaveDir,
    /// Make this directory the working directory.
    EnterDir(String),
    /// Run a Git command with the terminal's streams.
    Run(GitOperation),
    /// Run the stash listing, count its lines and report the count's text
    /// (or that the listing could not be started).
    CountStash,
    /// Print this line.
    Print(String),
    /// Make this directory the working directory again.
    RestoreDir(String),
    /// Nothing is left to do for this repository.
    Finish,
    /// Stop the whole program with this message.
    Abort(String),
}

/// The state of one repository's maintenance.
#[derive(Clone, Debug)]
pub struct Maintenance {
    pub repo: String,
    pub phase: Phase,
    pub saved_dir: String,
}

/// The message with which the program stops when the step under way in
/// `phase` fails.
pub open spec fn failure_text(phase: Phase, repo: Seq<char>, saved: Seq<char>) -> Seq<char> {
    match phase {
        Phase::EnteringDir => "No such directory: "@ + repo,
        Phase::Cleaning => "Failed to clean "@ + repo,
        Phase::Pruning => "Failed to prune branches from "@ + repo,
        Phase::Counting => "Failed to count stash entries on "@ + repo,
        Phase::Printing => "Failed to print the stash warning for "@ + repo,
        Phase::Restoring => "Failed to return to "@ + saved,
        _ => "Failed to read the working directory before maintaining "@ + repo,
    }
}

/// The message with which the program stops when the stash listing of
/// `repo` cannot be started.
pub open spec fn listing_failure_text(repo: Seq<char>) -> Seq<char> {
    "Failed to run git stash list on "@ + repo
}

/// The state after `e` has been reported in state `m`.
pub open spec fn next_state(m: Maintenance, e: Event) -> Maintenance {
    let moved = |p: Phase| Maintenance { phase: p, ..m };
    match (m.phase, e) {
        (Phase::Done, _) => m,
        (Phase::Aborted, _) => m,
        (Phase::Start, Event::Begin) => moved(Phase::SavingDir),
        (Phase::SavingDir, Event::DirSaved(d)) => Maintenance { phase: Phase::EnteringDir, saved_dir: d, ..m },
        (Phase::EnteringDir, Event::StepDone) => moved(Phase::Cleaning),
        (Phase::Cleaning, Event::StepDone) => moved(Phase::Pruning),
        (Phase::Pruning, Event::StepDone) => moved(Phase::Counting),
        (Phase::Counting, Event::StashOutput(o)) => match stated_count(o@) {
            Some(c) => if c > 0 { moved(Phase::Printing) } else { moved(Phase::Restoring) },
            None => moved(Phase::Aborted),
        },
        (Phase::Printing, Event::StepDone) => moved(Phase::Restoring),
        (Phase::Restoring, Event::StepDone) => moved(Phase::Done),
        _ => moved(Phase::Aborted),
    }
}

/// Whether `a` is the action owed after `e` has been reported in state `m`.
pub open spec fn action_fits(m: Maintenance, e: Event, a: Action) -> bool {
    let abort = a matches Action::Abort(msg) && msg@ == failure_text(m.phase, m.repo@, m.saved_dir@);
    match (m.phase, e) {
        (Phase::Done, _) => a is Finish,
        (Phase::Aborted, _) => a is Finish,
        (Phase::Start, Event::Begin) => a is SaveDir,
        (Phase::SavingDir, Event::DirSaved(_)) => a matches Action::EnterDir(d) && d@ == m.repo@,
        (Phase::EnteringDir, Event::StepDone) => a == Action::Run(GitOperation::Gc),
        (Phase::Cleaning, Event::StepDone) => a == Action::Run(GitOperation::Prune),
        (Phase::Pruning, Event::StepDone) => a is CountStash,
        (Phase::Counting, Event::StashOutput(o)) => match stated_count(o@) {
            Some(c) => if c > 0 {
                a matches Action::Print(line) && is_warning_rendering(m.repo@, c, line@)
            } else {
                a matches Action::RestoreDir(d) && d@ == m.saved_dir@
            },
            None => abort,
        },
        (Phase::Counting, Event::ListingFailed) => a matches Action::Abort(msg) && msg@
            == listing_failure_text(m.repo@),
        (Phase::Printing, Event::StepDone) => a matches Action::RestoreDir(d) && d@ == m.saved_dir@,
        (Phase::Restoring, Event::StepDone) => a is Finish,
        _ => abort,
    }
}

/// Whether `actions` are the actions owed, one by one, for `events`
/// reported from state `m` on.
pub open spec fn trace_fits(m: Maintenance, events: Seq<Event>, actions: Seq<Action>) -> bool
    decreases events.len(),
{
    events.len() == actions.len() && (events.len() == 0 || (action_fits(m, events[0], actions[0])
        && trace_fits(next_state(m, events[0]), events.skip(1), actions.skip(1))))
}

/// Whether the working directory has been recorded in this phase.
pub open spec fn dir_recorded(p: Phase) -> bool {
    !(p is Start) && !(p is SavingDir)
}

fn with_text(prefix: &str, tail: &str) -> (r: String)
    ensures
        r@ == prefix@ + tail@,
{
    String::from_str(prefix).concat(tail)
}

impl Maintenance {
    /// The maintenance of `repo`, not yet begun.
    pub fn new(repo: String) -> (r: Maintenance)
        ensures
            r.repo == repo,
            r.phase == Phase::Start,
            r.saved_dir@ == Seq::<char>::empty(),
    {
        Maintenance { repo, phase: Phase::Start, saved_dir: String::new() }
    }

    fn failure(&self) -> (r: String)
        ensures
            r@ == failure_text(self.phase, self.repo@, self.saved_dir@),
    {
        let repo = self.repo.as_str();
        match self.phase {
            Phase::EnteringDir => with_text("No such directory: ", repo),
            Phase::Cleaning => with_text("Failed to clean ", repo),
            Phase::Pruning => with_text("Failed to prune branches from ", repo),
            Phase::Counting => with_text("Failed to count stash entries on ", repo),
            Phase::Printing => with_text("Failed to print the stash warning for ", repo),
            Phase::Restoring => with_text("Failed to return to ", self.saved_dir.as_str()),
            _ => with_text("Failed to read the working directory before maintaining ", repo),
        }
    }

    /// Takes what happened to the last action and hands out the next one.
    pub fn step(&mut self, event: Event) -> (a: Action)
        ensures
            *final(self) == next_state(*old(self), event),
            action_fits(*old(self), event, a),
    {
        match self.phase {
            Phase::Done => return Action::Finish,
            Phase::Aborted => return Action::Finish,
            _ => {},
        }
        let abort = Action::Abort(self.failure());
        match (self.phase, event) {
            (Phase::Start, Event::Begin) => {
                self.phase = Phase::SavingDir;
                Action::SaveDir
            },
            (Phase::SavingDir, Event::DirSaved(d)) => {
                self.phase = Phase::EnteringDir;
                self.saved_dir = d;
                Action::EnterDir(self.repo.clone())
            },
            (Phase::EnteringDir, Event::StepDone) => {
                self.phase = Phase::Cleaning;
                Action::Run(GitOperation::Gc)
            },
            (Phase::Cleaning, Event::StepDone) => {
                self.phase = Phase::Pruning;
                Action::Run(GitOperation::Prune)
            },
            (Phase::Pruning, Event::StepDone) => {
                self.phase = Phase::Counting;
                Action::CountStash
            },
            (Phase::Counting, Event::StashOutput(o)) => match parse_stash_count(&o) {
                Some(c) => {
                    if c > 0 {
                        self.phase = Phase::Printing;
                        Action::Print(get_stash_warning_message(self.repo.as_str(), c))
                    } else {
                        self.phase = Phase::Restoring;
                        Action::RestoreDir(self.saved_dir.clone())
                    }
                },
                None => {
                    self.phase = Phase::Aborted;
                    abort
                },
            },
            (Phase::Counting, Event::ListingFailed) => {
                self.phase = Phase::Aborted;
                Action::Abort(with_text("Failed to run git stash list on ", self.repo.as_str()))
            },
            (Phase::Printing, Event::StepDone) => {
                self.phase = Phase::Restoring;
                Action::RestoreDir(self.saved_dir.clone())
            },
            (Phase::Restoring, Event::StepDone) => {
                self.phase = Phase::Done;
                Action::Finish
            },
            _ => {
                self.phase = Phase::Aborted;
                abort
            },
        }
    }
}

proof fn lemma_restores_recorded_dir(m: Maintenance, events: Seq<Event>, actions: Seq<Action>)
    requires
        dir_recorded(m.phase),
        trace_fits(m, events, actions),
    ensures
        forall|i: int|
            0 <= i < actions.len() ==> (#[trigger] actions[i] matches Action::RestoreDir(d) ==> d@
                == m.saved_dir@),
    decreases events.len(),
{
    if events.len() > 0 {
        let n = next_state(m, events[0]);
        assert(n.saved_dir == m.saved_dir);
        lemma_restores_recorded_dir(n, events.skip(1), actions.skip(1));
        assert forall|i: int|
            0 <= i < actions.len() implies (#[trigger] actions[i] matches Action::RestoreDir(d) ==> d@
                == m.saved_dir@) by {
            if i > 0 {
                assert(actions[i] == actions.skip(1)[i - 1]);
            }
        }
    }
}

/// Maintenance returns to where it started: once the working directory `d`
/// has been reported, every directory that the machine later asks to restore
/// is `d`, whatever else is reported.
pub proof fn lemma_restore_returns_to_saved_dir(
    m: Maintenance,
    d: String,
    events: Seq<Event>,
    actions: Seq<Action>,
)
    requires
        m.phase == Phase::SavingDir,
        trace_fits(m, seq![Event::DirSaved(d)] + events, actions),
    ensures
        forall|i: int|
            0 <= i < actions.len() ==> (#[trigger] actions[i] matches Action::RestoreDir(r) ==> r@
                == d@),
{
    let all = seq![Event::DirSaved(d)] + events;
    assert(all[0] == Event::DirSaved(d));
    assert(all.skip(1) =~= events);
    let n = next_state(m, all[0]);
    assert(n.saved_dir == d);
    lemma_restores_recorded_dir(n, events, actions.skip(1));
    assert forall|i: int|
        0 <= i < actions.len() implies (#[trigger] actions[i] matches Action::RestoreDir(r) ==> r@
            == d@) by {
        if i > 0 {
            assert(actions[i] == actions.skip(1)[i - 1]);
        }
    }
}

/// The events of a maintenance in which every step succeeds, the working
/// directory being `d` and the stash count's text `out` (a warning line is
/// printed, and confirmed, where the count is positive).
pub open spec fn successful_events(d: String, out: Vec<u8>) -> Seq<Event> {
    let printed = match stated_count(out@) {
        Some(c) => if c > 0 { seq![Event::StepDone] } else { Seq::empty() },
        None => Seq::empty(),
    };
    seq![Event::DirSaved(d), Event::StepDone, Event::StepDone, Event::StepDone, Event::StashOutput(out)]
        + printed + seq![Event::StepDone]
}

/// A maintenance whose steps all succeed leaves the repository by restoring
/// the working directory reported at its start, and then finishes.
pub proof fn lemma_successful_run_restores(
    m: Maintenance,
    d: String,
    out: Vec<u8>,
    actions: Seq<Action>,
)
    requires
        m.phase == Phase::SavingDir,
        stated_count(out@) is Some,
        trace_fits(m, successful_events(d, out), actions),
    ensures
        actions.len() >= 2,
        actions[actions.len() - 2] matches Action::RestoreDir(r) && r@ == d@,
        actions.last() is Finish,
{
    let es = successful_events(d, out);
    let c = stated_count(out@)->0;
    let m1 = next_state(m, es[0]);
    let m2 = next_state(m1, es[1]);
    let m3 = next_state(m2, es[2]);
    let m4 = next_state(m3, es[3]);
    let m5 = next_state(m4, es[4]);
    assert(m5.saved_dir == d);
    assert(trace_fits(m1, es.skip(1), actions.skip(1)));
    assert(es.skip(1).skip(1) =~= es.skip(2));
    assert(actions.skip(1).skip(1) =~= actions.skip(2));
    assert(trace_fits(m2, es.skip(2), actions.skip(2)));
    assert(es.skip(2).skip(1) =~= es.skip(3));
    assert(actions.skip(2).skip(1) =~= actions.skip(3));
    assert(trace_fits(m3, es.skip(3), actions.skip(3)));
    assert(es.skip(3).skip(1) =~= es.skip(4));
    assert(actions.skip(3).skip(1) =~= actions.skip(4));
    assert(trace_fits(m4, es.skip(4), actions.skip(4)));
    assert(es.skip(4).skip(1) =~= es.skip(5));
    assert(actions.skip(4).skip(1) =~= actions.skip(5));
    assert(trace_fits(m5, es.skip(5), actions.skip(5)));
    if c > 0 {
        assert(es.len() == 7);
        assert(actions[4] == actions.skip(4)[0]);
        let m6 = next_state(m5, es[5]);
        assert(es.skip(5).skip(1) =~= es.skip(6));
        assert(actions.skip(5).skip(1) =~= actions.skip(6));
        assert(trace_fits(m6, es.skip(6), actions.skip(6)));
        assert(actions[5] == actions.skip(5)[0]);
        assert(actions[6] == actions.skip(6)[0]);
    } else {
        assert(es.len() == 6);
        assert(actions[4] == actions.skip(4)[0]);
        assert(actions[5] == actions.skip(5)[0]);
    }
}

} // verus!
