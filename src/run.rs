//! The order of the work over a list of pull requests: for each, in the
//! order given, fetch its title, then its commits, then print its table. The
//! first failed fetch ends the run.

use vstd::prelude::*;
use crate::request::{Endpoint, FetchError};
use crate::table::{
    commit_table_lines, commits_view, lines_view, table_lines, Commit, CommitModel, PullRequestSummary,
};

verus! {

/// What the run waits for.
pub enum Phase {
    /// The title of the current pull request.
    AwaitTitle,
    /// The commits of the current pull request, whose title came.
    AwaitCommits(String),
    /// Nothing: every table was printed.
    Finished,
    /// Nothing: a fetch failed with this error.
    Aborted(FetchError),
}

/// The state of a run over a list of pull request numbers.
pub struct Run {
    prs: Vec<u32>,
    pos: usize,
    phase: Phase,
}

/// The answer to the fetch that the run asked for.
pub enum Event {
    Title(Result<PullRequestSummary, FetchError>),
    Commits(Result<Vec<Commit>, FetchError>),
}

/// What a run waits for, as mathematical values.
pub enum PhaseModel {
    AwaitTitle,
    AwaitCommits(Seq<char>),
    Finished,
    Aborted(FetchError),
}

/// A run as mathematical values: the list, the index of the current pull
/// request in it, and what the run waits for.
pub struct RunModel {
    pub prs: Seq<u32>,
    pub pos: nat,
    pub phase: PhaseModel,
}

/// An answer to a fetch, as mathematical values: the title, or the commits.
pub enum EventModel {
    Title(Result<Seq<char>, FetchError>),
    Commits(Result<Seq<CommitModel>, FetchError>),
}

impl View for Event {
    type V = EventModel;

    open spec fn view(&self) -> EventModel {
        match self {
            Event::Title(Ok(p)) => EventModel::Title(Ok(p.title@)),
            Event::Title(Err(e)) => EventModel::Title(Err(*e)),
            Event::Commits(Ok(cs)) => EventModel::Commits(Ok(commits_view(cs@))),
            Event::Commits(Err(e)) => EventModel::Commits(Err(*e)),
        }
    }
}

impl View for Run {
    type V = RunModel;

    closed spec fn view(&self) -> RunModel {
        RunModel {
            prs: self.prs@,
            pos: self.pos as nat,
            phase: match self.phase {
                Phase::AwaitTitle => PhaseModel::AwaitTitle,
                Phase::AwaitCommits(t) => PhaseModel::AwaitCommits(t@),
                Phase::Finished => PhaseModel::Finished,
                Phase::Aborted(e) => PhaseModel::Aborted(e),
            },
        }
    }
}

/// The position stays within the list; a run that waits has a current pull
/// request, and a finished one has gone through the whole list.
pub open spec fn model_wf(m: RunModel) -> bool {
    &&& m.pos <= m.prs.len()
    &&& (m.phase is AwaitTitle || m.phase is AwaitCommits) ==> m.pos < m.prs.len()
    &&& m.phase is Finished ==> m.pos == m.prs.len()
}

/// A run that has not fetched anything yet.
pub open spec fn start(prs: Seq<u32>) -> RunModel {
    RunModel {
        prs,
        pos: 0,
        phase: if prs.len() == 0 {
            PhaseModel::Finished
        } else {
            PhaseModel::AwaitTitle
        },
    }
}

/// The fetch that the run asks for next, if any.
pub open spec fn pending(m: RunModel) -> Option<(u32, Endpoint)> {
    match m.phase {
        PhaseModel::AwaitTitle => Some((m.prs[m.pos as int], Endpoint::Title)),
        PhaseModel::AwaitCommits(_) => Some((m.prs[m.pos as int], Endpoint::Commits)),
        _ => None,
    }
}

/// Whether `e` answers the fetch that `m` waits for with an error.
pub open spec fn failure_of(m: RunModel, e: EventModel) -> Option<FetchError> {
    match (m.phase, e) {
        (PhaseModel::AwaitTitle, EventModel::Title(Err(err))) => Some(err),
        (PhaseModel::AwaitCommits(_), EventModel::Commits(Err(err))) => Some(err),
        _ => None,
    }
}

/// One step of a run: the state after `e`, and the table to print, if any.
/// A title moves on to the commits; commits give the table of the current
/// pull request and move on to the next one; an error ends the run. An
/// answer to a fetch that the run did not ask for changes nothing.
pub open spec fn step(m: RunModel, e: EventModel) -> (RunModel, Option<Seq<Seq<char>>>) {
    match (m.phase, e) {
        (PhaseModel::AwaitTitle, EventModel::Title(Ok(t))) => (
            RunModel { phase: PhaseModel::AwaitCommits(t), ..m },
            None,
        ),
        (PhaseModel::AwaitCommits(t), EventModel::Commits(Ok(cs))) => (
            RunModel {
                pos: m.pos + 1,
                phase: if m.pos + 1 < m.prs.len() {
                    PhaseModel::AwaitTitle
                } else {
                    PhaseModel::Finished
                },
                ..m
            },
            Some(table_lines(m.prs[m.pos as int], t, cs)),
        ),
        (PhaseModel::AwaitTitle, EventModel::Title(Err(err))) => (
            RunModel { phase: PhaseModel::Aborted(err), ..m },
            None,
        ),
        (PhaseModel::AwaitCommits(_), EventModel::Commits(Err(err))) => (
            RunModel { phase: PhaseModel::Aborted(err), ..m },
            None,
        ),
        _ => (m, None),
    }
}

/// The state after the events `es`, one after the other, and the tables
/// printed on the way, in the order in which they were printed.
pub open spec fn replay(m: RunModel, es: Seq<EventModel>) -> (RunModel, Seq<Seq<Seq<char>>>)
    decreases es.len(),
{
    if es.len() == 0 {
        (m, Seq::empty())
    } else {
        let (m1, out) = step(m, es[0]);
        let (m2, rest) = replay(m1, es.drop_first());
        match out {
            Some(t) => (m2, seq![t] + rest),
            None => (m2, rest),
        }
    }
}

/// Whether `lines` are the whole table of the pull request `pr_number`, for
/// some title and some list of commits.
pub open spec fn is_table_of(lines: Seq<Seq<char>>, pr_number: u32) -> bool {
    exists|t: Seq<char>, cs: Seq<CommitModel>| lines == #[trigger] table_lines(pr_number, t, cs)
}

proof fn lemma_replay_order(m: RunModel, es: Seq<EventModel>)
    requires
        model_wf(m),
    ensures
        model_wf(replay(m, es).0),
        replay(m, es).0.prs == m.prs,
        replay(m, es).0.pos == m.pos + replay(m, es).1.len(),
        forall|i: int|
            0 <= i < replay(m, es).1.len() ==> is_table_of(
                #[trigger] replay(m, es).1[i],
                m.prs[m.pos + i],
            ),
    decreases es.len(),
{
    if es.len() > 0 {
        let (m1, out) = step(m, es[0]);
        let (m2, rest) = replay(m1, es.drop_first());
        lemma_replay_order(m1, es.drop_first());
        let outs = replay(m, es).1;
        match out {
            Some(first) => {
                assert(outs == seq![first] + rest);
                assert(m1.pos == m.pos + 1);
                assert forall|i: int| 0 <= i < outs.len() implies is_table_of(
                    #[trigger] outs[i],
                    m.prs[m.pos + i],
                ) by {
                    if i == 0 {
                        match (m.phase, es[0]) {
                            (PhaseModel::AwaitCommits(t), EventModel::Commits(Ok(cs))) => {
                                assert(outs[0] == table_lines(m.prs[m.pos + 0int], t, cs));
                                assert(is_table_of(outs[0], m.prs[m.pos + 0int]));
                            },
                            _ => {},
                        }
                    } else {
                        assert(outs[i] == rest[i - 1]);
                        assert(m.pos + i == m1.pos + (i - 1));
                    }
                }
            },
            None => {
                assert(outs == rest);
                assert(m1.pos == m.pos);
            },
        }
    }
}

/// The tables of a run come out in the order of its list: the `i`-th table
/// printed is a whole table of the `i`-th pull request of the list, printed
/// at once, and no more tables come out than the list has numbers.
pub proof fn lemma_tables_in_list_order(prs: Seq<u32>, es: Seq<EventModel>)
    ensures
        replay(start(prs), es).1.len() <= prs.len(),
        forall|i: int|
            0 <= i < replay(start(prs), es).1.len() ==> is_table_of(
                #[trigger] replay(start(prs), es).1[i],
                prs[i],
            ),
{
    lemma_replay_order(start(prs), es);
}

proof fn lemma_aborted_stays(m: RunModel, es: Seq<EventModel>)
    requires
        m.phase is Aborted,
    ensures
        replay(m, es) == (m, Seq::<Seq<Seq<char>>>::empty()),
    decreases es.len(),
{
    if es.len() > 0 {
        lemma_aborted_stays(m, es.drop_first());
    }
}

/// A failed fetch ends the run: no table of that pull request is printed,
/// the run keeps the error, and whatever answers come after, it asks for no
/// other fetch and prints nothing more.
pub proof fn lemma_failure_ends_run(m: RunModel, e: EventModel, es: Seq<EventModel>)
    requires
        model_wf(m),
        failure_of(m, e) is Some,
    ensures
        step(m, e).1 is None,
        step(m, e).0.phase == PhaseModel::Aborted(failure_of(m, e)->Some_0),
        pending(step(m, e).0) is None,
        replay(step(m, e).0, es).1.len() == 0,
        pending(replay(step(m, e).0, es).0) is None,
{
    lemma_aborted_stays(step(m, e).0, es);
}

impl Run {
    pub open spec fn wf(&self) -> bool {
        model_wf(self@)
    }

    /// A run over `prs`, in that order.
    pub fn new(prs: Vec<u32>) -> (r: Run)
        ensures
            r@ == start(prs@),
            r.wf(),
    {
        let phase = if prs.len() == 0 {
            Phase::Finished
        } else {
            Phase::AwaitTitle
        };
        Run { prs, pos: 0, phase }
    }

    /// The fetch to make next: the pull request's number and what to fetch.
    /// `None` once the run has finished or failed.
    pub fn next_fetch(&self) -> (r: Option<(u32, Endpoint)>)
        requires
            self.wf(),
        ensures
            r == pending(self@),
    {
        match &self.phase {
            Phase::AwaitTitle => Some((self.prs[self.pos], Endpoint::Title)),
            Phase::AwaitCommits(_) => Some((self.prs[self.pos], Endpoint::Commits)),
            _ => None,
        }
    }

    /// How the run ended: `None` while it goes on, `Ok` once every table was
    /// printed, the error of the fetch that failed otherwise.
    pub fn outcome(&self) -> (r: Option<Result<(), FetchError>>)
        ensures
            self@.phase is Finished ==> r == Some(Ok::<(), FetchError>(())),
            self@.phase is Aborted ==> r == Some(Err::<(), FetchError>(self@.phase->Aborted_0)),
            (self@.phase is AwaitTitle || self@.phase is AwaitCommits) ==> r is None,
    {
        match &self.phase {
            Phase::Finished => Some(Ok(())),
            Phase::Aborted(e) => Some(Err(*e)),
            _ => None,
        }
    }

    /// Takes the answer to the last fetch and returns the lines of the table
    /// to print, if this answer completes one.
    pub fn handle(&mut self, event: Event) -> (out: Option<Vec<String>>)
        requires
            old(self).wf(),
        ensures
            final(self).wf(),
            final(self)@ == step(old(self)@, event@).0,
            match out {
                Some(lines) => step(old(self)@, event@).1 == Some(lines_view(lines@)),
                None => step(old(self)@, event@).1 is None,
            },
    {
        let ghost before = self@;
        let mut phase = Phase::Finished;
        std::mem::swap(&mut phase, &mut self.phase);
        assert(self.pos == before.pos && self.prs@ == before.prs);
        match event {
            Event::Title(res) => match phase {
                Phase::AwaitTitle => {
                    match res {
                        Ok(p) => {
                            self.phase = Phase::AwaitCommits(p.title);
                        },
                        Err(e) => {
                            self.phase = Phase::Aborted(e);
                        },
                    }
                    None
                },
                other => {
                    self.phase = other;
                    None
                },
            },
            Event::Commits(res) => match phase {
                Phase::AwaitCommits(t) => match res {
                    Ok(cs) => {
                        assert(before.phase is AwaitCommits);
                        let n = self.prs.len();
                        assert(self.pos < n);
                        let lines = commit_table_lines(self.prs[self.pos], t.as_str(), &cs);
                        self.pos = self.pos + 1;
                        if self.pos < self.prs.len() {
                            self.phase = Phase::AwaitTitle;
                        } else {
                            self.phase = Phase::Finished;
                        }
                        Some(lines)
                    },
                    Err(e) => {
                        self.phase = Phase::Aborted(e);
                        None
                    },
                },
                other => {
                    self.phase = other;
                    None
                },
            },
        }
    }
}

} // verus!
