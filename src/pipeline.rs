//! The run as a state machine: commits are extracted and summarized one at
//! a time, in order, then the changelog is drafted from all summaries. Any
//! failure ends the run; no changelog is produced from part of the commits.
//!
//! The machine decides; its caller performs each action it returns (reading
//! a diff, asking the model) and hands back what came of it as an event.
use vstd::prelude::*;
use crate::diff::CommitInfo;
use crate::prompt::{Changelog, CommitSummary, SummaryView};
use crate::text::views;

verus! {

/// Where a run stands.
#[derive(Debug, Clone, Copy, PartialEq, Eq, Structural)]
pub enum Stage {
    Enumerating,
    ExtractingDiff,
    Summarizing,
    Aggregating,
    Done,
    Failed,
}

/// What came of the last action.
#[derive(Debug)]
pub enum Event {
    /// The commit range resolved to these commits, oldest first.
    Enumerated(Vec<String>),
    /// The commit asked for was read.
    DiffExtracted(CommitInfo),
    /// The model summarized the commit.
    Summarized(CommitSummary),
    /// The model drafted the changelog.
    Drafted(Changelog),
    /// The last action failed.
    Failure(String),
}

/// What the caller is to do next.
#[derive(Debug)]
pub enum Action {
    /// Read the diff of the commit with this identifier.
    ExtractDiff(String),
    /// Ask the model to summarize this commit.
    Summarize(CommitInfo),
    /// Ask the model for the changelog of all summaries so far.
    DraftChangelog,
    /// The changelog is ready.
    Finish,
    /// The run has failed; stop.
    Abort,
}

/// A run in progress.
pub struct Aggregator {
    stage: Stage,
    commits: Vec<String>,
    summaries: Vec<CommitSummary>,
    changelog: Option<Changelog>,
    failure: Option<String>,
}

/// A run as plain values.
pub struct AggregatorView {
    pub stage: Stage,
    pub commits: Seq<Seq<char>>,
    pub summaries: Seq<SummaryView>,
    pub failure: Option<Seq<char>>,
}

impl View for Aggregator {
    type V = AggregatorView;

    closed spec fn view(&self) -> AggregatorView {
        AggregatorView {
            stage: self.stage,
            commits: views(self.commits@),
            summaries: self.summaries@.map_values(|s: CommitSummary| s@),
            failure: match self.failure {
                Some(f) => Some(f@),
                None => None,
            },
        }
    }
}

impl Aggregator {
    #[verifier::type_invariant]
    spec fn inv(self) -> bool {
        &&& self.summaries@.len() <= self.commits@.len()
        &&& (self.stage == Stage::ExtractingDiff || self.stage == Stage::Summarizing)
            ==> self.summaries@.len() < self.commits@.len()
        &&& self.stage == Stage::Enumerating ==> self.summaries@.len() == 0
        &&& (self.stage == Stage::Aggregating || self.stage == Stage::Done)
            ==> self.summaries@.len() == self.commits@.len()
        &&& self.stage == Stage::Done ==> self.changelog is Some
    }

    /// The changelog, once the run is done.
    pub closed spec fn spec_changelog(&self) -> Option<Changelog> {
        self.changelog
    }

    /// A run that has not yet enumerated its commits.
    pub fn new() -> (r: Aggregator)
        ensures
            r@.stage == Stage::Enumerating,
            r@.commits.len() == 0,
            r@.summaries.len() == 0,
            r@.failure is None,
            r.spec_changelog() is None,
    {
        let r = Aggregator {
            stage: Stage::Enumerating,
            commits: Vec::new(),
            summaries: Vec::new(),
            changelog: None,
            failure: None,
        };
        assert(r@.summaries =~= Seq::<SummaryView>::empty());
        r
    }

    /// Where the run stands.
    pub fn stage(&self) -> (r: Stage)
        ensures
            r == self@.stage,
    {
        self.stage
    }

    /// The summaries collected so far, in commit order.
    pub fn summaries(&self) -> (r: &Vec<CommitSummary>)
        ensures
            r@.map_values(|s: CommitSummary| s@) == self@.summaries,
    {
        &self.summaries
    }

    /// The changelog, once the run is done.
    pub fn changelog(&self) -> (r: Option<&Changelog>)
        ensures
            self@.stage == Stage::Done ==> r is Some,
            match r {
                Some(c) => self.spec_changelog() == Some(*c),
                None => self.spec_changelog() is None,
            },
    {
        proof { use_type_invariant(self); }
        match &self.changelog {
            Some(c) => Some(c),
            None => None,
        }
    }

    /// Why the run failed, when it did and a reason was given.
    pub fn failure(&self) -> (r: Option<&String>)
        ensures
            match r {
                Some(f) => self@.failure == Some(f@),
                None => self@.failure is None,
            },
    {
        match &self.failure {
            Some(f) => Some(f),
            None => None,
        }
    }

    /// Takes one event and decides the next action. Only the changelog
    /// drafted at the aggregating stage is ever stored.
    ///
    /// - Enumerating, commits known: the first commit's diff is read next;
    ///   with no commits the run goes straight to drafting the changelog,
    ///   over no summaries.
    /// - ExtractingDiff, diff read: the commit is summarized next.
    /// - Summarizing, summary in: it is kept; the next commit's diff is read
    ///   next, or after the last commit the changelog is drafted.
    /// - Aggregating, changelog in: the run is done.
    /// - A run that is done or failed stays so.
    /// - A failure fails the run and keeps its reason; an event that the
    ///   stage does not expect fails the run too.
    pub fn step(&mut self, event: Event) -> (r: Action)
        ensures
            !(old(self)@.stage == Stage::Aggregating && event is Drafted)
                ==> final(self).spec_changelog() == old(self).spec_changelog(),
            ({
                let s = old(self)@;
                let t = final(self)@;
                match (s.stage, event) {
                    (Stage::Done, _) => t == s && r is Abort,
                    (Stage::Failed, _) => t == s && r is Abort,
                    (_, Event::Failure(reason)) => {
                        &&& t.commits == s.commits && t.summaries == s.summaries
                        &&& t.stage == Stage::Failed && r is Abort
                        &&& t.failure == Some(reason@)
                    },
                    (Stage::Enumerating, Event::Enumerated(ids)) => {
                        &&& t.failure == s.failure
                        &&& t.commits == views(ids@)
                        &&& t.summaries == s.summaries
                        &&& if ids@.len() == 0 {
                            t.stage == Stage::Aggregating && r is DraftChangelog
                        } else {
                            t.stage == Stage::ExtractingDiff && (r matches Action::ExtractDiff(id)
                                && id@ == ids@[0]@)
                        }
                    },
                    (Stage::ExtractingDiff, Event::DiffExtracted(info)) => {
                        &&& t.failure == s.failure
                        &&& t.commits == s.commits && t.summaries == s.summaries
                        &&& t.stage == Stage::Summarizing
                        &&& r == Action::Summarize(info)
                    },
                    (Stage::Summarizing, Event::Summarized(sum)) => {
                        &&& t.failure == s.failure
                        &&& t.commits == s.commits
                        &&& t.summaries == s.summaries.push(sum@)
                        &&& if t.summaries.len() == t.commits.len() {
                            t.stage == Stage::Aggregating && r is DraftChangelog
                        } else {
                            t.stage == Stage::ExtractingDiff && (r matches Action::ExtractDiff(id)
                                && id@ == t.commits[t.summaries.len() as int])
                        }
                    },
                    (Stage::Aggregating, Event::Drafted(c)) => {
                        &&& t.failure == s.failure
                        &&& t.commits == s.commits && t.summaries == s.summaries
                        &&& t.stage == Stage::Done && r is Finish
                        &&& final(self).spec_changelog() == Some(c)
                    },
                    _ => t.commits == s.commits && t.summaries == s.summaries && t.failure == s.failure
                        && t.stage == Stage::Failed && r is Abort,
                }
            }),
    {
        proof { use_type_invariant(&*self); }
        if self.stage == Stage::Done || self.stage == Stage::Failed {
            return Action::Abort;
        }
        match event {
            Event::Enumerated(ids) if self.stage == Stage::Enumerating => {
                if ids.len() == 0 {
                    self.commits = ids;
                    self.stage = Stage::Aggregating;
                    Action::DraftChangelog
                } else {
                    let first = ids[0].clone();
                    self.commits = ids;
                    self.stage = Stage::ExtractingDiff;
                    Action::ExtractDiff(first)
                }
            },
            Event::DiffExtracted(info) if self.stage == Stage::ExtractingDiff => {
                self.stage = Stage::Summarizing;
                Action::Summarize(info)
            },
            Event::Summarized(sum) if self.stage == Stage::Summarizing => {
                let ghost before = self.summaries@;
                // The stage is settled below, once the new summary is in.
                self.stage = Stage::Failed;
                let mut all: Vec<CommitSummary> = Vec::new();
                std::mem::swap(&mut self.summaries, &mut all);
                all.push(sum);
                assert(all@.map_values(|s: CommitSummary| s@)
                    =~= before.map_values(|s: CommitSummary| s@).push(all@.last()@));
                let n = all.len();
                self.summaries = all;
                if n == self.commits.len() {
                    self.stage = Stage::Aggregating;
                    Action::DraftChangelog
                } else {
                    self.stage = Stage::ExtractingDiff;
                    Action::ExtractDiff(self.commits[n].clone())
                }
            },
            Event::Drafted(c) if self.stage == Stage::Aggregating => {
                self.changelog = Some(c);
                self.stage = Stage::Done;
                Action::Finish
            },
            Event::Failure(reason) => {
                self.failure = Some(reason);
                self.stage = Stage::Failed;
                Action::Abort
            },
            _ => {
                self.stage = Stage::Failed;
                Action::Abort
            },
        }
    }
}

} // verus!
