//! Creation mode as a state machine. The session decides; the caller
//! performs each requested upstream call and hands the result back as an
//! event. The machine resolves the destination exactly once, up front;
//! then processes the source keywords strictly in sequence, recording one
//! outcome line per keyword, a failure never stopping the rest.

use vstd::prelude::*;
use crate::render::spec_create_line;
use crate::summary::spec_pr_title;

verus! {

/// Where the session stands between events.
pub enum Phase {
    /// Waiting for the destination keyword to resolve to a branch.
    ResolveTarget,
    /// Waiting for the current source keyword to resolve to a branch.
    AwaitSource,
    /// Waiting for the current keyword's issue title.
    AwaitTitle { source: String },
    /// Waiting for the creation call on the current keyword.
    AwaitCreate { source: String, title: String },
    /// Every keyword processed.
    Done,
    /// Destination resolution failed; the whole run is abandoned.
    Failed { error: String },
}

/// What the caller reports back after performing the requested call.
pub enum CreateEvent {
    /// The destination keyword resolved to this branch.
    TargetFound(String),
    /// Destination resolution failed with this message.
    TargetFailed(String),
    /// The current source keyword resolved to this branch.
    SourceFound(String),
    /// Source resolution failed with this message.
    SourceFailed(String),
    /// The issue summary (or its local fallback) for the current keyword.
    TitleReady(String),
    /// The creation call succeeded.
    PrCreated,
    /// The creation call failed with this message.
    PrFailed(String),
}

/// What the session asks the caller to do next.
pub enum CreateAction {
    /// Resolve the destination keyword to a branch.
    FindTargetBranch(String),
    /// Resolve this source keyword to a branch.
    FindSourceBranch(String),
    /// Obtain the issue title for this keyword.
    FetchTitle(String),
    /// Create the pull request.
    SubmitPr { source: String, destination: String, title: String },
    /// Nothing left to do.
    Finished,
}

/// One recorded per-keyword outcome: the line to print, and whether the
/// keyword's pull request was created.
pub struct Outcome {
    pub success: bool,
    pub line: String,
}

/// One creation-mode run over a fixed keyword list.
pub struct CreateSession {
    /// The keyword naming the destination branch.
    pub dest_keyword: String,
    /// The source keywords, processed in order.
    pub keywords: Vec<String>,
    /// The resolved destination branch, once known.
    pub target: Option<String>,
    /// Index of the keyword being processed; also the count processed.
    pub idx: usize,
    pub phase: Phase,
    /// One entry per processed keyword, in input order.
    pub outcomes: Vec<Outcome>,
    /// Source branches whose pull request was created, in input order.
    pub successes: Vec<String>,
}

/// After recording a keyword's outcome the session either moves to the
/// next keyword or is done.
pub open spec fn phase_after_outcome(next_idx: int, len: int, phase: Phase) -> bool {
    if next_idx < len {
        phase is AwaitSource
    } else {
        phase is Done
    }
}

impl CreateSession {
    /// Internal invariant: the index never passes the keyword list, each
    /// processed keyword has exactly one outcome, the destination is
    /// known in every working phase, and a failed run records nothing.
    pub open spec fn wf(self) -> bool {
        &&& self.idx <= self.keywords@.len()
        &&& self.successes@.len() <= self.outcomes@.len()
        &&& match self.phase {
            Phase::ResolveTarget => self.target is None && self.idx == 0 && self.outcomes@.len()
                == 0 && self.successes@.len() == 0,
            Phase::AwaitSource => self.target is Some && self.idx < self.keywords@.len()
                && self.outcomes@.len() == self.idx,
            Phase::AwaitTitle { .. } => self.target is Some && self.idx < self.keywords@.len()
                && self.outcomes@.len() == self.idx,
            Phase::AwaitCreate { .. } => self.target is Some && self.idx < self.keywords@.len()
                && self.outcomes@.len() == self.idx,
            Phase::Done => self.target is Some && self.idx == self.keywords@.len()
                && self.outcomes@.len() == self.idx,
            Phase::Failed { .. } => self.target is None && self.outcomes@.len() == 0
                && self.successes@.len() == 0,
        }
    }

    /// Which events the current phase can accept. A finished or failed
    /// session accepts none.
    pub open spec fn event_fits(self, event: CreateEvent) -> bool {
        match self.phase {
            Phase::ResolveTarget => event is TargetFound || event is TargetFailed,
            Phase::AwaitSource => event is SourceFound || event is SourceFailed,
            Phase::AwaitTitle { .. } => event is TitleReady,
            Phase::AwaitCreate { .. } => event is PrCreated || event is PrFailed,
            Phase::Done => false,
            Phase::Failed { .. } => false,
        }
    }

    /// Starts a run: nothing processed, destination unresolved.
    pub fn new(keywords: Vec<String>, dest_keyword: String) -> (r: CreateSession)
        ensures
            r.wf(),
            r.phase is ResolveTarget,
            r.keywords == keywords,
            r.dest_keyword == dest_keyword,
            r.target is None,
            r.outcomes@.len() == 0,
            r.successes@.len() == 0,
    {
        CreateSession {
            dest_keyword,
            keywords,
            target: None,
            idx: 0,
            phase: Phase::ResolveTarget,
            outcomes: Vec::new(),
            successes: Vec::new(),
        }
    }

    /// The call the caller must perform next. A pull request is only ever
    /// submitted into the resolved destination, so no creation is asked
    /// for before — or without — destination resolution.
    pub fn pending_action(&self) -> (r: CreateAction)
        requires
            self.wf(),
        ensures
            match self.phase {
                Phase::ResolveTarget => r matches CreateAction::FindTargetBranch(k) && k
                    == self.dest_keyword,
                Phase::AwaitSource => r matches CreateAction::FindSourceBranch(k) && k
                    == self.keywords@[self.idx as int],
                Phase::AwaitTitle { .. } => r matches CreateAction::FetchTitle(k) && k
                    == self.keywords@[self.idx as int],
                Phase::AwaitCreate { source, title } => r matches CreateAction::SubmitPr {
                    source: s,
                    destination: d,
                    title: t,
                } && s == source && d == (self.target)->0 && t == title,
                Phase::Done => r is Finished,
                Phase::Failed { .. } => r is Finished,
            },
            r is SubmitPr ==> self.target is Some,
    {
        match &self.phase {
            Phase::ResolveTarget => CreateAction::FindTargetBranch(self.dest_keyword.clone()),
            Phase::AwaitSource => CreateAction::FindSourceBranch(self.keywords[self.idx].clone()),
            Phase::AwaitTitle { .. } => CreateAction::FetchTitle(self.keywords[self.idx].clone()),
            Phase::AwaitCreate { source, title } => {
                match &self.target {
                    Some(t) => CreateAction::SubmitPr {
                        source: source.clone(),
                        destination: t.clone(),
                        title: title.clone(),
                    },
                    None => {
                        proof {
                            assert(false);
                        }
                        CreateAction::Finished
                    },
                }
            },
            Phase::Done => CreateAction::Finished,
            Phase::Failed { .. } => CreateAction::Finished,
        }
    }

    /// Feeds the result of the requested call back into the session.
    /// Destination resolution happens exactly once; each keyword yields
    /// exactly one outcome, success or failure, and processing always
    /// moves on to the next keyword.
    pub fn step(&mut self, event: CreateEvent)
        requires
            old(self).wf(),
            old(self).event_fits(event),
        ensures
            final(self).wf(),
            final(self).keywords == old(self).keywords,
            final(self).dest_keyword == old(self).dest_keyword,
            old(self).outcomes@.len() <= final(self).outcomes@.len(),
            final(self).outcomes@.subrange(0, old(self).outcomes@.len() as int) == old(self).outcomes@,
            match event {
                CreateEvent::TargetFound(t) => {
                    &&& final(self).target == Some(t)
                    &&& final(self).idx == 0
                    &&& final(self).outcomes == old(self).outcomes
                    &&& final(self).successes == old(self).successes
                    &&& if old(self).keywords@.len() == 0 {
                        final(self).phase is Done
                    } else {
                        final(self).phase is AwaitSource
                    }
                },
                CreateEvent::TargetFailed(err) => {
                    &&& final(self).target is None
                    &&& (final(self).phase matches Phase::Failed { error } && error == err)
                    &&& final(self).outcomes@.len() == 0
                    &&& final(self).successes@.len() == 0
                },
                CreateEvent::SourceFound(src) => {
                    &&& (final(self).phase matches Phase::AwaitTitle { source } && source == src)
                    &&& final(self).idx == old(self).idx
                    &&& final(self).outcomes == old(self).outcomes
                    &&& final(self).successes == old(self).successes
                    &&& final(self).target == old(self).target
                },
                CreateEvent::SourceFailed(err) => {
                    &&& final(self).outcomes@.len() == old(self).outcomes@.len() + 1
                    &&& final(self).outcomes@.last().success == false
                    &&& final(self).outcomes@.last().line@ == spec_create_line(
                        old(self).keywords@[old(self).idx as int]@,
                        ((old(self).target)->0)@,
                        Some(err@),
                    )
                    &&& final(self).successes == old(self).successes
                    &&& final(self).idx == old(self).idx + 1
                    &&& final(self).target == old(self).target
                    &&& phase_after_outcome(
                        old(self).idx + 1,
                        old(self).keywords@.len() as int,
                        final(self).phase,
                    )
                },
                CreateEvent::TitleReady(t) => {
                    &&& (final(self).phase matches Phase::AwaitCreate { source, title }
                        && (old(self).phase matches Phase::AwaitTitle { source: s0 } && source == s0)
                        && title@ == spec_pr_title(old(self).keywords@[old(self).idx as int]@, t@))
                    &&& final(self).idx == old(self).idx
                    &&& final(self).outcomes == old(self).outcomes
                    &&& final(self).successes == old(self).successes
                    &&& final(self).target == old(self).target
                },
                CreateEvent::PrCreated => {
                    &&& final(self).outcomes@.len() == old(self).outcomes@.len() + 1
                    &&& final(self).outcomes@.last().success == true
                    &&& (old(self).phase matches Phase::AwaitCreate { source, .. }
                        && final(self).outcomes@.last().line@ == spec_create_line(
                        source@,
                        ((old(self).target)->0)@,
                        None,
                    ) && final(self).successes@ == old(self).successes@.push(source))
                    &&& final(self).idx == old(self).idx + 1
                    &&& final(self).target == old(self).target
                    &&& phase_after_outcome(
                        old(self).idx + 1,
                        old(self).keywords@.len() as int,
                        final(self).phase,
                    )
                },
                CreateEvent::PrFailed(err) => {
                    &&& final(self).outcomes@.len() == old(self).outcomes@.len() + 1
                    &&& final(self).outcomes@.last().success == false
                    &&& final(self).outcomes@.last().line@ == spec_create_line(
                        old(self).keywords@[old(self).idx as int]@,
                        ((old(self).target)->0)@,
                        Some(err@),
                    )
                    &&& final(self).successes == old(self).successes
                    &&& final(self).idx == old(self).idx + 1
                    &&& final(self).target == old(self).target
                    &&& phase_after_outcome(
                        old(self).idx + 1,
                        old(self).keywords@.len() as int,
                        final(self).phase,
                    )
                },
            },
    {
        match event {
            CreateEvent::TargetFound(t) => {
                self.target = Some(t);
                if self.keywords.len() == 0 {
                    self.phase = Phase::Done;
                } else {
                    self.phase = Phase::AwaitSource;
                }
            },
            CreateEvent::TargetFailed(err) => {
                self.phase = Phase::Failed { error: err };
            },
            CreateEvent::SourceFound(src) => {
                self.phase = Phase::AwaitTitle { source: src };
            },
            CreateEvent::SourceFailed(err) => {
                let target = match &self.target {
                    Some(t) => t.clone(),
                    None => {
                        proof {
                            assert(false);
                        }
                        String::new()
                    },
                };
                let line = crate::render::render_create_line(
                    self.keywords[self.idx].as_str(),
                    target.as_str(),
                    Some(err.as_str()),
                );
                self.outcomes.push(Outcome { success: false, line });
                let n = self.keywords.len();
                proof {
                    assert(self.idx < n);
                }
                self.idx = self.idx + 1;
                if self.idx < n {
                    self.phase = Phase::AwaitSource;
                } else {
                    self.phase = Phase::Done;
                }
                proof {
                    assert(self.outcomes@.subrange(0, old(self).outcomes@.len() as int) =~= old(self).outcomes@);
                }
            },
            CreateEvent::TitleReady(t) => {
                let source = match &self.phase {
                    Phase::AwaitTitle { source } => source.clone(),
                    _ => {
                        proof {
                            assert(false);
                        }
                        String::new()
                    },
                };
                let title = crate::summary::pr_title(self.keywords[self.idx].as_str(), t.as_str());
                self.phase = Phase::AwaitCreate { source, title };
            },
            CreateEvent::PrCreated => {
                let source = match &self.phase {
                    Phase::AwaitCreate { source, .. } => source.clone(),
                    _ => {
                        proof {
                            assert(false);
                        }
                        String::new()
                    },
                };
                let target = match &self.target {
                    Some(t) => t.clone(),
                    None => {
                        proof {
                            assert(false);
                        }
                        String::new()
                    },
                };
                let line = crate::render::render_create_line(
                    source.as_str(),
                    target.as_str(),
                    None,
                );
                self.outcomes.push(Outcome { success: true, line });
                self.successes.push(source);
                let n = self.keywords.len();
                proof {
                    assert(self.idx < n);
                }
                self.idx = self.idx + 1;
                if self.idx < n {
                    self.phase = Phase::AwaitSource;
                } else {
                    self.phase = Phase::Done;
                }
                proof {
                    assert(self.outcomes@.subrange(0, old(self).outcomes@.len() as int) =~= old(self).outcomes@);
                }
            },
            CreateEvent::PrFailed(err) => {
                let source = match &self.phase {
                    Phase::AwaitCreate { source, .. } => source.clone(),
                    _ => {
                        proof {
                            assert(false);
                        }
                        String::new()
                    },
                };
                let target = match &self.target {
                    Some(t) => t.clone(),
                    None => {
                        proof {
                            assert(false);
                        }
                        String::new()
                    },
                };
                let line = crate::render::render_create_line(
                    self.keywords[self.idx].as_str(),
                    target.as_str(),
                    Some(err.as_str()),
                );
                self.outcomes.push(Outcome { success: false, line });
                let n = self.keywords.len();
                proof {
                    assert(self.idx < n);
                }
                self.idx = self.idx + 1;
                if self.idx < n {
                    self.phase = Phase::AwaitSource;
                } else {
                    self.phase = Phase::Done;
                }
                proof {
                    assert(self.outcomes@.subrange(0, old(self).outcomes@.len() as int) =~= old(self).outcomes@);
                }
            },
        }
    }
}

/// Law: a finished creation run records exactly one success-or-failure
/// outcome line per input keyword.
pub proof fn lemma_done_outcome_count(s: CreateSession)
    requires
        s.wf(),
        s.phase is Done,
    ensures
        s.outcomes@.len() == s.keywords@.len(),
{
}

/// Law: when destination resolution has failed, the session is inert —
/// it accepts no further event and has recorded no outcome and no
/// created pull request, so no creation attempt ever occurs.
pub proof fn lemma_failed_destination_blocks_creation(s: CreateSession, event: CreateEvent)
    requires
        s.wf(),
        s.phase is Failed,
    ensures
        !s.event_fits(event),
        s.outcomes@.len() == 0,
        s.successes@.len() == 0,
{
}

} // verus!
