use vstd::prelude::*;
use crate::classifier::{ClassifyError, VRCLogfile};
use crate::path::{FsPath, IoFailure};
use crate::scanner::{candidate_paths, EntryInfo, LocalLowVRChat};
use crate::store::{link_result, partition_parts, LinkOutcome, LinkPlan, UnrotateCollection};

verus! {

/// Why one step failed.
pub enum StepError {
    /// Listing, reading, creating a directory or linking failed.
    Io(IoFailure),
    /// A candidate's head was short, or named a day that does not exist.
    Classify(ClassifyError),
}

/// What the step asks of the filesystem next.
pub enum StepAction {
    /// List the watched directory; answer with `StepEvent::Listed`.
    ListDir(FsPath),
    /// Open the file read-only and read its first bytes, up to `HEAD_LEN`; answer with
    /// `StepEvent::HeadRead`.
    ReadHead(FsPath),
    /// Create the directory and its missing ancestors; answer with `StepEvent::DirCreated`.
    CreateDirAll(FsPath),
    /// Create a hard link at `dest` to `source`; answer with `StepEvent::Linked`.
    HardLink { source: FsPath, dest: FsPath },
    /// The step is over.
    Finish(Result<(), StepError>),
}

/// What the filesystem answered.
pub enum StepEvent {
    Listed(Result<Vec<EntryInfo>, IoFailure>),
    HeadRead(Result<Vec<u8>, IoFailure>),
    DirCreated(Result<(), IoFailure>),
    Linked(LinkOutcome),
}

/// Where a step stands: the answer it waits for, or done.
#[derive(Clone, Copy, Debug, PartialEq, Eq, Structural)]
pub enum Phase {
    Listing,
    Reading,
    CreatingDir,
    Linking,
    Done,
}

/// One step in progress: the candidates found, and the one being handled.
pub struct StepRun {
    pub phase: Phase,
    pub candidates: Vec<FsPath>,
    pub next: usize,
    pub plan: Option<LinkPlan>,
}

pub open spec fn paths_view(v: Seq<FsPath>) -> Seq<Seq<Seq<u8>>> {
    v.map_values(|p: FsPath| p@)
}

/// The action asks for `p`'s head.
pub open spec fn reads(a: StepAction, p: Seq<Seq<u8>>) -> bool {
    a matches StepAction::ReadHead(q) && q@ == p
}

/// The action ends the step with success.
pub open spec fn finishes_ok(a: StepAction) -> bool {
    a matches StepAction::Finish(Ok(_))
}

/// The action ends the step with an error.
pub open spec fn finishes_err(a: StepAction) -> bool {
    a matches StepAction::Finish(Err(_))
}

/// The scan, classify and store job: the watched directory and the collection.
pub struct Unrotate {
    pub vrchat: LocalLowVRChat,
    pub collection: UnrotateCollection,
}

impl StepRun {
    /// The answer that the run waits for is of the kind of `event`.
    pub open spec fn expects_spec(&self, event: StepEvent) -> bool {
        match event {
            StepEvent::Listed(_) => self.phase == Phase::Listing,
            StepEvent::HeadRead(_) => self.phase == Phase::Reading,
            StepEvent::DirCreated(_) => self.phase == Phase::CreatingDir,
            StepEvent::Linked(_) => self.phase == Phase::Linking,
        }
    }

    pub fn expects(&self, event: &StepEvent) -> (r: bool)
        ensures
            r == self.expects_spec(*event),
    {
        match event {
            StepEvent::Listed(_) => self.phase == Phase::Listing,
            StepEvent::HeadRead(_) => self.phase == Phase::Reading,
            StepEvent::DirCreated(_) => self.phase == Phase::CreatingDir,
            StepEvent::Linked(_) => self.phase == Phase::Linking,
        }
    }
}

impl Unrotate {
    pub fn new(vrchat: LocalLowVRChat, collection: UnrotateCollection) -> (r: Self)
        ensures
            r.vrchat.vrchat_path@ == vrchat.vrchat_path@,
            r.collection.collection_path@ == collection.collection_path@,
    {
        Self { vrchat, collection }
    }

    /// The run's own invariant: what it remembers agrees with its phase.
    pub open spec fn run_wf(&self, run: &StepRun) -> bool {
        &&& run.next <= run.candidates@.len()
        &&& (run.phase == Phase::Reading || run.phase == Phase::CreatingDir || run.phase == Phase::Linking)
            ==> run.next < run.candidates@.len()
        &&& forall|i: int| 0 <= i < run.candidates@.len() ==> (#[trigger] run.candidates@[i])@.len() >= 1
        &&& (run.phase == Phase::CreatingDir || run.phase == Phase::Linking) ==> self.plan_fits(run)
    }

    /// The run holds the plan for its current candidate.
    pub open spec fn plan_fits(&self, run: &StepRun) -> bool {
        match run.plan {
            Some(pl) => {
                &&& pl.source@ == run.candidates@[run.next as int]@
                &&& pl.dest@ == pl.dir@.push(pl.source@.last())
                &&& exists|d: crate::classifier::LogDate|
                    d.wf() && pl.dir@ == #[trigger] (self.collection.collection_path@ + partition_parts(d))
            },
            None => false,
        }
    }

    /// Starts a step: the first thing it asks is the listing of the watched directory.
    pub fn begin_step(&self) -> (r: (StepRun, StepAction))
        requires
            self.vrchat.vrchat_path@.len() >= 1,
        ensures
            r.0.phase == Phase::Listing,
            self.run_wf(&r.0),
            r.1 matches StepAction::ListDir(p) && p@ == self.vrchat.vrchat_path@,
    {
        let run = StepRun { phase: Phase::Listing, candidates: Vec::new(), next: 0, plan: None };
        (run, StepAction::ListDir(self.vrchat.vrchat_path.clone_path()))
    }

    /// Moves on to the candidate at `run.next`, or finishes the step when none is left.
    fn advance(&self, run: &mut StepRun) -> (a: StepAction)
        requires
            old(run).next <= old(run).candidates@.len(),
            forall|i: int|
                0 <= i < old(run).candidates@.len() ==> (#[trigger] old(run).candidates@[i])@.len() >= 1,
        ensures
            final(run).candidates@ == old(run).candidates@,
            final(run).next == old(run).next,
            self.run_wf(&*final(run)),
            old(run).next < old(run).candidates@.len() ==> final(run).phase == Phase::Reading && reads(
                a,
                old(run).candidates@[old(run).next as int]@,
            ),
            old(run).next == old(run).candidates@.len() ==> final(run).phase == Phase::Done && finishes_ok(a),
    {
        run.plan = None;
        if run.next < run.candidates.len() {
            run.phase = Phase::Reading;
            StepAction::ReadHead(run.candidates[run.next].clone_path())
        } else {
            run.phase = Phase::Done;
            StepAction::Finish(Ok(()))
        }
    }

    /// Takes the filesystem's answer and says what to do next. Candidates are handled
    /// one at a time, in listing order. A file without a header line is passed over. The
    /// first failure ends the step with that error; what was linked before it stays.
    pub fn step(&self, run: &mut StepRun, event: StepEvent) -> (a: StepAction)
        requires
            old(run).expects_spec(event),
            self.run_wf(&*old(run)),
            self.vrchat.vrchat_path@.len() >= 1,
        ensures
            self.run_wf(&*final(run)),
            finishes_err(a) ==> final(run).phase == Phase::Done,
            finishes_ok(a) ==> final(run).phase == Phase::Done,
            match event {
                StepEvent::Listed(Err(e)) => a matches StepAction::Finish(Err(StepError::Io(e2))) && e2 == e,
                StepEvent::Listed(Ok(entries)) => {
                    let c = candidate_paths(self.vrchat.vrchat_path@, entries@);
                    &&& paths_view(final(run).candidates@) == c
                    &&& final(run).next == 0
                    &&& c.len() == 0 ==> finishes_ok(a)
                    &&& c.len() > 0 ==> final(run).phase == Phase::Reading && reads(a, c[0])
                },
                StepEvent::HeadRead(Err(e)) => a matches StepAction::Finish(Err(StepError::Io(e2))) && e2 == e,
                StepEvent::HeadRead(Ok(head)) => {
                    let p = old(run).candidates@[old(run).next as int]@;
                    &&& final(run).candidates@ == old(run).candidates@
                    &&& (crate::classifier::VRCLogfile::classifies_to_error(head@) ==> finishes_err(a))
                    &&& (head@.len() < crate::classifier::HEAD_LEN ==> a matches StepAction::Finish(
                        Err(StepError::Classify(ClassifyError::Truncated)),
                    ))
                    &&& (crate::classifier::VRCLogfile::classifies_to_none(head@) ==> {
                        &&& final(run).next == old(run).next + 1
                        &&& final(run).next < final(run).candidates@.len() ==> reads(
                            a,
                            final(run).candidates@[final(run).next as int]@,
                        )
                        &&& final(run).next == final(run).candidates@.len() ==> finishes_ok(a)
                    })
                    &&& (crate::classifier::VRCLogfile::classifies_to_date(head@) ==> {
                        &&& final(run).next == old(run).next
                        &&& final(run).phase == Phase::CreatingDir
                        &&& a matches StepAction::CreateDirAll(d) && d@ == self.collection.collection_path@
                            + partition_parts(crate::classifier::VRCLogfile::header_log_date(head@))
                    })
                },
                StepEvent::DirCreated(Err(e)) => a matches StepAction::Finish(Err(StepError::Io(e2))) && e2 == e,
                StepEvent::DirCreated(Ok(_)) => {
                    &&& final(run).phase == Phase::Linking
                    &&& final(run).next == old(run).next
                    &&& old(run).plan matches Some(pl) && a matches StepAction::HardLink { source, dest } && source@
                        == pl.source@ && dest@ == pl.dest@
                },
                StepEvent::Linked(LinkOutcome::Failed(e)) => a matches StepAction::Finish(Err(StepError::Io(e2)))
                    && e2 == e,
                StepEvent::Linked(_) => {
                    &&& final(run).candidates@ == old(run).candidates@
                    &&& final(run).next == old(run).next + 1
                    &&& final(run).next < final(run).candidates@.len() ==> reads(
                        a,
                        final(run).candidates@[final(run).next as int]@,
                    )
                    &&& final(run).next == final(run).candidates@.len() ==> finishes_ok(a)
                },
            },
    {
        match event {
            StepEvent::Listed(Err(e)) => {
                run.phase = Phase::Done;
                StepAction::Finish(Err(StepError::Io(e)))
            },
            StepEvent::Listed(Ok(entries)) => {
                let cands = self.vrchat.list_logfile_paths(&entries);
                proof {
                    crate::scanner::lemma_candidate_paths_extend(self.vrchat.vrchat_path@, entries@);
                    assert forall|i: int| 0 <= i < cands@.len() implies (#[trigger] cands@[i])@.len() >= 1 by {
                        assert(paths_view(cands@)[i] == cands@[i]@);
                    }
                }
                run.candidates = cands;
                run.next = 0;
                self.advance(run)
            },
            StepEvent::HeadRead(Err(e)) => {
                run.phase = Phase::Done;
                StepAction::Finish(Err(StepError::Io(e)))
            },
            StepEvent::HeadRead(Ok(head)) => {
                let path = run.candidates[run.next].clone_path();
                match VRCLogfile::new(path, head.as_slice()) {
                    Err(ce) => {
                        run.phase = Phase::Done;
                        StepAction::Finish(Err(StepError::Classify(ce)))
                    },
                    Ok(None) => {
                        let _n = run.candidates.len();
                        run.next = run.next + 1;
                        self.advance(run)
                    },
                    Ok(Some(f)) => {
                        let plan = self.collection.link_plan(&f);
                        let dir = plan.dir.clone_path();
                        run.plan = Some(plan);
                        run.phase = Phase::CreatingDir;
                        StepAction::CreateDirAll(dir)
                    },
                }
            },
            StepEvent::DirCreated(Err(e)) => {
                run.phase = Phase::Done;
                StepAction::Finish(Err(StepError::Io(e)))
            },
            StepEvent::DirCreated(Ok(_)) => {
                let pl = run.plan.as_ref().unwrap();
                let (source, dest) = (pl.source.clone_path(), pl.dest.clone_path());
                run.phase = Phase::Linking;
                StepAction::HardLink { source, dest }
            },
            StepEvent::Linked(outcome) => {
                match link_result(outcome) {
                    Err(e) => {
                        run.phase = Phase::Done;
                        StepAction::Finish(Err(StepError::Io(e)))
                    },
                    Ok(()) => {
                        let _n = run.candidates.len();
                        run.next = run.next + 1;
                        self.advance(run)
                    },
                }
            },
        }
    }
}

} // verus!
