//! The search for a free directory name, as a sequence of steps.
//!
//! The search never touches the file system. Each [`Step`] tells the caller
//! what to do there, and the caller answers with what happened: the current
//! directory where a relative parent has to be resolved, and the outcome of
//! each attempt to create a directory. A name that is already taken is retried
//! under a fresh random suffix; any other failure ends the search at once.

use crate::handle::TempDir;
use crate::name::{is_suffix, random_suffix, NUM_RAND_CHARS};
use crate::path::{candidate, candidate_path, is_absolute, join, joined, path_is_absolute};
use rand::ThreadRng;
use vstd::prelude::*;
use vstd::string::*;

verus! {

/// How many names a search tries before it gives up: enough that nobody who
/// occupies names in advance outlasts it.
pub const NUM_RETRIES: u32 = 0x8000_0000;

/// Why no directory was created.
#[derive(Debug)]
pub enum CreateError<E> {
    /// Every name that was tried was already taken.
    Exhausted,
    /// The file system refused, for the reason it gave.
    Io(E),
}

/// What a search that ran out of names has to say for itself.
pub const EXHAUSTED: &'static str = "too many temporary directories already exist";

/// What became of one attempt to create a directory.
#[derive(Debug)]
pub enum Attempt<E> {
    /// The directory did not exist and was created.
    Created,
    /// Something, of whatever kind, already has that name.
    AlreadyExists,
    /// The attempt failed for any other reason.
    Failed(E),
}

/// A search that waits for the current directory: what it was started with.
pub struct Origin {
    pub dir: Seq<char>,
    pub prefix: Seq<char>,
    pub budget: nat,
}

/// A search that waits for the outcome of an attempt: the resolved parent
/// directory, the prefix, the suffix under trial, and the number of names that
/// may still be tried after this one.
pub struct Candidate {
    pub parent: Seq<char>,
    pub prefix: Seq<char>,
    pub suffix: Seq<char>,
    pub remaining: nat,
}

impl Candidate {
    /// The path of the directory under trial.
    pub open spec fn path(self) -> Seq<char> {
        candidate(self.parent, self.prefix, self.suffix)
    }
}

/// Where a search stands.
pub enum Progress<E> {
    /// No parent was named: the temporary directory of the system is asked
    /// for, for a directory with this prefix.
    SystemTempDir(Seq<char>),
    /// The parent is relative: the current directory is asked for.
    CurrentDir(Origin),
    /// A directory is to be created at the candidate's path.
    CreateDir(Candidate),
    /// The directory at this path was created and has an owner.
    Done(Seq<char>),
    /// No directory was created.
    Failed(CreateError<E>),
}

/// The next attempt under a resolved parent, with the suffix `suffix`, or
/// failure where no further name may be tried.
pub open spec fn propose<E>(
    parent: Seq<char>,
    prefix: Seq<char>,
    budget: nat,
    suffix: Seq<char>,
) -> Progress<E> {
    if budget == 0 {
        Progress::Failed(CreateError::Exhausted)
    } else {
        Progress::CreateDir(Candidate { parent, prefix, suffix, remaining: (budget - 1) as nat })
    }
}

/// How a search starts: an absolute parent is taken as it is, a relative one
/// waits for the current directory.
pub open spec fn start<E>(origin: Origin, suffix: Seq<char>) -> Progress<E> {
    if is_absolute(origin.dir) {
        propose(origin.dir, origin.prefix, origin.budget, suffix)
    } else {
        Progress::CurrentDir(origin)
    }
}

/// How a search goes on once the current directory is known, or is known to
/// be out of reach.
pub open spec fn resolve<E>(origin: Origin, cwd: Result<Seq<char>, E>, suffix: Seq<char>) -> Progress<
    E,
> {
    match cwd {
        Ok(cwd) => propose(joined(cwd, origin.dir), origin.prefix, origin.budget, suffix),
        Err(e) => Progress::Failed(CreateError::Io(e)),
    }
}

/// How a search goes on after an attempt: a created directory ends it, a
/// taken name is retried under the suffix `fresh` while the budget lasts, and
/// any other failure is passed on unchanged.
pub open spec fn settle<E>(tried: Candidate, outcome: Attempt<E>, fresh: Seq<char>) -> Progress<E> {
    match outcome {
        Attempt::Created => Progress::Done(tried.path()),
        Attempt::AlreadyExists => propose(tried.parent, tried.prefix, tried.remaining, fresh),
        Attempt::Failed(e) => Progress::Failed(CreateError::Io(e)),
    }
}

/// A search without a parent directory, waiting to be told the temporary
/// directory of the system.
#[derive(Debug)]
pub struct Unplaced {
    prefix: String,
}

/// A search with a relative parent directory, waiting to be told the current
/// directory.
#[derive(Debug)]
pub struct Unresolved {
    dir: String,
    prefix: String,
    budget: u32,
}

/// A search that has asked for a directory to be created, waiting to be told
/// the outcome.
#[derive(Debug)]
pub struct Pending {
    parent: String,
    prefix: String,
    suffix: String,
    path: String,
    remaining: u32,
    rng: ThreadRng,
}

/// What the caller of a search has to do next, or what the search ended in.
#[derive(Debug)]
pub enum Step<E> {
    /// Find out the temporary directory of the system, and answer with it.
    SystemTempDir(Unplaced),
    /// Find out the current directory, and answer with it.
    CurrentDir(Unresolved),
    /// Try to create the directory at the pending path, failing if anything
    /// already has that name, and answer with the outcome.
    CreateDir(Pending),
    /// The directory was created; here is its owner.
    Done(TempDir),
    /// No directory was created.
    Failed(CreateError<E>),
}

impl View for Unplaced {
    type V = Seq<char>;

    closed spec fn view(&self) -> Seq<char> {
        self.prefix@
    }
}

impl View for Unresolved {
    type V = Origin;

    closed spec fn view(&self) -> Origin {
        Origin { dir: self.dir@, prefix: self.prefix@, budget: self.budget as nat }
    }
}

impl View for Pending {
    type V = Candidate;

    closed spec fn view(&self) -> Candidate {
        Candidate {
            parent: self.parent@,
            prefix: self.prefix@,
            suffix: self.suffix@,
            remaining: self.remaining as nat,
        }
    }
}

impl<E> View for Step<E> {
    type V = Progress<E>;

    open spec fn view(&self) -> Progress<E> {
        match self {
            Step::SystemTempDir(unplaced) => Progress::SystemTempDir(unplaced@),
            Step::CurrentDir(unresolved) => Progress::CurrentDir(unresolved@),
            Step::CreateDir(pending) => Progress::CreateDir(pending@),
            Step::Done(dir) => Progress::Done(dir@->0),
            Step::Failed(e) => Progress::Failed(*e),
        }
    }
}

impl<E> Step<E> {
    /// What holds of every step that a search hands out: a directory under
    /// trial ends in a well-formed suffix, and a handle owns its directory.
    pub open spec fn wf(&self) -> bool {
        match self {
            Step::CreateDir(pending) => is_suffix(pending@.suffix),
            Step::Done(dir) => dir@ is Some,
            _ => true,
        }
    }
}

/// There are well-formed suffixes.
pub proof fn lemma_suffix_exists() -> (suffix: Seq<char>)
    ensures
        is_suffix(suffix),
{
    Seq::new(NUM_RAND_CHARS as nat, |i: int| 'A')
}

/// The first attempt of a search under the resolved directory `parent`.
fn first_attempt<E>(parent: String, prefix: String, budget: u32) -> (step: Step<E>)
    ensures
        step.wf(),
        exists|suffix: Seq<char>| #[trigger]
            is_suffix(suffix) && step@ == propose::<E>(parent@, prefix@, budget as nat, suffix),
{
    let rng = rand::thread_rng();
    next_attempt(parent, prefix, budget, rng)
}

/// The next attempt of a search that may still try `budget` names.
fn next_attempt<E>(parent: String, prefix: String, budget: u32, rng: ThreadRng) -> (step: Step<E>)
    ensures
        step.wf(),
        exists|suffix: Seq<char>| #[trigger]
            is_suffix(suffix) && step@ == propose::<E>(parent@, prefix@, budget as nat, suffix),
{
    if budget == 0 {
        proof {
            let any = lemma_suffix_exists();
            assert(is_suffix(any) && Progress::<E>::Failed(CreateError::Exhausted) == propose::<E>(
                parent@,
                prefix@,
                budget as nat,
                any,
            ));
        }
        return Step::Failed(CreateError::Exhausted);
    }
    let mut rng = rng;
    let suffix = random_suffix(&mut rng);
    let path = candidate_path(parent.as_str(), prefix.as_str(), suffix.as_str());
    let pending = Pending { parent, prefix, suffix, path, remaining: budget - 1, rng };
    let step = Step::CreateDir(pending);
    assert(is_suffix(pending.suffix@) && step@ == propose::<E>(
        parent@,
        prefix@,
        budget as nat,
        pending.suffix@,
    ));
    step
}

impl TempDir {
    /// Starts the creation of a directory inside the temporary directory of
    /// the system whose name begins with `prefix`: the search asks where that
    /// is, and goes on from there as `new_in` does.
    pub fn new<E>(prefix: &str) -> (step: Step<E>)
        ensures
            step@ == Progress::<E>::SystemTempDir(prefix@),
    {
        Step::SystemTempDir(Unplaced { prefix: prefix.to_owned() })
    }

    /// Starts the creation of a directory inside `tmpdir` whose name begins
    /// with `prefix`, trying up to `NUM_RETRIES` names. The handle to the
    /// directory comes with the step that ends the search.
    pub fn new_in<E>(tmpdir: &str, prefix: &str) -> (step: Step<E>)
        ensures
            step.wf(),
            exists|suffix: Seq<char>| #[trigger]
                is_suffix(suffix) && step@ == start::<E>(
                    Origin { dir: tmpdir@, prefix: prefix@, budget: NUM_RETRIES as nat },
                    suffix,
                ),
    {
        TempDir::new_in_with_budget(tmpdir, prefix, NUM_RETRIES)
    }

    /// Starts the creation of a directory inside `tmpdir` whose name begins
    /// with `prefix`, trying up to `budget` names.
    pub fn new_in_with_budget<E>(tmpdir: &str, prefix: &str, budget: u32) -> (step: Step<E>)
        ensures
            step.wf(),
            exists|suffix: Seq<char>| #[trigger]
                is_suffix(suffix) && step@ == start::<E>(
                    Origin { dir: tmpdir@, prefix: prefix@, budget: budget as nat },
                    suffix,
                ),
    {
        if path_is_absolute(tmpdir) {
            first_attempt(tmpdir.to_owned(), prefix.to_owned(), budget)
        } else {
            let unresolved = Unresolved {
                dir: tmpdir.to_owned(),
                prefix: prefix.to_owned(),
                budget,
            };
            let step = Step::CurrentDir(unresolved);
            proof {
                let any = lemma_suffix_exists();
                assert(is_suffix(any) && step@ == start::<E>(
                    Origin { dir: tmpdir@, prefix: prefix@, budget: budget as nat },
                    any,
                ));
            }
            step
        }
    }
}

impl Unplaced {
    /// Goes on inside `tmpdir`, the temporary directory of the system.
    pub fn answer<E>(self, tmpdir: &str) -> (step: Step<E>)
        ensures
            step.wf(),
            exists|suffix: Seq<char>| #[trigger]
                is_suffix(suffix) && step@ == start::<E>(
                    Origin { dir: tmpdir@, prefix: self@, budget: NUM_RETRIES as nat },
                    suffix,
                ),
    {
        TempDir::new_in(tmpdir, self.prefix.as_str())
    }
}

impl Unresolved {
    /// Goes on with the current directory `cwd`, taken once and for the whole
    /// search, or ends the search with the reason why there is none.
    pub fn answer<E>(self, cwd: Result<String, E>) -> (step: Step<E>)
        ensures
            step.wf(),
            exists|suffix: Seq<char>| #[trigger]
                is_suffix(suffix) && step@ == resolve(
                    self@,
                    match cwd {
                        Ok(cwd) => Ok(cwd@),
                        Err(e) => Err(e),
                    },
                    suffix,
                ),
    {
        match cwd {
            Ok(cwd) => {
                let parent = join(cwd.as_str(), self.dir.as_str());
                first_attempt(parent, self.prefix, self.budget)
            },
            Err(e) => {
                let step = Step::Failed(CreateError::Io(e));
                proof {
                    let any = lemma_suffix_exists();
                    assert(is_suffix(any) && step@ == resolve(self@, Err::<Seq<char>, E>(e), any));
                }
                step
            },
        }
    }
}

impl Pending {
    #[verifier::type_invariant]
    spec fn inv(&self) -> bool {
        &&& is_suffix(self.suffix@)
        &&& self.path@ == candidate(self.parent@, self.prefix@, self.suffix@)
    }

    /// The path of the directory to create.
    pub fn path(&self) -> (path: &str)
        ensures
            path@ == self@.path(),
            is_suffix(self@.suffix),
    {
        proof {
            use_type_invariant(self);
        }
        self.path.as_str()
    }

    /// Goes on with the outcome of the attempt to create the directory at
    /// `self.path()`.
    pub fn answer<E>(self, outcome: Attempt<E>) -> (step: Step<E>)
        ensures
            step.wf(),
            exists|fresh: Seq<char>| #[trigger]
                is_suffix(fresh) && step@ == settle(self@, outcome, fresh),
    {
        proof {
            use_type_invariant(&self);
        }
        match outcome {
            Attempt::Created => {
                let step = Step::Done(TempDir::owning(self.path));
                assert(is_suffix(self@.suffix) && step@ == settle(self@, outcome, self@.suffix));
                step
            },
            Attempt::AlreadyExists => {
                next_attempt(self.parent, self.prefix, self.remaining, self.rng)
            },
            Attempt::Failed(e) => {
                let step = Step::Failed(CreateError::Io(e));
                assert(is_suffix(self@.suffix) && step@ == settle(self@, outcome, self@.suffix));
                step
            },
        }
    }
}

} // verus!
