//! Whole searches: what a search comes to over a series of answers, and
//! what holds of every search.

use crate::name::is_suffix;
use crate::path::{is_child_of, lemma_candidate_is_child, MAIN_SEPARATOR};
use crate::search::{settle, Attempt, Candidate, CreateError, Progress};
use vstd::prelude::*;

verus! {

/// What a caller answers to an attempt: its outcome, and the suffix that the
/// search draws if the name turns out to be taken.
pub type Answer<E> = (Attempt<E>, Seq<char>);

/// Where a search that waits for the outcome of `tried` stands once
/// `answers` have come in, one after the other. Answers that come after the
/// search has ended count for nothing.
pub open spec fn run<E>(tried: Candidate, answers: Seq<Answer<E>>) -> Progress<E>
    decreases answers.len(),
{
    if answers.len() == 0 {
        Progress::CreateDir(tried)
    } else {
        match settle(tried, answers[0].0, answers[0].1) {
            Progress::CreateDir(next) => run(next, answers.drop_first()),
            ended => ended,
        }
    }
}

/// Whether `answers` never report a directory as created at a path that is in
/// `taken`, as creation that fails on an existing name guarantees.
pub open spec fn respects<E>(tried: Candidate, answers: Seq<Answer<E>>, taken: Set<Seq<char>>) -> bool
    decreases answers.len(),
{
    answers.len() > 0 ==> {
        &&& taken.contains(tried.path()) ==> !(answers[0].0 is Created)
        &&& settle(tried, answers[0].0, answers[0].1) matches Progress::CreateDir(next)
            ==> respects(next, answers.drop_first(), taken)
    }
}

/// Whether every one of `answers` reports the name as taken.
pub open spec fn all_taken<E>(answers: Seq<Answer<E>>) -> bool {
    forall|i: int| 0 <= i < answers.len() ==> (#[trigger] answers[i]).0 is AlreadyExists
}

/// A failure other than a taken name ends the search at once and is passed on
/// as it came: the directory is not tried a second time, whatever the budget
/// and whatever is answered afterwards.
pub proof fn lemma_failure_ends_search<E>(tried: Candidate, answers: Seq<Answer<E>>)
    requires
        answers.len() > 0,
        answers[0].0 is Failed,
    ensures
        run(tried, answers) == Progress::Failed(CreateError::Io(answers[0].0->Failed_0)),
{
}

/// A path that was taken when its creation was tried is never handed out
/// with a handle.
pub proof fn lemma_created_path_was_free<E>(
    tried: Candidate,
    answers: Seq<Answer<E>>,
    taken: Set<Seq<char>>,
)
    requires
        respects(tried, answers, taken),
    ensures
        run(tried, answers) matches Progress::Done(path) ==> !taken.contains(path),
    decreases answers.len(),
{
    if answers.len() > 0 {
        match settle(tried, answers[0].0, answers[0].1) {
            Progress::CreateDir(next) => {
                lemma_created_path_was_free(next, answers.drop_first(), taken);
            },
            _ => {},
        }
    }
}

/// Whether each of `answers` brings a well-formed suffix.
pub open spec fn all_well_formed<E>(answers: Seq<Answer<E>>) -> bool {
    forall|i: int| 0 <= i < answers.len() ==> is_suffix((#[trigger] answers[i]).1)
}

/// A directory whose prefix holds no path separator is created directly inside
/// the resolved parent directory, however many names were tried before.
pub proof fn lemma_handle_is_child_of_parent<E>(tried: Candidate, answers: Seq<Answer<E>>)
    requires
        is_suffix(tried.suffix),
        all_well_formed(answers),
        !tried.prefix.contains(MAIN_SEPARATOR),
    ensures
        run(tried, answers) matches Progress::Done(path) ==> is_child_of(path, tried.parent),
    decreases answers.len(),
{
    lemma_candidate_is_child(tried.parent, tried.prefix, tried.suffix);
    if answers.len() > 0 {
        let rest = answers.drop_first();
        match settle(tried, answers[0].0, answers[0].1) {
            Progress::CreateDir(next) => {
                lemma_handle_is_child_of_parent(next, rest);
            },
            _ => {},
        }
    }
}

/// Two searches never end in handles to the same path while the first
/// directory still exists: the second search finds the name taken and moves
/// on to another.
pub proof fn lemma_second_handle_differs<E>(
    first_path: Seq<char>,
    tried: Candidate,
    answers: Seq<Answer<E>>,
    taken: Set<Seq<char>>,
)
    requires
        taken.contains(first_path),
        respects(tried, answers, taken),
    ensures
        run(tried, answers) matches Progress::Done(second_path) ==> second_path != first_path,
{
    lemma_created_path_was_free(tried, answers, taken);
}

/// While every name is found taken, the search goes on under the same parent
/// and prefix, with the suffix drawn last, and has one name less to try after
/// each answer.
pub proof fn lemma_taken_names_are_retried<E>(tried: Candidate, answers: Seq<Answer<E>>)
    requires
        all_taken(answers),
        answers.len() <= tried.remaining,
    ensures
        run(tried, answers) == Progress::<E>::CreateDir(
            Candidate {
                parent: tried.parent,
                prefix: tried.prefix,
                suffix: if answers.len() > 0 {
                    answers.last().1
                } else {
                    tried.suffix
                },
                remaining: (tried.remaining - answers.len()) as nat,
            },
        ),
    decreases answers.len(),
{
    if answers.len() > 0 {
        let rest = answers.drop_first();
        let next = Candidate {
            parent: tried.parent,
            prefix: tried.prefix,
            suffix: answers[0].1,
            remaining: (tried.remaining - 1) as nat,
        };
        lemma_taken_names_are_retried(next, rest);
    }
}

/// A search that finds every name taken gives up, for want of a free name,
/// once it has tried as many names as its budget allows.
pub proof fn lemma_budget_is_exhausted<E>(tried: Candidate, answers: Seq<Answer<E>>)
    requires
        all_taken(answers),
        answers.len() == tried.remaining + 1,
    ensures
        run(tried, answers) == Progress::<E>::Failed(CreateError::Exhausted),
    decreases answers.len(),
{
    let rest = answers.drop_first();
    if tried.remaining > 0 {
        let next = Candidate {
            parent: tried.parent,
            prefix: tried.prefix,
            suffix: answers[0].1,
            remaining: (tried.remaining - 1) as nat,
        };
        lemma_budget_is_exhausted(next, rest);
    }
}

} // verus!
