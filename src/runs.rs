//! Laws that hold of every run of a [`Fetcher`], whatever the steps report.
use crate::fetch::{rank, Action, Event, FetchError, Fetcher, Stage};
use crate::summary::{lemma_walk_order_irrelevant, Entry, SampleData};
use vstd::prelude::*;

verus! {

/// `states` is a run of a fetcher under `events`: each state steps to the
/// next one on the event at its index.
pub open spec fn is_run(states: Seq<Fetcher>, events: Seq<Event>) -> bool {
    &&& states.len() == events.len() + 1
    &&& forall|i: int| 0 <= i < events.len() ==> states[i].steps(#[trigger] events[i], states[i + 1])
}

/// Along a run, stages only move forward.
pub proof fn lemma_run_keeps_order(states: Seq<Fetcher>, events: Seq<Event>, i: int, j: int)
    requires
        is_run(states, events),
        0 <= i <= j < states.len(),
    ensures
        rank(states[i].stage) <= rank(states[j].stage),
    decreases j - i,
{
    if i < j {
        lemma_run_keeps_order(states, events, i, j - 1);
        assert(states[j - 1].steps(events[j - 1], states[j]));
    }
}

/// Once the archive check reports the archive present, the fetch reuses it:
/// no state of the run, before or after, asks for a download.
pub proof fn lemma_present_archive_not_downloaded(
    states: Seq<Fetcher>,
    events: Seq<Event>,
    k: int,
)
    requires
        is_run(states, events),
        0 <= k < events.len(),
        states[k].stage is CheckArchive,
        events[k] == Event::ArchiveChecked(true),
    ensures
        forall|j: int, a: Action|
            0 <= j < states.len() && #[trigger] states[j].asks(a) ==> !(a is Download),
{
    assert(states[k].steps(events[k], states[k + 1]));
    assert forall|j: int, a: Action|
        0 <= j < states.len() && #[trigger] states[j].asks(a) implies !(a is Download) by {
        if j <= k {
            lemma_run_keeps_order(states, events, j, k);
        } else {
            lemma_run_keeps_order(states, events, k + 1, j);
        }
    }
}

/// A failed download ends the fetch with that failure: every later state of
/// the run holds the error and asks for nothing more, so nothing is extracted
/// or walked.
pub proof fn lemma_download_failure_ends_fetch(
    states: Seq<Fetcher>,
    events: Seq<Event>,
    k: int,
    e: String,
)
    requires
        is_run(states, events),
        0 <= k < events.len(),
        states[k].stage is Download,
        events[k] == Event::Downloaded(Err(e)),
    ensures
        forall|j: int|
            k < j < states.len() ==> #[trigger] states[j] == states[k].at(
                Stage::Done(Err(FetchError::Download(e))),
            ),
        forall|j: int, a: Action| k < j < states.len() && #[trigger] states[j].asks(a) ==> a is Finish,
{
    let end = states[k].at(Stage::Done(Err(FetchError::Download(e))));
    assert forall|j: int| k < j < states.len() implies #[trigger] states[j] == end by {
        lemma_done_stays(states, events, k + 1, j);
    }
}

/// A fetch that is over stays as it is, whatever is reported afterwards.
proof fn lemma_done_stays(states: Seq<Fetcher>, events: Seq<Event>, i: int, j: int)
    requires
        is_run(states, events),
        0 <= i <= j < states.len(),
        states[i].stage is Done,
    ensures
        states[j] == states[i],
    decreases j - i,
{
    if i < j {
        lemma_done_stays(states, events, i, j - 1);
        assert(states[j - 1].steps(events[j - 1], states[j]));
    }
}

/// Two fetches of the same dataset whose walks report the same entries, in
/// any order, end the same way: with the same error, or with descriptions that
/// agree on the root, the archive, the count, the size and the files, which
/// come in the same order where the walks did.
pub proof fn lemma_same_walk_same_outcome(
    f1: Fetcher,
    f2: Fetcher,
    w1: Seq<Result<Entry, String>>,
    w2: Seq<Result<Entry, String>>,
    r1: Result<SampleData, FetchError>,
    r2: Result<SampleData, FetchError>,
)
    requires
        f1.name@ == f2.name@,
        f1.base@ == f2.base@,
        f1.archive@ == f2.archive@,
        w1.to_multiset() == w2.to_multiset(),
        f1.ends_with(w1, r1),
        f2.ends_with(w2, r2),
    ensures
        r1 is Ok <==> r2 is Ok,
        r1 is Err ==> r1 == r2,
        r1 matches Ok(d1) ==> r2 matches Ok(d2) && d1.root@ == d2.root@ && d1.archive@
            == d2.archive@ && d1.num_files == d2.num_files && d1.size == d2.size
            && d1.file_paths().to_multiset() == d2.file_paths().to_multiset() && (w1 == w2
            ==> d1.file_paths() == d2.file_paths()),
{
    lemma_walk_order_irrelevant(w1, w2);
}

} // verus!
