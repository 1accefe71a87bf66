//! The order of the stages of a run, and the checks that let a stage be
//! skipped.

use vstd::prelude::*;

verus! {

/// `std::path::Path::try_exists`, with a failed probe given as `None`.
///
/// Trusted: nothing is claimed of the answer; it is the file system's to
/// give and may change between two calls.
#[verifier::external_body]
fn probe_path(path: &str) -> Option<bool> {
    std::path::Path::new(path).try_exists().ok()
}

/// What a probe of a path counts as: the path exists only where the probe
/// succeeded and said so.
pub open spec fn probe_says_exists(probe: Option<bool>) -> bool {
    probe == Some(true)
}

/// Reads a probe: a path whose probe failed counts as absent.
pub fn exists_from_probe(probe: Option<bool>) -> (exists: bool)
    ensures
        exists == probe_says_exists(probe),
{
    match probe {
        Some(answer) => answer,
        None => false,
    }
}

/// Whether `path` exists on local storage. A path that cannot be probed
/// counts as absent.
///
/// What the probe of the path gives is the file system's to say; whatever
/// it gives, the answer is the one that [`exists_from_probe`] reads from it.
pub fn check_path_exists(path: &str) -> (found: bool)
    ensures
        exists|probe: Option<bool>| found == #[trigger] probe_says_exists(probe),
{
    let probe = probe_path(path);
    let found = exists_from_probe(probe);
    assert(found == probe_says_exists(probe));
    found
}

/// A stage of a run. Each stage names the work to do next.
#[derive(Clone, Copy, Debug, PartialEq, Eq, Structural)]
pub enum Stage {
    /// Look whether the archive is already on local storage.
    CheckArchive,
    /// Download the archive and store it.
    Download,
    /// Look whether the file that the archive unpacks to is already on
    /// local storage.
    CheckText,
    /// Unpack the archive and store what comes out.
    Extract,
    /// Read the records from the unpacked file.
    Read,
    /// Write the records as a table.
    Export,
    /// Nothing is left to do.
    Done,
    /// The run was given up.
    Failed,
}

/// How the work of a stage went.
#[derive(Clone, Copy, Debug, PartialEq, Eq, Structural)]
pub enum Event {
    /// The file looked for is there.
    Found,
    /// The file looked for is not there.
    Missing,
    /// The work was done.
    Completed,
    /// The work could not be done.
    Broke,
}

/// The stage that follows a stage whose work went as the event says.
///
/// A file that is found is not made again. Work that breaks ends the run,
/// and so does an event that the stage cannot end in.
pub open spec fn step(stage: Stage, event: Event) -> Stage {
    match (stage, event) {
        (Stage::CheckArchive, Event::Found) => Stage::CheckText,
        (Stage::CheckArchive, Event::Missing) => Stage::Download,
        (Stage::Download, Event::Completed) => Stage::CheckText,
        (Stage::CheckText, Event::Found) => Stage::Read,
        (Stage::CheckText, Event::Missing) => Stage::Extract,
        (Stage::Extract, Event::Completed) => Stage::Read,
        (Stage::Read, Event::Completed) => Stage::Export,
        (Stage::Export, Event::Completed) => Stage::Done,
        (Stage::Done, _) => Stage::Done,
        _ => Stage::Failed,
    }
}

/// Whether a run is over at this stage.
pub open spec fn is_final(stage: Stage) -> bool {
    stage == Stage::Done || stage == Stage::Failed
}

/// The place of a stage in the order of a run.
pub open spec fn rank(stage: Stage) -> nat {
    match stage {
        Stage::CheckArchive => 0,
        Stage::Download => 1,
        Stage::CheckText => 2,
        Stage::Extract => 3,
        Stage::Read => 4,
        Stage::Export => 5,
        Stage::Done => 6,
        Stage::Failed => 6,
    }
}

/// The stage that a run is at after these events, one for each stage it
/// went through.
pub open spec fn run(start: Stage, events: Seq<Event>) -> Stage
    decreases events.len(),
{
    if events.len() == 0 {
        start
    } else {
        step(run(start, events.drop_last()), events.last())
    }
}

/// The event that a look for a file ends in.
pub open spec fn looked(exists: bool) -> Event {
    if exists {
        Event::Found
    } else {
        Event::Missing
    }
}

/// The stage a run starts at.
pub fn first_stage() -> (stage: Stage)
    ensures
        stage == Stage::CheckArchive,
{
    Stage::CheckArchive
}

/// Turns the answer of a look for a file into an event.
pub fn probe_event(exists: bool) -> (event: Event)
    ensures
        event == looked(exists),
{
    if exists {
        Event::Found
    } else {
        Event::Missing
    }
}

/// Tells the stage to go on with after the work of `stage` went as `event`
/// says.
pub fn next_stage(stage: Stage, event: Event) -> (next: Stage)
    ensures
        next == step(stage, event),
{
    match (stage, event) {
        (Stage::CheckArchive, Event::Found) => Stage::CheckText,
        (Stage::CheckArchive, Event::Missing) => Stage::Download,
        (Stage::Download, Event::Completed) => Stage::CheckText,
        (Stage::CheckText, Event::Found) => Stage::Read,
        (Stage::CheckText, Event::Missing) => Stage::Extract,
        (Stage::Extract, Event::Completed) => Stage::Read,
        (Stage::Read, Event::Completed) => Stage::Export,
        (Stage::Export, Event::Completed) => Stage::Done,
        (Stage::Done, _) => Stage::Done,
        _ => Stage::Failed,
    }
}

/// Tells whether a run is over at this stage.
pub fn stage_is_final(stage: Stage) -> (over: bool)
    ensures
        over == is_final(stage),
{
    match stage {
        Stage::Done => true,
        Stage::Failed => true,
        _ => false,
    }
}

/// The archive is downloaded only after a look that did not find it: no
/// other stage and no other event lead to the download. In particular an
/// archive that is found is never fetched.
pub proof fn lemma_download_only_when_missing(stage: Stage, event: Event)
    ensures
        step(stage, event) == Stage::Download <==> stage == Stage::CheckArchive && event
            == Event::Missing,
        step(Stage::CheckArchive, looked(true)) != Stage::Download,
{
}

/// The archive is unpacked only after a look that did not find the file it
/// unpacks to.
pub proof fn lemma_extract_only_when_missing(stage: Stage, event: Event)
    ensures
        step(stage, event) == Stage::Extract <==> stage == Stage::CheckText && event
            == Event::Missing,
        step(Stage::CheckText, looked(true)) != Stage::Extract,
{
}

/// A run only moves forward: every step leads to a later stage, until the
/// run is over, and then it stays where it is.
pub proof fn lemma_step_moves_forward(stage: Stage, event: Event)
    ensures
        !is_final(stage) ==> rank(step(stage, event)) > rank(stage),
        is_final(stage) ==> step(stage, event) == stage,
{
}

/// A run is over after six events at the latest, whatever they are.
pub proof fn lemma_run_ends(events: Seq<Event>)
    requires
        events.len() >= 6,
    ensures
        is_final(run(Stage::CheckArchive, events)),
{
    lemma_run_rank(events);
}

/// After `n` events a run is over or has reached the stage of rank `n` or a
/// later one.
proof fn lemma_run_rank(events: Seq<Event>)
    ensures
        is_final(run(Stage::CheckArchive, events)) || rank(run(Stage::CheckArchive, events))
            >= events.len(),
    decreases events.len(),
{
    if events.len() > 0 {
        lemma_run_rank(events.drop_last());
        lemma_step_moves_forward(run(Stage::CheckArchive, events.drop_last()), events.last());
    }
}

/// The stage that a run is at after the first `n` of its events.
pub open spec fn stage_after(events: Seq<Event>, n: int) -> Stage {
    run(Stage::CheckArchive, events.subrange(0, n))
}

/// A run whose look for the archive found it never comes to the download,
/// whatever happens afterwards.
pub proof fn lemma_found_archive_is_never_fetched(events: Seq<Event>, n: int)
    requires
        0 <= n <= events.len(),
        events.len() > 0,
        events[0] == Event::Found,
    ensures
        stage_after(events, n) != Stage::Download,
{
    if n > 0 {
        let so_far = events.subrange(0, n);
        let before = events.subrange(0, n - 1);
        assert(so_far.drop_last() =~= before);
        assert(so_far.last() == events[n - 1]);
        lemma_download_only_when_missing(stage_after(events, n - 1), events[n - 1]);
        lemma_run_rank(before);
    }
}

/// A run whose look for the unpacked file found it never comes to the
/// extraction: the look is the third thing a run does at the latest, and
/// what it finds is not made again.
pub proof fn lemma_found_text_is_never_extracted(events: Seq<Event>, n: int, looked_at: int)
    requires
        0 <= looked_at < n <= events.len(),
        stage_after(events, looked_at) == Stage::CheckText,
        events[looked_at] == Event::Found,
    ensures
        stage_after(events, n) != Stage::Extract,
    decreases n,
{
    let so_far = events.subrange(0, n);
    let before = events.subrange(0, n - 1);
    assert(so_far.drop_last() =~= before);
    assert(so_far.last() == events[n - 1]);
    lemma_extract_only_when_missing(stage_after(events, n - 1), events[n - 1]);
    if n - 1 > looked_at {
        lemma_stage_never_returns(events, looked_at, n - 1);
    }
}

/// A stage that a run has left is not come to again.
pub proof fn lemma_stage_never_returns(events: Seq<Event>, earlier: int, later: int)
    requires
        0 <= earlier < later <= events.len(),
        !is_final(stage_after(events, earlier)),
    ensures
        stage_after(events, later) != stage_after(events, earlier),
        rank(stage_after(events, later)) > rank(stage_after(events, earlier)),
    decreases later - earlier,
{
    let so_far = events.subrange(0, later);
    let before = events.subrange(0, later - 1);
    assert(so_far.drop_last() =~= before);
    assert(so_far.last() == events[later - 1]);
    lemma_step_moves_forward(stage_after(events, later - 1), events[later - 1]);
    if later - 1 > earlier {
        lemma_stage_never_returns(events, earlier, later - 1);
    }
}

} // verus!
