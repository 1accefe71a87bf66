use psc::pipeline::{
    check_path_exists, exists_from_probe, first_stage, next_stage, probe_event, stage_is_final,
    Event, Stage,
};

const STAGES: [Stage; 8] = [
    Stage::CheckArchive,
    Stage::Download,
    Stage::CheckText,
    Stage::Extract,
    Stage::Read,
    Stage::Export,
    Stage::Done,
    Stage::Failed,
];

const EVENTS: [Event; 4] = [Event::Found, Event::Missing, Event::Completed, Event::Broke];

/// Runs the stages with doubles for the work: the files are there or not as
/// told, and every piece of work succeeds. Returns the stages gone through.
fn stages_of_a_run(archive_exists: bool, text_exists: bool) -> Vec<Stage> {
    let mut visited = Vec::new();
    let mut stage = first_stage();
    while !stage_is_final(stage) {
        visited.push(stage);
        let event = match stage {
            Stage::CheckArchive => probe_event(archive_exists),
            Stage::CheckText => probe_event(text_exists),
            _ => Event::Completed,
        };
        stage = next_stage(stage, event);
        assert!(visited.len() <= 6, "a run has six stages at most");
    }
    visited.push(stage);
    visited
}

#[test]
fn run_starts_with_a_look_for_the_archive() {
    assert_eq!(first_stage(), Stage::CheckArchive);
}

#[test]
fn fetch_is_not_invoked_when_the_archive_exists() {
    for text_exists in [false, true] {
        let visited = stages_of_a_run(true, text_exists);
        let fetches = visited.iter().filter(|stage| **stage == Stage::Download).count();
        assert_eq!(fetches, 0);
        assert_eq!(visited.last(), Some(&Stage::Done));
    }
}

#[test]
fn fetch_is_invoked_once_when_the_archive_is_missing() {
    for text_exists in [false, true] {
        let visited = stages_of_a_run(false, text_exists);
        let fetches = visited.iter().filter(|stage| **stage == Stage::Download).count();
        assert_eq!(fetches, 1);
    }
}

#[test]
fn extraction_is_skipped_when_the_text_exists() {
    assert_eq!(
        stages_of_a_run(true, true),
        vec![Stage::CheckArchive, Stage::CheckText, Stage::Read, Stage::Export, Stage::Done]
    );
}

#[test]
fn nothing_is_skipped_when_nothing_exists() {
    assert_eq!(
        stages_of_a_run(false, false),
        vec![
            Stage::CheckArchive,
            Stage::Download,
            Stage::CheckText,
            Stage::Extract,
            Stage::Read,
            Stage::Export,
            Stage::Done
        ]
    );
}

#[test]
fn broken_work_ends_the_run() {
    for stage in STAGES {
        if stage != Stage::Done {
            assert_eq!(next_stage(stage, Event::Broke), Stage::Failed);
        }
    }
}

#[test]
fn event_that_a_stage_cannot_end_in_ends_the_run() {
    assert_eq!(next_stage(Stage::CheckArchive, Event::Completed), Stage::Failed);
    assert_eq!(next_stage(Stage::Download, Event::Found), Stage::Failed);
    assert_eq!(next_stage(Stage::Download, Event::Missing), Stage::Failed);
    assert_eq!(next_stage(Stage::Extract, Event::Found), Stage::Failed);
    assert_eq!(next_stage(Stage::Read, Event::Missing), Stage::Failed);
    assert_eq!(next_stage(Stage::Export, Event::Found), Stage::Failed);
}

#[test]
fn final_stages_stay() {
    for event in EVENTS {
        assert_eq!(next_stage(Stage::Done, event), Stage::Done);
        assert_eq!(next_stage(Stage::Failed, event), Stage::Failed);
    }
    assert!(stage_is_final(Stage::Done));
    assert!(stage_is_final(Stage::Failed));
    for stage in &STAGES[..6] {
        assert!(!stage_is_final(*stage));
    }
}

#[test]
fn download_follows_only_a_look_that_found_nothing() {
    for stage in STAGES {
        for event in EVENTS {
            let leads_to_download = next_stage(stage, event) == Stage::Download;
            assert_eq!(leads_to_download, stage == Stage::CheckArchive && event == Event::Missing);
            let leads_to_extract = next_stage(stage, event) == Stage::Extract;
            assert_eq!(leads_to_extract, stage == Stage::CheckText && event == Event::Missing);
        }
    }
}

#[test]
fn probe_event_tells_found_from_missing() {
    assert_eq!(probe_event(true), Event::Found);
    assert_eq!(probe_event(false), Event::Missing);
}

#[test]
fn failed_probe_counts_as_absent() {
    assert!(exists_from_probe(Some(true)));
    assert!(!exists_from_probe(Some(false)));
    assert!(!exists_from_probe(None));
}

#[test]
fn check_path_exists_looks_at_local_storage() {
    assert!(check_path_exists("."));
    assert!(!check_path_exists("no-such-directory/psc-snapshot-0000-00-00_0of0.zip"));
    assert!(!check_path_exists(""));
}
