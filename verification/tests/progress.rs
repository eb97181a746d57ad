use azure_ost_cli::progress::{BarAction, BarState, CLICallbacks, Phase};

#[test]
fn phase_lines() {
    let c = CLICallbacks::new();
    assert_eq!(c.pre_phase(Phase::Hashing), Some("Calculating file hashes for comparison or saving..."));
    assert_eq!(c.pre_phase(Phase::Exporting), Some("Exporting selected files..."));
    assert_eq!(c.pre_phase(Phase::Begin), None);
    assert_eq!(c.pre_phase(Phase::ReadingBGMSheet), None);
    assert_eq!(c.pre_phase(Phase::Collecting), None);
    assert_eq!(c.pre_phase(Phase::SavingManifest), None);
    assert_eq!(c.post_phase(Phase::Begin), "Beginning process.");
    assert_eq!(c.post_phase(Phase::ReadingBGMSheet), "Finished reading BGM datasheet.");
    assert_eq!(c.post_phase(Phase::Hashing), "Finished calculating file hashes.");
    assert_eq!(c.post_phase(Phase::Collecting), "Determined which files to operate on.");
    assert_eq!(c.post_phase(Phase::SavingManifest), "Saved file manifest");
    assert_eq!(c.post_phase(Phase::Exporting), "Completed export of all files.");
}

#[test]
fn no_bar_before_a_stage_begins() {
    let mut c = CLICallbacks::new();
    assert_eq!(c.bar(), None);
    assert_eq!(c.process_progress(3), None);
    assert_eq!(c.process_nonfatal_error("lost"), None);
    assert_eq!(c.process_complete(), None);
    assert_eq!(c.bar(), None);
}

#[test]
fn a_stage_draws_moves_and_finishes_its_bar() {
    let mut c = CLICallbacks::new();
    assert_eq!(c.process_begin(10), BarAction::Create { length: 10 });
    assert!(c.bar().is_some());
    assert_eq!(c.process_progress(4), Some(BarAction::SetPosition { position: 4 }));
    assert_eq!(
        c.process_nonfatal_error("file 7 is damaged"),
        Some(BarAction::Println { message: String::from("An error occurred: file 7 is damaged") })
    );
    assert_eq!(c.process_complete(), Some(BarAction::Finish));
    assert_eq!(c.bar(), None);
    assert_eq!(c.process_complete(), None);
}

#[test]
fn a_second_begin_resets_the_bar_that_is_shown() {
    let mut c = CLICallbacks::new();
    assert_eq!(c.process_begin(10), BarAction::Create { length: 10 });
    assert_eq!(c.process_progress(9), Some(BarAction::SetPosition { position: 9 }));
    assert_eq!(c.process_begin(25), BarAction::Reset { length: 25 });
    assert!(c.bar().is_some());
}

#[test]
fn a_new_bar_after_completion() {
    let mut c = CLICallbacks::new();
    c.process_begin(2);
    c.process_complete();
    assert_eq!(c.process_begin(5), BarAction::Create { length: 5 });
}

#[test]
fn the_bar_follows_the_stage() {
    let mut c = CLICallbacks::new();
    assert_eq!(c.bar(), None);
    c.process_progress(1);
    assert_eq!(c.bar(), None);
    c.process_begin(10);
    assert_eq!(c.bar(), Some(BarState { length: 10, position: 0 }));
    c.process_progress(3);
    c.process_nonfatal_error("x");
    c.process_progress(7);
    c.process_nonfatal_error("y");
    assert_eq!(c.bar(), Some(BarState { length: 10, position: 7 }));
    c.process_begin(4);
    assert_eq!(c.bar(), Some(BarState { length: 4, position: 0 }));
    c.process_complete();
    assert_eq!(c.bar(), None);
    c.process_progress(2);
    c.process_nonfatal_error("z");
    assert_eq!(c.bar(), None);
}
