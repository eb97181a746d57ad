use vstd::prelude::*;
use vstd::string::StringExecFns;

verus! {

/// The phases of an export run.
#[derive(Clone, Copy, Debug, PartialEq, Eq, Structural)]
pub enum Phase {
    Begin,
    ReadingBGMSheet,
    Hashing,
    Collecting,
    SavingManifest,
    Exporting,
}

/// What the front end knows of its progress bar: the length it was given
/// and the position last set.
#[derive(Clone, Copy, Debug, PartialEq, Eq, Structural)]
pub struct BarState {
    pub length: u64,
    pub position: u64,
}

/// What the terminal's progress bar is told to do.
#[derive(Clone, Debug, PartialEq, Eq)]
pub enum BarAction {
    /// Draw a new bar of this length, in the front end's style.
    Create { length: u64 },
    /// Give the bar that is shown this length and move it back to the start.
    Reset { length: u64 },
    /// Move the bar that is shown to this position.
    SetPosition { position: u64 },
    /// Print this line above the bar that is shown.
    Println { message: String },
    /// Finish the bar that is shown; it is no longer updated.
    Finish,
}

/// The progress reports of an export run, without their payload text.
#[derive(Clone, Copy, Debug, PartialEq, Eq, Structural)]
pub enum Report {
    /// A stage of `total` operations begins.
    Begin(u64),
    /// This many operations of the stage are done.
    Progress(u64),
    /// An operation failed without ending the run.
    NonfatalError,
    /// The stage is complete.
    Complete,
}

/// The bar after one report.
pub open spec fn next_bar(bar: Option<BarState>, r: Report) -> Option<BarState> {
    match r {
        Report::Begin(total) => Some(BarState { length: total, position: 0 }),
        Report::Progress(done) => match bar {
            Some(b) => Some(BarState { length: b.length, position: done }),
            None => None,
        },
        Report::NonfatalError => bar,
        Report::Complete => None,
    }
}

/// The bar after a series of reports, the first one first.
pub open spec fn run(bar: Option<BarState>, reports: Seq<Report>) -> Option<BarState>
    decreases reports.len(),
{
    if reports.len() == 0 {
        bar
    } else {
        next_bar(run(bar, reports.drop_last()), reports.last())
    }
}

/// The line printed before a phase, if any.
pub open spec fn spec_pre_phase(phase: Phase) -> Option<Seq<char>> {
    match phase {
        Phase::Hashing => Some("Calculating file hashes for comparison or saving..."@),
        Phase::Exporting => Some("Exporting selected files..."@),
        _ => None,
    }
}

/// The line printed after a phase.
pub open spec fn spec_post_phase(phase: Phase) -> Seq<char> {
    match phase {
        Phase::Begin => "Beginning process."@,
        Phase::ReadingBGMSheet => "Finished reading BGM datasheet."@,
        Phase::Hashing => "Finished calculating file hashes."@,
        Phase::Collecting => "Determined which files to operate on."@,
        Phase::SavingManifest => "Saved file manifest"@,
        Phase::Exporting => "Completed export of all files."@,
    }
}

/// The line printed above the bar for an error that does not end the run.
pub open spec fn spec_error_line(reason: Seq<char>) -> Seq<char> {
    "An error occurred: "@ + reason
}

/// The front end's answers to the reports of an export run: the lines it
/// prints and what it does with its progress bar.
pub struct CLICallbacks {
    bar: Option<BarState>,
}

impl View for CLICallbacks {
    type V = Option<BarState>;

    closed spec fn view(&self) -> Option<BarState> {
        self.bar
    }
}

impl CLICallbacks {
    /// No bar is shown at first.
    pub fn new() -> (c: CLICallbacks)
        ensures
            c@ is None,
    {
        CLICallbacks { bar: None }
    }

    /// The bar that is shown, as far as the front end knows it.
    pub fn bar(&self) -> (b: Option<BarState>)
        ensures
            b == self@,
    {
        self.bar
    }

    /// The line printed before `phase` starts, if any.
    pub fn pre_phase(&self, phase: Phase) -> (line: Option<&'static str>)
        ensures
            match line {
                Some(t) => spec_pre_phase(phase) == Some(t@),
                None => spec_pre_phase(phase) is None,
            },
    {
        match phase {
            Phase::Hashing => Some("Calculating file hashes for comparison or saving..."),
            Phase::Exporting => Some("Exporting selected files..."),
            _ => None,
        }
    }

    /// The line printed after `phase` ends.
    pub fn post_phase(&self, phase: Phase) -> (line: &'static str)
        ensures
            line@ == spec_post_phase(phase),
    {
        match phase {
            Phase::Begin => "Beginning process.",
            Phase::ReadingBGMSheet => "Finished reading BGM datasheet.",
            Phase::Hashing => "Finished calculating file hashes.",
            Phase::Collecting => "Determined which files to operate on.",
            Phase::SavingManifest => "Saved file manifest",
            Phase::Exporting => "Completed export of all files.",
        }
    }

    /// A stage of `total` operations begins: the bar that is shown is reset
    /// to that length, or a new one is drawn.
    pub fn process_begin(&mut self, total: u64) -> (a: BarAction)
        ensures
            final(self)@ == next_bar(old(self)@, Report::Begin(total)),
            a == (if old(self)@ is Some {
                BarAction::Reset { length: total }
            } else {
                BarAction::Create { length: total }
            }),
    {
        let a = if self.bar.is_some() {
            BarAction::Reset { length: total }
        } else {
            BarAction::Create { length: total }
        };
        self.bar = Some(BarState { length: total, position: 0 });
        a
    }

    /// `done` operations of the stage are done: the bar that is shown, if
    /// any, moves there.
    pub fn process_progress(&mut self, done: u64) -> (a: Option<BarAction>)
        ensures
            final(self)@ == next_bar(old(self)@, Report::Progress(done)),
            a == (if old(self)@ is Some {
                Some(BarAction::SetPosition { position: done })
            } else {
                None
            }),
    {
        match self.bar {
            Some(b) => {
                self.bar = Some(BarState { length: b.length, position: done });
                Some(BarAction::SetPosition { position: done })
            },
            None => None,
        }
    }

    /// An operation failed for `reason` without ending the run: the error is
    /// printed above the bar that is shown; with no bar it is not reported.
    pub fn process_nonfatal_error(&self, reason: &str) -> (a: Option<BarAction>)
        ensures
            self@ is Some ==> (a matches Some(BarAction::Println { message }) && message@
                == spec_error_line(reason@)),
            self@ is None ==> a is None,
    {
        if self.bar.is_some() {
            let message = String::from_str("An error occurred: ").concat(reason);
            Some(BarAction::Println { message })
        } else {
            None
        }
    }

    /// The stage is complete: the bar that is shown is finished and dropped.
    pub fn process_complete(&mut self) -> (a: Option<BarAction>)
        ensures
            final(self)@ == next_bar(old(self)@, Report::Complete),
            a == (if old(self)@ is Some {
                Some(BarAction::Finish)
            } else {
                None
            }),
    {
        if self.bar.is_some() {
            self.bar = None;
            Some(BarAction::Finish)
        } else {
            None
        }
    }
}


/// Some report begins a stage that no later report completes.
pub open spec fn stage_open(reports: Seq<Report>) -> bool {
    exists|i: int|
        #![trigger reports[i]]
        0 <= i < reports.len() && reports[i] is Begin && forall|j: int|
            i < j < reports.len() ==> !(#[trigger] reports[j] is Complete)
}

/// Starting with no bar, a bar is shown exactly when some report has begun a
/// stage that no later report has completed.
pub proof fn lemma_bar_shown_iff_stage_open(reports: Seq<Report>)
    ensures
        run(None, reports) is Some <==> stage_open(reports),
    decreases reports.len(),
{
    if reports.len() > 0 {
        let n = reports.len() - 1;
        let prefix = reports.drop_last();
        lemma_bar_shown_iff_stage_open(prefix);
        match reports.last() {
            Report::Begin(_) => {
                assert(reports[n] is Begin);
            },
            Report::Complete => {
                if stage_open(reports) {
                    let i = choose|i: int|
                        #![trigger reports[i]]
                        0 <= i < reports.len() && reports[i] is Begin && forall|j: int|
                            i < j < reports.len() ==> !(#[trigger] reports[j] is Complete);
                    assert(reports[n] is Complete);
                }
            },
            _ => {
                if stage_open(prefix) {
                    let i = choose|i: int|
                        #![trigger prefix[i]]
                        0 <= i < prefix.len() && prefix[i] is Begin && forall|j: int|
                            i < j < prefix.len() ==> !(#[trigger] prefix[j] is Complete);
                    assert(reports[i] is Begin);
                    assert forall|j: int| i < j < reports.len() implies !(
                    #[trigger] reports[j] is Complete) by {
                        if j < n {
                            assert(reports[j] == prefix[j]);
                        }
                    }
                }
                if stage_open(reports) {
                    let i = choose|i: int|
                        #![trigger reports[i]]
                        0 <= i < reports.len() && reports[i] is Begin && forall|j: int|
                            i < j < reports.len() ==> !(#[trigger] reports[j] is Complete);
                    assert(i < n);
                    assert(prefix[i] is Begin);
                    assert forall|j: int| i < j < prefix.len() implies !(
                    #[trigger] prefix[j] is Complete) by {
                        assert(reports[j] == prefix[j]);
                    }
                }
            },
        }
    }
}

/// The count of the last progress report after position `i`, or 0 when
/// there is none.
pub open spec fn last_progress(reports: Seq<Report>, i: int) -> u64
    decreases reports.len(),
{
    if reports.len() == 0 || reports.len() <= i + 1 {
        0
    } else {
        match reports.last() {
            Report::Progress(done) => done,
            _ => last_progress(reports.drop_last(), i),
        }
    }
}

/// Once a stage has begun with `total` operations, and until another stage
/// begins or the stage completes, the bar that is shown has that length and
/// stands at the count of the last progress report, or at the start before
/// any, whatever bar there was before.
pub proof fn lemma_bar_follows_stage(bar: Option<BarState>, reports: Seq<Report>, i: int)
    requires
        0 <= i < reports.len(),
        reports[i] is Begin,
        forall|j: int|
            i < j < reports.len() ==> !(#[trigger] reports[j] is Begin) && !(
            reports[j] is Complete),
    ensures
        run(bar, reports) == Some(
            BarState { length: reports[i]->Begin_0, position: last_progress(reports, i) },
        ),
    decreases reports.len(),
{
    let n = reports.len() - 1;
    if i < n {
        let prefix = reports.drop_last();
        assert forall|j: int| i < j < prefix.len() implies !(#[trigger] prefix[j] is Begin) && !(
        prefix[j] is Complete) by {
            assert(reports[j] == prefix[j]);
        }
        lemma_bar_follows_stage(bar, prefix, i);
        assert(!(reports[n] is Begin) && !(reports[n] is Complete));
        assert(prefix[i] == reports[i]);
    }
}

} // verus!
