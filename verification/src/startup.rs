//! What has to be made on disk before a run can begin.

use crate::config::{resolution, Config};
use vstd::prelude::*;

verus! {

/// What was found on disk, for the paths of a configuration. A log file
/// whose path names no directory counts as having its directory.
#[derive(Debug, Clone, Copy, PartialEq, Eq, Structural)]
pub struct Observed {
    pub log_file_exists: bool,
    pub log_dir_exists: bool,
    pub notes_dir_exists: bool,
}

/// One thing to do on disk.
#[derive(Debug, Clone, Copy, PartialEq, Eq, Structural)]
pub enum Step {
    /// Make the directory of the log file, with the directories above it.
    CreateLogDir,
    /// Make the log file and log to it.
    CreateLogFile,
    /// Log to the end of the log file that is there.
    AppendToLogFile,
    /// Make the notes directory, with the directories above it.
    CreateNotesDir,
}

impl Step {
    /// Whether the step makes something that was not there.
    pub open spec fn creates(self) -> bool {
        self != Step::AppendToLogFile
    }

    /// What is on disk once the step is done.
    pub open spec fn done(self, seen: Observed) -> Observed {
        match self {
            Step::CreateLogDir => Observed { log_dir_exists: true, ..seen },
            Step::CreateLogFile => Observed { log_file_exists: true, ..seen },
            Step::AppendToLogFile => seen,
            Step::CreateNotesDir => Observed { notes_dir_exists: true, ..seen },
        }
    }
}

/// What is on disk once all the steps are done, first to last.
pub open spec fn carried_out(steps: Seq<Step>, seen: Observed) -> Observed
    decreases steps.len(),
{
    if steps.len() == 0 {
        seen
    } else {
        steps.last().done(carried_out(steps.drop_last(), seen))
    }
}

/// The steps that a run begins with. With logging on, a log file that is
/// there is added to; one that is not is made, after its directory where
/// that is missing too. With logging off the log file is left alone. Then a
/// missing notes directory is made.
pub open spec fn plan(log_enabled: bool, seen: Observed) -> Seq<Step> {
    let logging = if !log_enabled {
        Seq::<Step>::empty()
    } else if seen.log_file_exists {
        seq![Step::AppendToLogFile]
    } else if seen.log_dir_exists {
        seq![Step::CreateLogFile]
    } else {
        seq![Step::CreateLogDir, Step::CreateLogFile]
    };
    let notes = if seen.notes_dir_exists {
        Seq::<Step>::empty()
    } else {
        seq![Step::CreateNotesDir]
    };
    logging + notes
}

/// The steps that a run begins with, see [`plan`].
pub fn bootstrap_steps(config: &Config, seen: &Observed) -> (steps: Vec<Step>)
    ensures
        steps@ == plan(config.log_enabled, *seen),
{
    let mut steps: Vec<Step> = Vec::new();
    if config.log_enabled {
        if seen.log_file_exists {
            steps.push(Step::AppendToLogFile);
        } else {
            if !seen.log_dir_exists {
                steps.push(Step::CreateLogDir);
            }
            steps.push(Step::CreateLogFile);
        }
    }
    if !seen.notes_dir_exists {
        steps.push(Step::CreateNotesDir);
    }
    steps
}

/// Once the steps of a run are done, the notes directory is there, and with
/// logging on so is the log file; nothing that was there is gone, and the
/// steps of a run that begins then make nothing.
pub proof fn lemma_plan_provides(log_enabled: bool, seen: Observed)
    ensures
        ({
            let later = carried_out(plan(log_enabled, seen), seen);
            let again = plan(log_enabled, later);
            &&& later.notes_dir_exists
            &&& log_enabled ==> later.log_file_exists
            &&& seen.log_file_exists ==> later.log_file_exists
            &&& seen.log_dir_exists ==> later.log_dir_exists
            &&& forall|i: int| 0 <= i < again.len() ==> !(#[trigger] again[i]).creates()
        }),
{
    let steps = plan(log_enabled, seen);
    reveal_with_fuel(carried_out, 4);
    if steps.len() == 3 {
        assert(steps.drop_last().drop_last().drop_last().len() == 0);
    } else if steps.len() == 2 {
        assert(steps.drop_last().drop_last().len() == 0);
    } else if steps.len() == 1 {
        assert(steps.drop_last().len() == 0);
    }
}

/// A second run without a configuration document finds the configuration
/// of the first, has no root directory to make, and makes nothing on disk:
/// all that is left to do is to add to the log file.
pub proof fn lemma_second_run_makes_nothing(root: Seq<char>, root_exists: bool, seen: Observed)
    ensures
        resolution(root, root_exists, None) matches Ok(first) && resolution(root, true, None)
            matches Ok(second) && {
            let later = carried_out(plan(first.0.log_enabled, seen), seen);
            let again = plan(second.0.log_enabled, later);
            &&& first.0 == second.0
            &&& first.1 == !root_exists
            &&& !second.1
            &&& forall|i: int| 0 <= i < again.len() ==> !(#[trigger] again[i]).creates()
            &&& carried_out(again, later) == later
        },
{
    let first = resolution(root, root_exists, None)->Ok_0;
    lemma_plan_provides(first.0.log_enabled, seen);
    let later = carried_out(plan(first.0.log_enabled, seen), seen);
    let again = plan(first.0.log_enabled, later);
    reveal_with_fuel(carried_out, 2);
    assert(again == seq![Step::AppendToLogFile]);
    assert(again.drop_last().len() == 0);
}

} // verus!
