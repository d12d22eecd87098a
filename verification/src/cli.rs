//! The command line as parsed, and the rule that says which combinations of
//! flags and arguments are legal.

use vstd::prelude::*;

verus! {

/// The raw command line: four independent flags, an optional topic and the
/// values that follow it.
#[derive(Debug, Clone)]
pub struct Cli {
    pub destroy: bool,
    pub delete_line: bool,
    pub edit: bool,
    pub dump_all: bool,
    pub topic: Option<String>,
    pub value: Vec<String>,
}

/// The mode a command line is in: the first flag that is set, in the order
/// destroy, delete-line, edit, dump-all; plain when none is.
#[derive(Debug, Clone, Copy, PartialEq, Eq, Structural)]
pub enum Mode {
    Destroy,
    DeleteLine,
    Edit,
    DumpAll,
    Plain,
}

/// Why a command line is refused.
#[derive(Debug, Clone, Copy, PartialEq, Eq, Structural)]
pub enum Rejection {
    DestroyWithDeleteLine,
    DestroyWithNote,
    DestroyWithEdit,
    DestroyWithDumpAll,
    DeleteLineWithoutTopic,
    DeleteLineWithoutLine,
    DeleteLineWithDumpAll,
    EditWithoutTopic,
    EditWithDumpAll,
    DumpAllWithArguments,
}

impl Rejection {
    /// The sentence shown to the user.
    pub open spec fn text(self) -> Seq<char> {
        match self {
            Rejection::DestroyWithDeleteLine =>
                "You can't both destroy a topic and also delete a line from it"@,
            Rejection::DestroyWithNote => "If you wish to destroy a topic then do not add a note"@,
            Rejection::DestroyWithEdit =>
                "You can't use edit and destroy in the same call, choose one"@,
            Rejection::DestroyWithDumpAll =>
                "Destroying a topic and dumping all data are mutually exclusive"@,
            Rejection::DeleteLineWithoutTopic =>
                "You need to specify a topic from which to delete a line"@,
            Rejection::DeleteLineWithoutLine => "You need to specify a line to delete"@,
            Rejection::DeleteLineWithDumpAll => "Either delete line or dump all data, not both"@,
            Rejection::EditWithoutTopic => "You need to specify a topic to edit"@,
            Rejection::EditWithDumpAll => "You must choose either to edit or dump all data"@,
            Rejection::DumpAllWithArguments =>
                "If you wish to dump all data then do not provide any further arguments"@,
        }
    }

    /// The mode in which this reason can arise.
    pub open spec fn mode(self) -> Mode {
        match self {
            Rejection::DestroyWithDeleteLine
            | Rejection::DestroyWithNote
            | Rejection::DestroyWithEdit
            | Rejection::DestroyWithDumpAll => Mode::Destroy,
            Rejection::DeleteLineWithoutTopic
            | Rejection::DeleteLineWithoutLine
            | Rejection::DeleteLineWithDumpAll => Mode::DeleteLine,
            Rejection::EditWithoutTopic | Rejection::EditWithDumpAll => Mode::Edit,
            Rejection::DumpAllWithArguments => Mode::DumpAll,
        }
    }

    /// The sentence shown to the user.
    pub fn message(&self) -> (text: &'static str)
        ensures
            text@ == self.text(),
    {
        match self {
            Rejection::DestroyWithDeleteLine =>
                "You can't both destroy a topic and also delete a line from it",
            Rejection::DestroyWithNote => "If you wish to destroy a topic then do not add a note",
            Rejection::DestroyWithEdit =>
                "You can't use edit and destroy in the same call, choose one",
            Rejection::DestroyWithDumpAll =>
                "Destroying a topic and dumping all data are mutually exclusive",
            Rejection::DeleteLineWithoutTopic =>
                "You need to specify a topic from which to delete a line",
            Rejection::DeleteLineWithoutLine => "You need to specify a line to delete",
            Rejection::DeleteLineWithDumpAll => "Either delete line or dump all data, not both",
            Rejection::EditWithoutTopic => "You need to specify a topic to edit",
            Rejection::EditWithDumpAll => "You must choose either to edit or dump all data",
            Rejection::DumpAllWithArguments =>
                "If you wish to dump all data then do not provide any further arguments",
        }
    }
}

/// The mode that four flags select: the first one set wins.
pub open spec fn mode_of(destroy: bool, delete_line: bool, edit: bool, dump_all: bool) -> Mode {
    if destroy {
        Mode::Destroy
    } else if delete_line {
        Mode::DeleteLine
    } else if edit {
        Mode::Edit
    } else if dump_all {
        Mode::DumpAll
    } else {
        Mode::Plain
    }
}

/// Whether the flags alone break a demand of the mode they select: a flag
/// is set that the mode does not go with.
pub open spec fn flags_conflict(destroy: bool, delete_line: bool, edit: bool, dump_all: bool)
    -> bool {
    match mode_of(destroy, delete_line, edit, dump_all) {
        Mode::Destroy => delete_line || edit || dump_all,
        Mode::DeleteLine => dump_all,
        Mode::Edit => dump_all,
        Mode::DumpAll => false,
        Mode::Plain => false,
    }
}

/// Whether a mode goes with a topic being there or not, and with values
/// being there or not.
pub open spec fn arguments_fit(mode: Mode, has_topic: bool, has_values: bool) -> bool {
    match mode {
        Mode::Destroy => !has_values,
        Mode::DeleteLine => has_topic && has_values,
        Mode::Edit => has_topic,
        Mode::DumpAll => !has_topic && !has_values,
        Mode::Plain => true,
    }
}

impl Cli {
    pub open spec fn has_topic(&self) -> bool {
        self.topic is Some
    }

    pub open spec fn has_values(&self) -> bool {
        self.value@.len() > 0
    }

    /// The active mode.
    pub open spec fn mode(&self) -> Mode {
        mode_of(self.destroy, self.delete_line, self.edit, self.dump_all)
    }

    /// The violations of the active mode, in the order in which they are
    /// looked for. Only the active mode is examined.
    pub open spec fn violations(&self) -> Seq<Rejection> {
        let when = |broken: bool, reason: Rejection|
            if broken {
                seq![reason]
            } else {
                Seq::<Rejection>::empty()
            };
        match self.mode() {
            Mode::Destroy => when(self.delete_line, Rejection::DestroyWithDeleteLine) + when(
                self.has_values(),
                Rejection::DestroyWithNote,
            ) + when(self.edit, Rejection::DestroyWithEdit) + when(
                self.dump_all,
                Rejection::DestroyWithDumpAll,
            ),
            Mode::DeleteLine => when(!self.has_topic(), Rejection::DeleteLineWithoutTopic) + when(
                !self.has_values(),
                Rejection::DeleteLineWithoutLine,
            ) + when(self.dump_all, Rejection::DeleteLineWithDumpAll),
            Mode::Edit => when(!self.has_topic(), Rejection::EditWithoutTopic) + when(
                self.dump_all,
                Rejection::EditWithDumpAll,
            ),
            Mode::DumpAll => when(
                self.has_topic() || self.has_values(),
                Rejection::DumpAllWithArguments,
            ),
            Mode::Plain => Seq::<Rejection>::empty(),
        }
    }

    /// The reason for which this command line is refused: the first
    /// violation of its mode, if there is one.
    pub open spec fn rejection(&self) -> Option<Rejection> {
        if self.violations().len() > 0 {
            Some(self.violations()[0])
        } else {
            None
        }
    }

    /// What the active mode demands of the rest of the command line.
    pub open spec fn well_formed(&self) -> bool {
        match self.mode() {
            Mode::Destroy => !self.delete_line && !self.has_values() && !self.edit
                && !self.dump_all,
            Mode::DeleteLine => self.has_topic() && self.has_values() && !self.dump_all,
            Mode::Edit => self.has_topic() && !self.dump_all,
            Mode::DumpAll => !self.has_topic() && !self.has_values(),
            Mode::Plain => true,
        }
    }

    /// The active mode.
    pub fn active_mode(&self) -> (mode: Mode)
        ensures
            mode == self.mode(),
    {
        if self.destroy {
            Mode::Destroy
        } else if self.delete_line {
            Mode::DeleteLine
        } else if self.edit {
            Mode::Edit
        } else if self.dump_all {
            Mode::DumpAll
        } else {
            Mode::Plain
        }
    }

    /// The reason for which this command line is refused, or `None` where
    /// it is legal.
    pub fn refusal(&self) -> (reason: Option<Rejection>)
        ensures
            reason == self.rejection(),
            reason is None <==> self.well_formed(),
    {
        let no_topic = self.topic.is_none();
        let no_values = self.value.len() == 0;
        match self.active_mode() {
            Mode::Destroy => {
                if self.delete_line {
                    Some(Rejection::DestroyWithDeleteLine)
                } else if !no_values {
                    Some(Rejection::DestroyWithNote)
                } else if self.edit {
                    Some(Rejection::DestroyWithEdit)
                } else if self.dump_all {
                    Some(Rejection::DestroyWithDumpAll)
                } else {
                    None
                }
            },
            Mode::DeleteLine => {
                if no_topic {
                    Some(Rejection::DeleteLineWithoutTopic)
                } else if no_values {
                    Some(Rejection::DeleteLineWithoutLine)
                } else if self.dump_all {
                    Some(Rejection::DeleteLineWithDumpAll)
                } else {
                    None
                }
            },
            Mode::Edit => {
                if no_topic {
                    Some(Rejection::EditWithoutTopic)
                } else if self.dump_all {
                    Some(Rejection::EditWithDumpAll)
                } else {
                    None
                }
            },
            Mode::DumpAll => {
                if !no_topic || !no_values {
                    Some(Rejection::DumpAllWithArguments)
                } else {
                    None
                }
            },
            Mode::Plain => None,
        }
    }

    /// The sentence that refuses this command line, or `None` where it is
    /// legal.
    pub fn validate(&self) -> (message: Option<&'static str>)
        ensures
            message is None <==> self.well_formed(),
            match self.rejection() {
                Some(reason) => message matches Some(text) && text@ == reason.text(),
                None => message is None,
            },
    {
        match self.refusal() {
            Some(reason) => Some(reason.message()),
            None => None,
        }
    }
}

/// A command line is refused exactly when it breaks a demand of its active
/// mode, and the reason given then belongs to that mode. Flags that do not
/// go together are refused whatever else is given; all other combinations of
/// flags are accepted exactly with the arguments that their mode takes. With
/// no flag set nothing is refused.
pub proof fn lemma_rejected_iff_ill_formed(cli: Cli)
    ensures
        cli.rejection() is None <==> cli.well_formed(),
        cli.rejection() matches Some(reason) ==> reason.mode() == cli.mode(),
        flags_conflict(cli.destroy, cli.delete_line, cli.edit, cli.dump_all)
            ==> cli.rejection() is Some,
        !flags_conflict(cli.destroy, cli.delete_line, cli.edit, cli.dump_all) ==> (
        cli.rejection() is None <==> arguments_fit(cli.mode(), cli.has_topic(), cli.has_values())),
        cli.mode() == Mode::Plain ==> cli.rejection() is None,
{
}

} // verus!
