//! What is done with one file once its destination is known, and with one
//! directory once its entries are dealt with.

use crate::paths::{add_trailing_slash, ends_with_separator, with_trailing_separator};
use vstd::prelude::*;
use vstd::string::StringExecFns;

verus! {

/// How a file reaches its destination.
#[derive(Clone, Copy, Debug, PartialEq, Eq, Structural)]
pub enum Action {
    /// The file is duplicated; a destination that exists is never replaced.
    Copy,
    /// The file is renamed; a destination that exists is replaced.
    Move,
}

/// The settings of one run. The destination root of every value ends in a
/// separator.
#[derive(Debug, PartialEq, Eq)]
pub struct Options {
    do_action: bool,
    action: Action,
    destination_path: String,
}

/// The settings of a run as a mathematical value.
pub struct OptionsModel {
    /// Whether the filesystem is changed; `false` in a dry run.
    pub do_action: bool,
    pub action: Action,
    /// The destination root.
    pub destination_path: Seq<char>,
}

impl View for Options {
    type V = OptionsModel;

    closed spec fn view(&self) -> OptionsModel {
        OptionsModel {
            do_action: self.do_action,
            action: self.action,
            destination_path: self.destination_path@,
        }
    }
}

impl Options {
    #[verifier::type_invariant]
    spec fn valid(self) -> bool {
        ends_with_separator(self.destination_path@)
    }

    /// The settings of a run that brings files below `target`.
    pub fn new(action: Action, dry_run: bool, target: String) -> (options: Options)
        ensures
            options@ == (OptionsModel {
                do_action: !dry_run,
                action,
                destination_path: with_trailing_separator(target@),
            }),
    {
        Options { do_action: !dry_run, action, destination_path: add_trailing_slash(target) }
    }

    /// Whether the filesystem is changed; `false` in a dry run.
    pub fn do_action(&self) -> (do_action: bool)
        ensures
            do_action == self@.do_action,
    {
        self.do_action
    }

    /// How files reach their destinations.
    pub fn action(&self) -> (action: Action)
        ensures
            action == self@.action,
    {
        self.action
    }

    /// The destination root. It ends in a separator.
    pub fn destination_path(&self) -> (root: &String)
        ensures
            root@ == self@.destination_path,
            ends_with_separator(root@),
    {
        proof {
            use_type_invariant(self);
        }
        &self.destination_path
    }

    /// The full destination of a file planned at `planned` below the root.
    pub fn destination(&self, planned: &str) -> (full: String)
        ensures
            full@ == self@.destination_path + planned@,
    {
        self.destination_path.clone().concat(planned)
    }
}

/// One thing for the caller to do. The first two report; the others change
/// the filesystem.
#[derive(Clone, Debug, PartialEq, Eq)]
pub enum Command {
    /// Report that a file is about to be copied or moved.
    AnnounceRelocation { action: Action, from: String, to: String },
    /// Report that an empty directory is about to be deleted.
    AnnouncePruning { directory: String },
    /// Create the directory that is to hold `of`, with all that lead to it.
    CreateParent { of: String },
    /// Rename a file, replacing what is at `to`.
    Rename { from: String, to: String },
    /// Copy a file's bytes.
    CopyContents { from: String, to: String },
    /// Give the file at `to` the modification time of the file at `from`.
    CopyModifiedTime { from: String, to: String },
    /// Remove an empty directory.
    RemoveDirectory { path: String },
}

/// A command as a mathematical value.
pub enum CommandModel {
    AnnounceRelocation { action: Action, from: Seq<char>, to: Seq<char> },
    AnnouncePruning { directory: Seq<char> },
    CreateParent { of: Seq<char> },
    Rename { from: Seq<char>, to: Seq<char> },
    CopyContents { from: Seq<char>, to: Seq<char> },
    CopyModifiedTime { from: Seq<char>, to: Seq<char> },
    RemoveDirectory { path: Seq<char> },
}

impl View for Command {
    type V = CommandModel;

    open spec fn view(&self) -> CommandModel {
        match *self {
            Command::AnnounceRelocation { action, from, to } => CommandModel::AnnounceRelocation {
                action,
                from: from@,
                to: to@,
            },
            Command::AnnouncePruning { directory } => CommandModel::AnnouncePruning {
                directory: directory@,
            },
            Command::CreateParent { of } => CommandModel::CreateParent { of: of@ },
            Command::Rename { from, to } => CommandModel::Rename { from: from@, to: to@ },
            Command::CopyContents { from, to } => CommandModel::CopyContents {
                from: from@,
                to: to@,
            },
            Command::CopyModifiedTime { from, to } => CommandModel::CopyModifiedTime {
                from: from@,
                to: to@,
            },
            Command::RemoveDirectory { path } => CommandModel::RemoveDirectory { path: path@ },
        }
    }
}

impl DeepView for Command {
    type V = CommandModel;

    open spec fn deep_view(&self) -> CommandModel {
        self@
    }
}

impl CommandModel {
    /// Whether the command changes the filesystem.
    pub open spec fn is_mutation(self) -> bool {
        !(self is AnnounceRelocation || self is AnnouncePruning)
    }
}

/// The report that goes before a relocation.
pub open spec fn relocation_notice(action: Action, from: Seq<char>, to: Seq<char>) -> Seq<
    CommandModel,
> {
    seq![CommandModel::AnnounceRelocation { action, from, to }]
}

/// The changes that bring a file to its destination: the directories above
/// it are made first; a move is then one rename, a copy is a copy of the
/// bytes and then of the modification time.
pub open spec fn relocation_changes(action: Action, from: Seq<char>, to: Seq<char>) -> Seq<
    CommandModel,
> {
    match action {
        Action::Move => seq![
            CommandModel::CreateParent { of: to },
            CommandModel::Rename { from, to },
        ],
        Action::Copy => seq![
            CommandModel::CreateParent { of: to },
            CommandModel::CopyContents { from, to },
            CommandModel::CopyModifiedTime { from, to },
        ],
    }
}

/// The commands that relocate a file: the report, and the changes unless
/// the run is a dry one.
pub open spec fn relocation(options: OptionsModel, from: Seq<char>, to: Seq<char>) -> Seq<
    CommandModel,
> {
    if options.do_action {
        relocation_notice(options.action, from, to) + relocation_changes(options.action, from, to)
    } else {
        relocation_notice(options.action, from, to)
    }
}

/// Whether the filesystem has to be asked if the destination exists before
/// the file at `from` can be settled: only a copy cares, and only of a file
/// that is not in its place.
pub open spec fn needs_probe(options: OptionsModel, from: Seq<char>, to: Seq<char>) -> bool {
    from != to && options.action is Copy
}

/// The commands for a file at `from` whose destination is `to`, where
/// `taken` says whether something exists at the destination.
///
/// A file in its place is left alone. A copy leaves alone a destination
/// that is taken. Every other file is relocated; a move does not ask
/// whether the destination is taken.
pub open spec fn settlement(options: OptionsModel, from: Seq<char>, to: Seq<char>, taken: bool)
    -> Seq<CommandModel> {
    if from == to {
        Seq::empty()
    } else if options.action is Copy && taken {
        Seq::empty()
    } else {
        relocation(options, from, to)
    }
}

/// The commands for a directory whose entries are dealt with, where `empty`
/// says whether it holds nothing now: an empty one is reported and, unless
/// the run is a dry one, removed.
pub open spec fn pruning(options: OptionsModel, directory: Seq<char>, empty: bool) -> Seq<
    CommandModel,
> {
    if !empty {
        Seq::empty()
    } else if options.do_action {
        seq![
            CommandModel::AnnouncePruning { directory },
            CommandModel::RemoveDirectory { path: directory },
        ]
    } else {
        seq![CommandModel::AnnouncePruning { directory }]
    }
}

/// Tells whether the filesystem has to be asked if `to` exists.
pub fn probe_needed(options: &Options, from: &String, to: &String) -> (needed: bool)
    ensures
        needed == needs_probe(options@, from@, to@),
{
    if *from == *to {
        return false;
    }
    match options.action {
        Action::Copy => true,
        Action::Move => false,
    }
}

/// Decides what is done with the file at `from` whose destination is `to`.
/// `taken` says whether something exists at the destination; it is looked
/// at only where `probe_needed` says so.
pub fn settle(options: &Options, from: &String, to: &String, taken: bool) -> (commands: Vec<
    Command,
>)
    ensures
        commands.deep_view() == settlement(options@, from@, to@, taken),
{
    let mut commands: Vec<Command> = Vec::new();
    if *from == *to {
        return commands;
    }
    match options.action {
        Action::Copy => {
            if taken {
                return commands;
            }
        },
        Action::Move => {},
    }
    commands.push(
        Command::AnnounceRelocation { action: options.action, from: from.clone(), to: to.clone() },
    );
    if options.do_action {
        commands.push(Command::CreateParent { of: to.clone() });
        match options.action {
            Action::Move => {
                commands.push(Command::Rename { from: from.clone(), to: to.clone() });
            },
            Action::Copy => {
                commands.push(Command::CopyContents { from: from.clone(), to: to.clone() });
                commands.push(Command::CopyModifiedTime { from: from.clone(), to: to.clone() });
            },
        }
    }
    commands
}

/// Decides what is done with a directory whose entries are dealt with.
pub fn prune(options: &Options, directory: &String, empty: bool) -> (commands: Vec<Command>)
    ensures
        commands.deep_view() == pruning(options@, directory@, empty),
{
    let mut commands: Vec<Command> = Vec::new();
    if empty {
        commands.push(Command::AnnouncePruning { directory: directory.clone() });
        if options.do_action {
            commands.push(Command::RemoveDirectory { path: directory.clone() });
        }
    }
    commands
}

/// The reports among some commands, in their order.
pub open spec fn reports(commands: Seq<CommandModel>) -> Seq<CommandModel> {
    commands.filter(|command: CommandModel| !command.is_mutation())
}

/// The settings of the dry run that goes with a run.
pub open spec fn dry(options: OptionsModel) -> OptionsModel {
    OptionsModel { do_action: false, ..options }
}

/// A file that sits at its destination is left alone: nothing is asked and
/// nothing is done, in either mode and whatever exists.
pub proof fn lemma_placed_file_is_left_alone(options: OptionsModel, path: Seq<char>, taken: bool)
    ensures
        !needs_probe(options, path, path),
        settlement(options, path, path, taken) == Seq::<CommandModel>::empty(),
{
}

/// A copy leaves alone a destination that exists: nothing is done, not
/// even reported.
pub proof fn lemma_copy_spares_taken_destination(
    options: OptionsModel,
    from: Seq<char>,
    to: Seq<char>,
)
    requires
        options.action is Copy,
    ensures
        settlement(options, from, to, true) == Seq::<CommandModel>::empty(),
{
}

/// A move goes ahead whether or not its destination exists: nothing is
/// asked, the commands are the same either way, and unless the run is a dry
/// one the last of them renames the file onto the destination.
pub proof fn lemma_move_replaces_destination(
    options: OptionsModel,
    from: Seq<char>,
    to: Seq<char>,
    taken: bool,
)
    requires
        options.action is Move,
        from != to,
    ensures
        !needs_probe(options, from, to),
        settlement(options, from, to, taken) == relocation(options, from, to),
        options.do_action ==> settlement(options, from, to, taken).last() == (
        CommandModel::Rename { from, to }),
{
}

/// A dry run changes nothing about a file, and reports what the run itself
/// reports, given the same answer about the destination.
pub proof fn lemma_dry_run_settles_alike(
    options: OptionsModel,
    from: Seq<char>,
    to: Seq<char>,
    taken: bool,
)
    ensures
        needs_probe(dry(options), from, to) == needs_probe(options, from, to),
        settlement(dry(options), from, to, taken) == reports(
            settlement(options, from, to, taken),
        ),
        forall|i: int|
            0 <= i < settlement(dry(options), from, to, taken).len() ==> !(
            #[trigger] settlement(dry(options), from, to, taken)[i]).is_mutation(),
{
    reveal_with_fuel(Seq::filter, 5);
}

/// A dry run changes nothing about a directory, and reports what the run
/// itself reports, given the same answer about its emptiness.
pub proof fn lemma_dry_run_prunes_alike(options: OptionsModel, directory: Seq<char>, empty: bool)
    ensures
        pruning(dry(options), directory, empty) == reports(pruning(options, directory, empty)),
        forall|i: int|
            0 <= i < pruning(dry(options), directory, empty).len() ==> !(#[trigger] pruning(
                dry(options),
                directory,
                empty,
            )[i]).is_mutation(),
{
    reveal_with_fuel(Seq::filter, 3);
}

} // verus!
