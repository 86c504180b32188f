//! The walk over a directory tree, as a machine that asks and is answered.
//!
//! The machine never touches the filesystem. Each turn it hands out
//! commands to carry out in order and, unless the walk is over, one query.
//! The answer to the query is the next reply it is advanced with. A
//! directory is entered as soon as it is met; it is looked at for emptiness
//! only when each of its entries has been dealt with, the directories among
//! them to their end.

use crate::calendar::{stamp_text, unix_time};
use crate::embedded::container_fields;
use crate::metadata::{
    extraction, lemma_fallback_without_container, parse_file, ExtractError, ExtractErrorModel,
};
use crate::planner::{lowercase_of, plan, planned_path};
use crate::relocate::{
    dry, lemma_dry_run_prunes_alike, lemma_dry_run_settles_alike, needs_probe, probe_needed,
    prune, pruning, reports, settle, settlement, Command, CommandModel, Options, OptionsModel,
};
use vstd::prelude::*;

verus! {

/// One entry of a directory.
#[derive(Clone, Debug, PartialEq, Eq)]
pub struct Entry {
    pub path: String,
    pub is_directory: bool,
}

/// A directory entry as a mathematical value.
pub struct EntryModel {
    pub path: Seq<char>,
    pub is_directory: bool,
}

impl View for Entry {
    type V = EntryModel;

    open spec fn view(&self) -> EntryModel {
        EntryModel { path: self.path@, is_directory: self.is_directory }
    }
}

impl DeepView for Entry {
    type V = EntryModel;

    open spec fn deep_view(&self) -> EntryModel {
        self@
    }
}

/// What the walk has to know of a file: its bytes, its modification time as
/// a count of seconds and nanoseconds since 1970, and the extension of its
/// name, if the name has one.
#[derive(Clone, Debug, PartialEq, Eq)]
pub struct FileFacts {
    pub data: Vec<u8>,
    pub modified_seconds: i64,
    pub modified_nanoseconds: u32,
    pub extension: Option<String>,
}

/// The facts of a file as a mathematical value.
pub struct FileFactsModel {
    pub data: Seq<u8>,
    pub modified_seconds: i64,
    pub modified_nanoseconds: u32,
    pub extension: Option<Seq<char>>,
}

impl View for FileFacts {
    type V = FileFactsModel;

    open spec fn view(&self) -> FileFactsModel {
        FileFactsModel {
            data: self.data@,
            modified_seconds: self.modified_seconds,
            modified_nanoseconds: self.modified_nanoseconds,
            extension: match self.extension {
                Some(text) => Some(text@),
                None => None,
            },
        }
    }
}

/// A question about the filesystem.
#[derive(Clone, Debug, PartialEq, Eq)]
pub enum Query {
    /// Which entries does this directory hold? Answered by `Reply::Entries`.
    List { directory: String },
    /// What are the facts of this file? Answered by `Reply::File`.
    Read { file: String },
    /// Is there anything at this path? Answered by `Reply::Exists`.
    Exists { path: String },
    /// Does this directory hold nothing? Answered by `Reply::Empty`.
    IsEmpty { directory: String },
}

/// A query as a mathematical value.
pub enum QueryModel {
    List { directory: Seq<char> },
    Read { file: Seq<char> },
    Exists { path: Seq<char> },
    IsEmpty { directory: Seq<char> },
}

impl View for Query {
    type V = QueryModel;

    open spec fn view(&self) -> QueryModel {
        match *self {
            Query::List { directory } => QueryModel::List { directory: directory@ },
            Query::Read { file } => QueryModel::Read { file: file@ },
            Query::Exists { path } => QueryModel::Exists { path: path@ },
            Query::IsEmpty { directory } => QueryModel::IsEmpty { directory: directory@ },
        }
    }
}

/// The answer to a query.
#[derive(Clone, Debug, PartialEq, Eq)]
pub enum Reply {
    Entries(Vec<Entry>),
    File(FileFacts),
    Exists(bool),
    Empty(bool),
}

/// A reply as a mathematical value.
pub enum ReplyModel {
    Entries(Seq<EntryModel>),
    File(FileFactsModel),
    Exists(bool),
    Empty(bool),
}

impl View for Reply {
    type V = ReplyModel;

    open spec fn view(&self) -> ReplyModel {
        match *self {
            Reply::Entries(list) => ReplyModel::Entries(list.deep_view()),
            Reply::File(facts) => ReplyModel::File(facts@),
            Reply::Exists(taken) => ReplyModel::Exists(taken),
            Reply::Empty(empty) => ReplyModel::Empty(empty),
        }
    }
}

/// What the caller is to do next: the commands, in order, and then the
/// query, if the walk is not over.
#[derive(Clone, Debug, PartialEq, Eq)]
pub struct Turn {
    pub commands: Vec<Command>,
    pub query: Option<Query>,
}

/// A turn as a mathematical value.
pub struct TurnModel {
    pub commands: Seq<CommandModel>,
    pub query: Option<QueryModel>,
}

impl View for Turn {
    type V = TurnModel;

    open spec fn view(&self) -> TurnModel {
        TurnModel {
            commands: self.commands.deep_view(),
            query: match self.query {
                Some(query) => Some(query@),
                None => None,
            },
        }
    }
}

/// Why a walk cannot go on.
#[derive(Clone, Debug, PartialEq, Eq)]
pub enum WalkError {
    /// A file has no metadata.
    Metadata { path: String, error: ExtractError },
    /// A file's name has no extension.
    MissingExtension { path: String },
    /// The reply answers another query than the one that is open.
    UnexpectedReply,
}

/// A walk error as a mathematical value.
pub enum WalkErrorModel {
    Metadata { path: Seq<char>, error: ExtractErrorModel },
    MissingExtension { path: Seq<char> },
    UnexpectedReply,
}

impl View for WalkError {
    type V = WalkErrorModel;

    open spec fn view(&self) -> WalkErrorModel {
        match *self {
            WalkError::Metadata { path, error } => WalkErrorModel::Metadata {
                path: path@,
                error: error@,
            },
            WalkError::MissingExtension { path } => WalkErrorModel::MissingExtension {
                path: path@,
            },
            WalkError::UnexpectedReply => WalkErrorModel::UnexpectedReply,
        }
    }
}

/// Whether `inner` is the directory that is being dealt with in `outer`.
pub open spec fn encloses(outer: FrameModel, inner: FrameModel) -> bool {
    &&& outer.pending.len() > 0
    &&& outer.pending[0].is_directory
    &&& outer.pending[0].path == inner.directory
}

/// A directory that the walk is inside of, with the entries that are not
/// dealt with yet. The first of them is the one being dealt with.
pub struct FrameModel {
    pub directory: Seq<char>,
    pub pending: Seq<EntryModel>,
}

/// The query that is open.
pub enum AwaitingModel {
    /// The entries of the innermost directory.
    Listing,
    /// The facts of the innermost directory's first pending entry.
    File,
    /// Whether `to`, the destination of that entry, exists.
    Probe { to: Seq<char> },
    /// Whether the innermost directory is empty.
    Emptiness,
    /// None: the walk is over.
    Nothing,
}

/// The state of a walk as a mathematical value. The directories are listed
/// from the source inward.
pub struct WalkModel {
    pub options: OptionsModel,
    pub stack: Seq<FrameModel>,
    pub awaiting: AwaitingModel,
}

/// Whether each directory but the outermost is the one that is being dealt
/// with in the directory before it.
pub open spec fn nested(stack: Seq<FrameModel>) -> bool {
    forall|i: int| 0 <= i < stack.len() - 1 ==> encloses(#[trigger] stack[i], stack[i + 1])
}

impl WalkModel {
    /// Validity: the directories are nested, and the open query is about
    /// the innermost of them.
    pub open spec fn wf(self) -> bool {
        &&& nested(self.stack)
        &&& match self.awaiting {
            AwaitingModel::Listing | AwaitingModel::Emptiness => {
                &&& self.stack.len() > 0
                &&& self.stack.last().pending.len() == 0
            },
            AwaitingModel::File | AwaitingModel::Probe { .. } => {
                &&& self.stack.len() > 0
                &&& self.stack.last().pending.len() > 0
                &&& !self.stack.last().pending[0].is_directory
            },
            AwaitingModel::Nothing => self.stack.len() == 0,
        }
    }

    /// The walk with other pending entries in its innermost directory.
    pub open spec fn with_pending(self, pending: Seq<EntryModel>) -> WalkModel
        recommends
            self.stack.len() > 0,
    {
        WalkModel {
            stack: self.stack.update(
                self.stack.len() - 1,
                FrameModel { directory: self.stack.last().directory, pending },
            ),
            ..self
        }
    }
}

/// The walk at its start: inside the source directory, asking for its
/// entries.
pub open spec fn initial(options: OptionsModel, source: Seq<char>) -> (WalkModel, TurnModel) {
    (
        WalkModel {
            options,
            stack: seq![FrameModel { directory: source, pending: Seq::empty() }],
            awaiting: AwaitingModel::Listing,
        },
        TurnModel {
            commands: Seq::empty(),
            query: Some(QueryModel::List { directory: source }),
        },
    )
}

/// The turn that follows `commands`, by what is pending in the innermost
/// directory: if nothing is, the directory is looked at for emptiness; a
/// directory is entered and listed; a file is read.
pub open spec fn next_query(walk: WalkModel, commands: Seq<CommandModel>) -> (
    WalkModel,
    TurnModel,
)
    recommends
        walk.stack.len() > 0,
{
    let top = walk.stack.last();
    if top.pending.len() == 0 {
        (
            WalkModel { awaiting: AwaitingModel::Emptiness, ..walk },
            TurnModel {
                commands,
                query: Some(QueryModel::IsEmpty { directory: top.directory }),
            },
        )
    } else if top.pending[0].is_directory {
        (
            WalkModel {
                stack: walk.stack.push(
                    FrameModel { directory: top.pending[0].path, pending: Seq::empty() },
                ),
                awaiting: AwaitingModel::Listing,
                ..walk
            },
            TurnModel {
                commands,
                query: Some(QueryModel::List { directory: top.pending[0].path }),
            },
        )
    } else {
        (
            WalkModel { awaiting: AwaitingModel::File, ..walk },
            TurnModel { commands, query: Some(QueryModel::Read { file: top.pending[0].path }) },
        )
    }
}

/// The turn once the first pending entry of the innermost directory is
/// dealt with by `commands`.
pub open spec fn after_entry(walk: WalkModel, commands: Seq<CommandModel>) -> (
    WalkModel,
    TurnModel,
)
    recommends
        walk.stack.len() > 0,
        walk.stack.last().pending.len() > 0,
{
    next_query(walk.with_pending(walk.stack.last().pending.drop_first()), commands)
}

/// The full destination of a file with these facts, or why it has none.
pub open spec fn destination_of(options: OptionsModel, path: Seq<char>, facts: FileFactsModel)
    -> Result<Seq<char>, WalkErrorModel> {
    match extraction(facts.data, facts.modified_seconds, facts.modified_nanoseconds) {
        Err(error) => Err(WalkErrorModel::Metadata { path, error }),
        Ok(meta) => match facts.extension {
            None => Err(WalkErrorModel::MissingExtension { path }),
            Some(extension) => Ok(
                options.destination_path + planned_path(meta, lowercase_of(extension)),
            ),
        },
    }
}

/// One step of the walk: the state and the turn that a reply leads to, or
/// the error that ends the walk.
pub open spec fn step(walk: WalkModel, reply: ReplyModel) -> Result<
    (WalkModel, TurnModel),
    WalkErrorModel,
> {
    match (walk.awaiting, reply) {
        (AwaitingModel::Listing, ReplyModel::Entries(list)) => Ok(
            next_query(walk.with_pending(list), Seq::empty()),
        ),
        (AwaitingModel::File, ReplyModel::File(facts)) => {
            let from = walk.stack.last().pending[0].path;
            match destination_of(walk.options, from, facts) {
                Err(error) => Err(error),
                Ok(to) => if needs_probe(walk.options, from, to) {
                    Ok(
                        (
                            WalkModel { awaiting: AwaitingModel::Probe { to }, ..walk },
                            TurnModel {
                                commands: Seq::empty(),
                                query: Some(QueryModel::Exists { path: to }),
                            },
                        ),
                    )
                } else {
                    Ok(after_entry(walk, settlement(walk.options, from, to, false)))
                },
            }
        },
        (AwaitingModel::Probe { to }, ReplyModel::Exists(taken)) => {
            let from = walk.stack.last().pending[0].path;
            Ok(after_entry(walk, settlement(walk.options, from, to, taken)))
        },
        (AwaitingModel::Emptiness, ReplyModel::Empty(empty)) => {
            let commands = pruning(walk.options, walk.stack.last().directory, empty);
            let left = WalkModel { stack: walk.stack.drop_last(), ..walk };
            if left.stack.len() == 0 {
                Ok(
                    (
                        WalkModel { awaiting: AwaitingModel::Nothing, ..left },
                        TurnModel { commands, query: None },
                    ),
                )
            } else {
                Ok(after_entry(left, commands))
            }
        },
        _ => Err(WalkErrorModel::UnexpectedReply),
    }
}

/// A step leads from a valid state to a valid state.
pub proof fn lemma_step_keeps_validity(walk: WalkModel, reply: ReplyModel)
    requires
        walk.wf(),
    ensures
        step(walk, reply) matches Ok((after, _)) ==> after.wf(),
{
    if let Ok((after, turn)) = step(walk, reply) {
        match (walk.awaiting, reply) {
            (AwaitingModel::Listing, ReplyModel::Entries(list)) => {
                lemma_next_query_keeps_validity(walk.with_pending(list), Seq::empty());
            },
            (AwaitingModel::File, ReplyModel::File(facts)) => {
                let from = walk.stack.last().pending[0].path;
                let to = destination_of(walk.options, from, facts)->Ok_0;
                if !needs_probe(walk.options, from, to) {
                    lemma_next_query_keeps_validity(
                        walk.with_pending(walk.stack.last().pending.drop_first()),
                        settlement(walk.options, from, to, false),
                    );
                }
            },
            (AwaitingModel::Probe { to }, ReplyModel::Exists(taken)) => {
                let from = walk.stack.last().pending[0].path;
                lemma_next_query_keeps_validity(
                    walk.with_pending(walk.stack.last().pending.drop_first()),
                    settlement(walk.options, from, to, taken),
                );
            },
            (AwaitingModel::Emptiness, ReplyModel::Empty(empty)) => {
                let commands = pruning(walk.options, walk.stack.last().directory, empty);
                let left = WalkModel { stack: walk.stack.drop_last(), ..walk };
                if left.stack.len() > 0 {
                    lemma_next_query_keeps_validity(
                        left.with_pending(left.stack.last().pending.drop_first()),
                        commands,
                    );
                }
            },
            _ => {},
        }
    }
}

/// The next query keeps the directories nested, whatever is pending in the
/// innermost one.
proof fn lemma_next_query_keeps_validity(walk: WalkModel, commands: Seq<CommandModel>)
    requires
        walk.stack.len() > 0,
        nested(walk.stack.drop_last()),
        walk.stack.len() > 1 ==> encloses(walk.stack[walk.stack.len() - 2], walk.stack.last()),
    ensures
        next_query(walk, commands).0.wf(),
{
    let after = next_query(walk, commands).0;
    let below = walk.stack.drop_last();
    assert forall|i: int| 0 <= i < after.stack.len() - 1 implies encloses(
        #[trigger] after.stack[i],
        after.stack[i + 1],
    ) by {
        if i < walk.stack.len() - 2 {
            assert(encloses(below[i], below[i + 1]));
        }
    }
}

/// Finds the full destination of the file at `path` from its facts: the
/// root, and below it the path planned from the file's metadata and
/// extension.
pub fn destination_for(options: &Options, path: &String, facts: &FileFacts) -> (outcome: Result<
    String,
    WalkError,
>)
    ensures
        match destination_of(options@, path@, facts@) {
            Ok(to) => outcome matches Ok(full) && full@ == to,
            Err(error) => outcome matches Err(e) && e@ == error,
        },
{
    let meta = match parse_file(
        facts.data.as_slice(),
        facts.modified_seconds,
        facts.modified_nanoseconds,
    ) {
        Ok(meta) => meta,
        Err(error) => {
            return Err(WalkError::Metadata { path: path.clone(), error });
        },
    };
    match &facts.extension {
        Some(extension) => {
            let planned = plan(&meta, extension.as_str());
            Ok(options.destination(planned.as_str()))
        },
        None => Err(WalkError::MissingExtension { path: path.clone() }),
    }
}

#[derive(Debug)]
struct Frame {
    directory: String,
    entries: Vec<Entry>,
    /// The number of entries that are dealt with.
    next: usize,
}

impl Frame {
    spec fn wf(&self) -> bool {
        self.next <= self.entries.len()
    }

    spec fn model(&self) -> FrameModel {
        FrameModel {
            directory: self.directory@,
            pending: self.entries.deep_view().subrange(
                self.next as int,
                self.entries.len() as int,
            ),
        }
    }
}

#[derive(Clone, Copy, Debug, PartialEq, Eq, Structural)]
enum Awaiting {
    Listing,
    File,
    Probe,
    Emptiness,
    Nothing,
}

/// Where a walk stands: all of its state but the settings.
#[derive(Debug)]
struct Position {
    stack: Vec<Frame>,
    awaiting: Awaiting,
    /// The destination that is asked about while `awaiting` is `Probe`.
    probed: String,
}

impl Position {
    spec fn model(&self, options: OptionsModel) -> WalkModel {
        WalkModel {
            options,
            stack: Seq::new(self.stack.len() as nat, |i: int| self.stack[i].model()),
            awaiting: match self.awaiting {
                Awaiting::Listing => AwaitingModel::Listing,
                Awaiting::File => AwaitingModel::File,
                Awaiting::Probe => AwaitingModel::Probe { to: self.probed@ },
                Awaiting::Emptiness => AwaitingModel::Emptiness,
                Awaiting::Nothing => AwaitingModel::Nothing,
            },
        }
    }

    spec fn frames_wf(&self) -> bool {
        forall|i: int| 0 <= i < self.stack.len() ==> (#[trigger] self.stack[i]).wf()
    }

    spec fn wf(&self, options: OptionsModel) -> bool {
        self.frames_wf() && self.model(options).wf()
    }

    /// The position of a walk that is over.
    fn over() -> (position: Position)
        ensures
            position.stack.len() == 0,
            position.awaiting is Nothing,
            forall|options: OptionsModel| #[trigger] position.wf(options),
    {
        Position { stack: Vec::new(), awaiting: Awaiting::Nothing, probed: String::new() }
    }

    fn next_turn(self, commands: Vec<Command>, Ghost(options): Ghost<OptionsModel>) -> (next: (
        Position,
        Turn,
    ))
        requires
            self.stack.len() > 0,
            self.frames_wf(),
        ensures
            next.0.frames_wf(),
            (next.0.model(options), next.1@) == next_query(
                self.model(options),
                commands.deep_view(),
            ),
    {
        let mut position = self;
        let depth = position.stack.len();
        let next = position.stack[depth - 1].next;
        if next == position.stack[depth - 1].entries.len() {
            let directory = position.stack[depth - 1].directory.clone();
            position.awaiting = Awaiting::Emptiness;
            (position, Turn { commands, query: Some(Query::IsEmpty { directory }) })
        } else {
            let path = position.stack[depth - 1].entries[next].path.clone();
            let is_directory = position.stack[depth - 1].entries[next].is_directory;
            if is_directory {
                position.stack.push(
                    Frame { directory: path.clone(), entries: Vec::new(), next: 0 },
                );
                position.awaiting = Awaiting::Listing;
                proof {
                    assert(position.stack[depth as int].model().pending =~= Seq::empty());
                    assert(position.model(options).stack =~= next_query(
                        self.model(options),
                        commands.deep_view(),
                    ).0.stack);
                }
                (position, Turn { commands, query: Some(Query::List { directory: path }) })
            } else {
                position.awaiting = Awaiting::File;
                (position, Turn { commands, query: Some(Query::Read { file: path }) })
            }
        }
    }

    fn finish_entry(self, commands: Vec<Command>, Ghost(options): Ghost<OptionsModel>) -> (next: (
        Position,
        Turn,
    ))
        requires
            self.stack.len() > 0,
            self.frames_wf(),
            self.model(options).stack.last().pending.len() > 0,
        ensures
            next.0.frames_wf(),
            (next.0.model(options), next.1@) == after_entry(
                self.model(options),
                commands.deep_view(),
            ),
    {
        let mut position = self;
        let mut top = position.stack.pop().unwrap();
        let ghost pending = top.model().pending;
        top.next = top.next + 1;
        proof {
            assert(top.model().pending =~= pending.drop_first());
        }
        position.stack.push(top);
        proof {
            assert(position.model(options).stack =~= self.model(options).with_pending(
                pending.drop_first(),
            ).stack);
        }
        position.next_turn(commands, Ghost(options))
    }

    /// Advances by one reply. On an error the position is handed back as it
    /// was.
    fn advance(self, options: &Options, reply: Reply) -> (next: (
        Position,
        Result<Turn, WalkError>,
    ))
        requires
            self.wf(options@),
        ensures
            next.0.wf(options@),
            match step(self.model(options@), reply@) {
                Ok((after, turn)) => next.1 matches Ok(t) && t@ == turn && next.0.model(options@)
                    == after,
                Err(error) => next.1 matches Err(e) && e@ == error && next.0 == self,
            },
    {
        proof {
            lemma_step_keeps_validity(self.model(options@), reply@);
        }
        let ghost before = self.model(options@);
        let mut position = self;
        match reply {
            Reply::Entries(list) => match position.awaiting {
                Awaiting::Listing => {
                    let mut top = position.stack.pop().unwrap();
                    top.entries = list;
                    top.next = 0;
                    proof {
                        assert(top.model().pending =~= list.deep_view());
                    }
                    position.stack.push(top);
                    proof {
                        assert(position.model(options@).stack =~= before.with_pending(
                            list.deep_view(),
                        ).stack);
                    }
                    let commands: Vec<Command> = Vec::new();
                    proof {
                        assert(commands.deep_view() =~= Seq::empty());
                    }
                    let (position, turn) = position.next_turn(commands, Ghost(options@));
                    (position, Ok(turn))
                },
                _ => (position, Err(WalkError::UnexpectedReply)),
            },
            Reply::File(facts) => match position.awaiting {
                Awaiting::File => {
                    let depth = position.stack.len();
                    let next = position.stack[depth - 1].next;
                    let from = position.stack[depth - 1].entries[next].path.clone();
                    match destination_for(options, &from, &facts) {
                        Err(error) => (position, Err(error)),
                        Ok(to) => {
                            if probe_needed(options, &from, &to) {
                                position.awaiting = Awaiting::Probe;
                                position.probed = to.clone();
                                let commands: Vec<Command> = Vec::new();
                                proof {
                                    assert(commands.deep_view() =~= Seq::empty());
                                }
                                (
                                    position,
                                    Ok(Turn { commands, query: Some(Query::Exists { path: to }) }),
                                )
                            } else {
                                let commands = settle(options, &from, &to, false);
                                let (position, turn) = position.finish_entry(
                                    commands,
                                    Ghost(options@),
                                );
                                (position, Ok(turn))
                            }
                        },
                    }
                },
                _ => (position, Err(WalkError::UnexpectedReply)),
            },
            Reply::Exists(taken) => match position.awaiting {
                Awaiting::Probe => {
                    let depth = position.stack.len();
                    let next = position.stack[depth - 1].next;
                    let commands = settle(
                        options,
                        &position.stack[depth - 1].entries[next].path,
                        &position.probed,
                        taken,
                    );
                    let (position, turn) = position.finish_entry(commands, Ghost(options@));
                    (position, Ok(turn))
                },
                _ => (position, Err(WalkError::UnexpectedReply)),
            },
            Reply::Empty(empty) => match position.awaiting {
                Awaiting::Emptiness => {
                    let top = position.stack.pop().unwrap();
                    let commands = prune(options, &top.directory, empty);
                    proof {
                        assert(position.model(options@).stack =~= before.stack.drop_last());
                    }
                    if position.stack.len() == 0 {
                        position.awaiting = Awaiting::Nothing;
                        (position, Ok(Turn { commands, query: None }))
                    } else {
                        let (position, turn) = position.finish_entry(commands, Ghost(options@));
                        (position, Ok(turn))
                    }
                },
                _ => (position, Err(WalkError::UnexpectedReply)),
            },
        }
    }
}

/// A walk over a directory tree. Every walk is in a valid state.
#[derive(Debug)]
pub struct Walk {
    options: Options,
    position: Position,
}

impl View for Walk {
    type V = WalkModel;

    closed spec fn view(&self) -> WalkModel {
        self.position.model(self.options@)
    }
}

impl Walk {
    #[verifier::type_invariant]
    spec fn valid(self) -> bool {
        self.position.wf(self.options@)
    }

    /// Starts a walk over the tree below `source`. The first turn asks for
    /// the entries of `source`.
    pub fn begin(options: Options, source: String) -> (start: (Walk, Turn))
        ensures
            (start.0@, start.1@) == initial(options@, source@),
            start.0@.wf(),
    {
        let mut stack: Vec<Frame> = Vec::new();
        stack.push(Frame { directory: source.clone(), entries: Vec::new(), next: 0 });
        let position = Position { stack, awaiting: Awaiting::Listing, probed: String::new() };
        let turn = Turn { commands: Vec::new(), query: Some(Query::List { directory: source }) };
        proof {
            assert(position.stack[0].model().pending =~= Seq::empty());
            assert(position.model(options@).stack =~= initial(options@, source@).0.stack);
            assert(turn@.commands =~= Seq::empty());
        }
        (Walk { options, position }, turn)
    }

    /// Whether the walk is over.
    pub fn is_over(&self) -> (over: bool)
        ensures
            over == (self@.awaiting is Nothing),
    {
        match self.position.awaiting {
            Awaiting::Nothing => true,
            _ => false,
        }
    }

    /// Advances the walk by the answer to its open query.
    ///
    /// The outcome is the next turn, and the walk is in the state that
    /// `step` gives. On an error the walk is as it was.
    pub fn advance(&mut self, reply: Reply) -> (outcome: Result<Turn, WalkError>)
        ensures
            old(self)@.wf(),
            final(self)@.wf(),
            match step(old(self)@, reply@) {
                Ok((after, turn)) => outcome matches Ok(t) && t@ == turn && final(self)@ == after,
                Err(error) => outcome matches Err(e) && e@ == error && final(self)@ == old(
                    self,
                )@,
            },
    {
        proof {
            use_type_invariant(&*self);
        }
        let mut position = Position::over();
        std::mem::swap(&mut position, &mut self.position);
        let (position, outcome) = position.advance(&self.options, reply);
        self.position = position;
        outcome
    }
}

/// The state of the dry run that goes with a run.
pub open spec fn dry_walk(walk: WalkModel) -> WalkModel {
    WalkModel { options: dry(walk.options), ..walk }
}

/// Where a file goes is decided by what it holds, when it was modified and
/// its extension: what it is called does not matter.
pub proof fn lemma_destination_ignores_name(
    options: OptionsModel,
    first: Seq<char>,
    second: Seq<char>,
    facts: FileFactsModel,
)
    ensures
        destination_of(options, first, facts) matches Ok(to) ==> destination_of(
            options,
            second,
            facts,
        ) == Ok::<Seq<char>, WalkErrorModel>(to),
{
}

/// A file in which no container can be read goes where its modification
/// time says, under a name that ends in the seconds, a dot and the
/// extension in lower case.
pub proof fn lemma_destination_without_container(
    options: OptionsModel,
    path: Seq<char>,
    facts: FileFactsModel,
)
    ensures
        container_fields(facts.data) is None ==> destination_of(options, path, facts) == match (
            unix_time(facts.modified_seconds, facts.modified_nanoseconds),
            facts.extension,
        ) {
            (None, _) => Err::<Seq<char>, WalkErrorModel>(
                WalkErrorModel::Metadata {
                    path,
                    error: ExtractErrorModel::ModifiedTimeOutOfReach,
                },
            ),
            (Some(_), None) => Err(WalkErrorModel::MissingExtension { path }),
            (Some(at), Some(extension)) => Ok(
                options.destination_path + (stamp_text(at) + lowercase_of(extension)),
            ),
        },
{
    lemma_fallback_without_container(
        facts.data,
        facts.modified_seconds,
        facts.modified_nanoseconds,
    );
}

/// A file that sits at its destination is passed over: the walk goes on to
/// the next entry, with no command and without asking whether anything
/// exists.
pub proof fn lemma_placed_file_is_passed_over(walk: WalkModel, facts: FileFactsModel)
    requires
        walk.awaiting is File,
    ensures
        ({
            let from = walk.stack.last().pending[0].path;
            destination_of(walk.options, from, facts) == Ok::<Seq<char>, WalkErrorModel>(from)
                ==> step(walk, ReplyModel::File(facts)) == Ok::<
                (WalkModel, TurnModel),
                WalkErrorModel,
            >(after_entry(walk, Seq::empty()))
        }),
{
}

/// A file that was brought to its destination is passed over when the
/// walk meets it there: with the bytes and the modification time that it
/// had, and an extension of the same lower-case form, its destination is
/// where it is.
pub proof fn lemma_relocated_file_is_passed_over(
    walk: WalkModel,
    before: Seq<char>,
    facts: FileFactsModel,
    met: FileFactsModel,
)
    requires
        walk.awaiting is File,
        met.data == facts.data,
        met.modified_seconds == facts.modified_seconds,
        met.modified_nanoseconds == facts.modified_nanoseconds,
        facts.extension is Some,
        met.extension is Some,
    ensures
        ({
            let here = walk.stack.last().pending[0].path;
            destination_of(walk.options, before, facts) == Ok::<Seq<char>, WalkErrorModel>(here)
                && lowercase_of(met.extension->0) == lowercase_of(facts.extension->0) ==> step(
                walk,
                ReplyModel::File(met),
            ) == Ok::<(WalkModel, TurnModel), WalkErrorModel>(after_entry(walk, Seq::empty()))
        }),
{
}

/// A file is copied only onto a destination of which the filesystem has
/// just said that nothing is there.
pub proof fn lemma_copy_follows_absence(
    walk: WalkModel,
    reply: ReplyModel,
    from: Seq<char>,
    to: Seq<char>,
)
    ensures
        step(walk, reply) matches Ok((_, turn)) && turn.commands.contains(
            CommandModel::CopyContents { from, to },
        ) ==> {
            &&& walk.options.action is Copy
            &&& walk.awaiting == AwaitingModel::Probe { to }
            &&& reply == ReplyModel::Exists(false)
            &&& walk.stack.last().pending[0].path == from
        },
{
}

/// A move never asks whether a destination exists: a file that is not in
/// its place is renamed as soon as its facts are known.
pub proof fn lemma_move_never_asks(walk: WalkModel, reply: ReplyModel)
    requires
        walk.options.action is Move,
    ensures
        step(walk, reply) matches Ok((_, turn)) ==> !(turn.query matches Some(
            QueryModel::Exists { .. },
        )),
        walk.awaiting is File ==> (reply matches ReplyModel::File(facts) ==> {
            let from = walk.stack.last().pending[0].path;
            destination_of(walk.options, from, facts) matches Ok(to) ==> step(walk, reply)
                == Ok::<(WalkModel, TurnModel), WalkErrorModel>(
                after_entry(walk, settlement(walk.options, from, to, true)),
            )
        }),
{
}

/// A directory is removed only in answer to its being empty, and only the
/// innermost one: by then each of its entries has been dealt with.
pub proof fn lemma_removal_follows_emptiness(walk: WalkModel, reply: ReplyModel, path: Seq<char>)
    requires
        walk.wf(),
    ensures
        step(walk, reply) matches Ok((_, turn)) && turn.commands.contains(
            CommandModel::RemoveDirectory { path },
        ) ==> {
            &&& walk.awaiting is Emptiness
            &&& reply == ReplyModel::Empty(true)
            &&& walk.stack.last().directory == path
            &&& walk.stack.last().pending.len() == 0
        },
{
}

/// A dry run walks as the run itself does, given the same answers: each
/// step asks the same query and ends in the same state or the same error,
/// and its commands are the reports among those of the run.
pub proof fn lemma_dry_run_walks_alike(walk: WalkModel, reply: ReplyModel)
    ensures
        match step(walk, reply) {
            Ok((after, turn)) => step(dry_walk(walk), reply) == Ok::<
                (WalkModel, TurnModel),
                WalkErrorModel,
            >((dry_walk(after), TurnModel { commands: reports(turn.commands), query: turn.query })),
            Err(error) => step(dry_walk(walk), reply) == Err::<
                (WalkModel, TurnModel),
                WalkErrorModel,
            >(error),
        },
{
    reveal_with_fuel(Seq::filter, 1);
    match (walk.awaiting, reply) {
        (AwaitingModel::File, ReplyModel::File(facts)) => {
            let from = walk.stack.last().pending[0].path;
            if let Ok(to) = destination_of(walk.options, from, facts) {
                lemma_dry_run_settles_alike(walk.options, from, to, false);
            }
        },
        (AwaitingModel::Probe { to }, ReplyModel::Exists(taken)) => {
            let from = walk.stack.last().pending[0].path;
            lemma_dry_run_settles_alike(walk.options, from, to, taken);
        },
        (AwaitingModel::Emptiness, ReplyModel::Empty(empty)) => {
            lemma_dry_run_prunes_alike(walk.options, walk.stack.last().directory, empty);
        },
        _ => {},
    }
}

/// A dry run changes nothing: none of its commands touches the filesystem.
pub proof fn lemma_dry_run_changes_nothing(walk: WalkModel, reply: ReplyModel)
    requires
        !walk.options.do_action,
    ensures
        step(walk, reply) matches Ok((_, turn)) ==> forall|i: int|
            0 <= i < turn.commands.len() ==> !(#[trigger] turn.commands[i]).is_mutation(),
{
}

/// The commands that a walk hands out while it is advanced by these replies
/// in turn. An error ends the walk.
pub open spec fn commands_along(walk: WalkModel, replies: Seq<ReplyModel>) -> Seq<CommandModel>
    decreases replies.len(),
{
    if replies.len() == 0 {
        Seq::empty()
    } else {
        match step(walk, replies[0]) {
            Ok((after, turn)) => turn.commands + commands_along(after, replies.drop_first()),
            Err(_) => Seq::empty(),
        }
    }
}

/// Whatever it is answered, a dry run never changes the filesystem.
pub proof fn lemma_dry_run_never_changes_anything(walk: WalkModel, replies: Seq<ReplyModel>)
    requires
        !walk.options.do_action,
    ensures
        forall|i: int|
            0 <= i < commands_along(walk, replies).len() ==> !(#[trigger] commands_along(
                walk,
                replies,
            )[i]).is_mutation(),
    decreases replies.len(),
{
    if replies.len() > 0 {
        if let Ok((after, turn)) = step(walk, replies[0]) {
            lemma_dry_run_changes_nothing(walk, replies[0]);
            lemma_dry_run_never_changes_anything(after, replies.drop_first());
            let rest = commands_along(after, replies.drop_first());
            assert forall|i: int| 0 <= i < (turn.commands + rest).len() implies !(
            #[trigger] (turn.commands + rest)[i]).is_mutation() by {
                if i >= turn.commands.len() {
                }
            }
        }
    }
}

/// Given the same answers, a dry run reports all that the run itself
/// reports, in the same order, and hands out nothing else.
pub proof fn lemma_dry_run_reports_alike(walk: WalkModel, replies: Seq<ReplyModel>)
    ensures
        commands_along(dry_walk(walk), replies) == reports(commands_along(walk, replies)),
    decreases replies.len(),
{
    reveal_with_fuel(Seq::filter, 1);
    if replies.len() > 0 {
        lemma_dry_run_walks_alike(walk, replies[0]);
        if let Ok((after, turn)) = step(walk, replies[0]) {
            let rest = commands_along(after, replies.drop_first());
            lemma_dry_run_reports_alike(after, replies.drop_first());
            Seq::filter_distributes_over_add(
                turn.commands,
                rest,
                |command: CommandModel| !command.is_mutation(),
            );
        }
    }
}

} // verus!
