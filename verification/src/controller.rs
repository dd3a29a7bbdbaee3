//! The editor session controller: a pure reducer over the session state.
//!
//! The state holds the document, the path of the file backing it (if any),
//! the directory used to seed file dialogs, and a first-in-first-out queue of
//! transient status messages.  Each event yields the next state and one
//! command naming the asynchronous work the host must perform: read a file,
//! write a file, show an open or save dialog, or expire the newest status
//! message after a delay.  The spec function [`step`] is the controller's
//! whole transition relation; [`State::update`] is proved to implement it.

use std::collections::VecDeque;
use vstd::prelude::*;
use vstd::string::*;

use crate::document::{apply_edit, DocModel, Document, EditAction};
use crate::paths::{file_name_of, file_name_opt, parent_dir, parent_of};

verus! {

broadcast use vstd::std_specs::vecdeque::group_vec_dequeue_axioms;

/// A path as the file system reported it when the event carrying it was
/// formed: the path text, and whether it names a directory.
#[derive(Debug)]
pub struct PathInfo {
    pub path: String,
    pub is_dir: bool,
}

#[verifier::ext_equal]
pub struct PathInfoModel {
    pub path: Seq<char>,
    pub is_dir: bool,
}

impl View for PathInfo {
    type V = PathInfoModel;

    open spec fn view(&self) -> PathInfoModel {
        PathInfoModel { path: self.path@, is_dir: self.is_dir }
    }
}

/// The events the controller reacts to.
#[derive(Debug)]
pub enum Event {
    /// The user edited the document.
    Edit(EditAction),
    /// The user asked to open a file: show the open dialog.
    RequestOpen,
    /// The open dialog closed, with a chosen path or cancelled.
    FileChosen(Option<String>),
    /// A file read finished: the text read, or the error shown to the user.
    FileLoaded(Result<String, String>, PathInfo),
    /// The user asked for a fresh, unsaved document.
    New,
    /// The user asked to save to the backing file (or to pick one).
    RequestSave,
    /// The user asked to save under a new path.
    RequestSaveAs,
    /// A save finished: the path written, a write error, or `None` when the
    /// save dialog was cancelled.
    SaveCompleted(Option<Result<PathInfo, String>>),
    /// The front status message expired or was dismissed.
    DismissError,
}

/// The asynchronous work the host performs after an event, delivering the
/// completion back as another event.
#[derive(Debug)]
pub enum Command {
    /// No outstanding work.
    Nothing,
    /// Show the open dialog, seeded with a directory and a file name;
    /// deliver `FileChosen`.
    PickFile { directory: String, file_name: Option<String> },
    /// Read the file at the path; deliver `FileLoaded`.
    ReadFile { path: String },
    /// Write the text to the path; deliver `SaveCompleted`.
    WriteFile { path: String, text: String },
    /// Show the save dialog, then write the text to the chosen path;
    /// deliver `SaveCompleted` (`None` on cancellation).
    SaveDialog { directory: String, file_name: Option<String>, text: String },
    /// Start the expiry timer for the message just queued; deliver
    /// `DismissError` when it fires, [`ERROR_EXPIRY_SECONDS`] later.
    ExpireErrorLater,
}

#[verifier::ext_equal]
pub enum CommandModel {
    Nothing,
    PickFile { directory: Seq<char>, file_name: Option<Seq<char>> },
    ReadFile { path: Seq<char> },
    WriteFile { path: Seq<char>, text: Seq<char> },
    SaveDialog { directory: Seq<char>, file_name: Option<Seq<char>>, text: Seq<char> },
    ExpireErrorLater,
}

pub open spec fn opt_text(o: Option<String>) -> Option<Seq<char>> {
    match o {
        Option::Some(s) => Option::Some(s@),
        Option::None => Option::None,
    }
}

impl View for Command {
    type V = CommandModel;

    open spec fn view(&self) -> CommandModel {
        match self {
            Command::Nothing => CommandModel::Nothing,
            Command::PickFile { directory, file_name } => CommandModel::PickFile {
                directory: directory@,
                file_name: opt_text(*file_name),
            },
            Command::ReadFile { path } => CommandModel::ReadFile { path: path@ },
            Command::WriteFile { path, text } => CommandModel::WriteFile {
                path: path@,
                text: text@,
            },
            Command::SaveDialog { directory, file_name, text } => CommandModel::SaveDialog {
                directory: directory@,
                file_name: opt_text(*file_name),
                text: text@,
            },
            Command::ExpireErrorLater => CommandModel::ExpireErrorLater,
        }
    }
}

/// The session state: document, backing file path, dialog directory, and the
/// queue of transient status messages (only the front is ever shown).
#[derive(Debug)]
pub struct State {
    pub document: Document,
    pub file_path: Option<String>,
    pub search_root: String,
    pub errors: VecDeque<String>,
}

#[verifier::ext_equal]
pub struct StateModel {
    pub doc: DocModel,
    pub file_path: Option<Seq<char>>,
    pub search_root: Seq<char>,
    pub errors: Seq<Seq<char>>,
}

impl View for State {
    type V = StateModel;

    open spec fn view(&self) -> StateModel {
        StateModel {
            doc: self.document@,
            file_path: opt_text(self.file_path),
            search_root: self.search_root@,
            errors: self.errors@.map_values(|m: String| m@),
        }
    }
}

impl StateModel {
    /// A fresh session: empty document, no backing file, empty dialog
    /// directory, no messages.
    pub open spec fn init() -> StateModel {
        StateModel {
            doc: DocModel::empty(),
            file_path: Option::None,
            search_root: Seq::empty(),
            errors: Seq::empty(),
        }
    }
}

/// How long a queued status message stays before its expiry timer fires.
pub const ERROR_EXPIRY_SECONDS: u64 = 4;

/// The message queued when a file read fails.
pub open spec fn open_error_message(err: Seq<char>) -> Seq<char> {
    "Could not open file: "@ + err
}

/// The message queued when a file write fails.
pub open spec fn save_error_message(err: Seq<char>) -> Seq<char> {
    "Could not save file: "@ + err
}

/// The message queued when a save finishes.
pub open spec fn saved_message(path: Seq<char>) -> Seq<char> {
    path + " saved!"@
}

/// The message queued when the save dialog is cancelled.
pub open spec fn save_aborted_message() -> Seq<char> {
    "File save aborted. File not saved."@
}

/// The dialog directory adopted after a path is opened or saved: the path
/// itself when it names a directory, else its parent directory.
pub open spec fn root_after(p: PathInfoModel) -> Seq<char> {
    if p.is_dir {
        p.path
    } else {
        parent_of(p.path)
    }
}

/// Adopt a path as the document's backing file, and its directory as the
/// dialog directory.
pub open spec fn with_path(s: StateModel, p: PathInfoModel) -> StateModel {
    StateModel { file_path: Option::Some(p.path), search_root: root_after(p), ..s }
}

/// Queue a status message at the back.
pub open spec fn push_error(s: StateModel, msg: Seq<char>) -> StateModel {
    StateModel { errors: s.errors.push(msg), ..s }
}

/// The file name offered by dialogs: the name at the end of the current
/// backing path, if there is one.
pub open spec fn current_file_name(s: StateModel) -> Option<Seq<char>> {
    match s.file_path {
        Option::Some(p) => file_name_of(p),
        Option::None => Option::None,
    }
}

/// What Save-As does: state unchanged, save dialog requested with the
/// current document text; any write happens only after the dialog.
pub open spec fn save_as_step(pre: StateModel) -> (StateModel, CommandModel) {
    (
        pre,
        CommandModel::SaveDialog {
            directory: pre.search_root,
            file_name: current_file_name(pre),
            text: pre.doc.text,
        },
    )
}

/// The controller's transition function: the state after an event, and the
/// command the host must perform for it.
pub open spec fn step(pre: StateModel, e: Event) -> (StateModel, CommandModel) {
    match e {
        Event::Edit(a) => (StateModel { doc: apply_edit(pre.doc, a), ..pre }, CommandModel::Nothing),
        Event::RequestOpen => (
            pre,
            CommandModel::PickFile {
                directory: pre.search_root,
                file_name: current_file_name(pre),
            },
        ),
        Event::FileChosen(chosen) => match chosen {
            Option::Some(p) => (pre, CommandModel::ReadFile { path: p@ }),
            Option::None => (pre, CommandModel::Nothing),
        },
        Event::FileLoaded(r, info) => match r {
            Result::Ok(text) => (
                StateModel { doc: DocModel::loaded(text@), ..with_path(pre, info@) },
                CommandModel::Nothing,
            ),
            Result::Err(err) => (
                push_error(pre, open_error_message(err@)),
                CommandModel::ExpireErrorLater,
            ),
        },
        Event::New => (
            StateModel { doc: DocModel::empty(), file_path: Option::None, ..pre },
            CommandModel::Nothing,
        ),
        Event::RequestSave => match pre.file_path {
            Option::Some(p) => (pre, CommandModel::WriteFile { path: p, text: pre.doc.text }),
            Option::None => save_as_step(pre),
        },
        Event::RequestSaveAs => save_as_step(pre),
        Event::SaveCompleted(outcome) => match outcome {
            Option::None => (
                push_error(pre, save_aborted_message()),
                CommandModel::ExpireErrorLater,
            ),
            Option::Some(Result::Ok(info)) => (
                push_error(with_path(pre, info@), saved_message(info@.path)),
                CommandModel::ExpireErrorLater,
            ),
            Option::Some(Result::Err(err)) => (
                push_error(pre, save_error_message(err@)),
                CommandModel::ExpireErrorLater,
            ),
        },
        Event::DismissError => (
            if pre.errors.len() > 0 {
                StateModel { errors: pre.errors.drop_first(), ..pre }
            } else {
                pre
            },
            CommandModel::Nothing,
        ),
    }
}

impl State {
    pub open spec fn wf(&self) -> bool {
        self.document.wf()
    }

    /// A fresh session, with nothing to do yet.
    pub fn new() -> (r: (State, Command))
        ensures
            r.0.wf(),
            r.0@ == StateModel::init(),
            r.1@ == CommandModel::Nothing,
    {
        let s = State {
            document: Document::new(),
            file_path: Option::None,
            search_root: String::new(),
            errors: VecDeque::new(),
        };
        proof {
            assert(s@ =~~= StateModel::init());
        }
        (s, Command::Nothing)
    }

    /// Adopt (or drop) a backing path; adopting one also moves the dialog
    /// directory to it.  Dropping the path leaves the dialog directory as it
    /// was.
    pub fn set_file_path(&mut self, path: Option<PathInfo>)
        ensures
            final(self)@ == match path {
                Option::Some(info) => with_path(old(self)@, info@),
                Option::None => StateModel { file_path: Option::None, ..old(self)@ },
            },
            final(self).document == old(self).document,
    {
        let ghost pre = self@;
        match path {
            Option::Some(info) => {
                if info.is_dir {
                    self.search_root = info.path.clone();
                } else {
                    self.search_root = parent_dir(&info.path);
                }
                self.file_path = Option::Some(info.path);
                proof {
                    assert(self@ =~~= with_path(pre, info@));
                }
            },
            Option::None => {
                self.file_path = Option::None;
                proof {
                    assert(self@ =~~= StateModel { file_path: Option::None, ..pre });
                }
            },
        }
    }

    /// Queue a status message and ask the host to expire it after a delay.
    pub fn add_error(&mut self, message: String) -> (c: Command)
        ensures
            final(self)@ == push_error(old(self)@, message@),
            final(self).document == old(self).document,
            c@ == CommandModel::ExpireErrorLater,
    {
        let ghost pre = self@;
        let ghost m = message@;
        self.errors.push_back(message);
        proof {
            assert(self@.errors =~~= pre.errors.push(m));
            assert(self@ =~~= push_error(pre, m));
        }
        Command::ExpireErrorLater
    }

    /// The save dialog request that Save-As makes (and Save falls back to).
    fn save_as_command(&self) -> (c: Command)
        ensures
            c@ == save_as_step(self@).1,
    {
        let name = file_name_opt(self.file_path.as_ref());
        let c = Command::SaveDialog {
            directory: self.search_root.clone(),
            file_name: name,
            text: self.document.text_string(),
        };
        proof {
            assert(c@ =~~= save_as_step(self@).1);
        }
        c
    }

    /// React to one event: move to the next state and return the command
    /// describing the asynchronous work the host must perform for it.
    pub fn update(&mut self, e: Event) -> (c: Command)
        requires
            old(self).wf(),
        ensures
            final(self).wf(),
            final(self)@ == step(old(self)@, e).0,
            c@ == step(old(self)@, e).1,
    {
        let ghost pre = self@;
        let ghost ge = e;
        match e {
            Event::Edit(a) => {
                self.document.apply(&a);
                proof {
                    assert(self@ =~~= step(pre, ge).0);
                }
                Command::Nothing
            },
            Event::RequestOpen => {
                let name = file_name_opt(self.file_path.as_ref());
                let c = Command::PickFile {
                    directory: self.search_root.clone(),
                    file_name: name,
                };
                proof {
                    assert(c@ =~~= step(pre, ge).1);
                }
                c
            },
            Event::FileChosen(chosen) => match chosen {
                Option::Some(p) => Command::ReadFile { path: p },
                Option::None => Command::Nothing,
            },
            Event::FileLoaded(r, info) => match r {
                Result::Ok(text) => {
                    self.document = Document::with_text(text);
                    self.set_file_path(Option::Some(info));
                    proof {
                        assert(self@ =~~= step(pre, ge).0);
                    }
                    Command::Nothing
                },
                Result::Err(err) => {
                    let mut msg = ("Could not open file: ").to_owned();
                    msg.append(err.as_str());
                    let c = self.add_error(msg);
                    proof {
                        assert(self@ =~~= step(pre, ge).0);
                    }
                    c
                },
            },
            Event::New => {
                self.document = Document::new();
                self.set_file_path(Option::None);
                proof {
                    assert(self@ =~~= step(pre, ge).0);
                }
                Command::Nothing
            },
            Event::RequestSave => match &self.file_path {
                Option::Some(p) => {
                    let c = Command::WriteFile {
                        path: p.clone(),
                        text: self.document.text_string(),
                    };
                    proof {
                        assert(c@ =~~= step(pre, ge).1);
                    }
                    c
                },
                Option::None => self.save_as_command(),
            },
            Event::RequestSaveAs => self.save_as_command(),
            Event::SaveCompleted(outcome) => match outcome {
                Option::None => {
                    let msg = ("File save aborted. File not saved.").to_owned();
                    let c = self.add_error(msg);
                    proof {
                        assert(self@ =~~= step(pre, ge).0);
                    }
                    c
                },
                Option::Some(r) => match r {
                    Result::Ok(info) => {
                        let msg = info.path.clone().concat(" saved!");
                        self.set_file_path(Option::Some(info));
                        let c = self.add_error(msg);
                        proof {
                            assert(self@ =~~= step(pre, ge).0);
                        }
                        c
                    },
                    Result::Err(err) => {
                        let mut msg = ("Could not save file: ").to_owned();
                        msg.append(err.as_str());
                        let c = self.add_error(msg);
                        proof {
                            assert(self@ =~~= step(pre, ge).0);
                        }
                        c
                    },
                },
            },
            Event::DismissError => {
                self.errors.pop_front();
                proof {
                    assert(self@ =~~= step(pre, ge).0);
                }
                Command::Nothing
            },
        }
    }

    /// What the status bar shows: the front status message when one is
    /// queued, else the backing path, else a standing notice.
    pub fn status_line(&self) -> (r: String)
        ensures
            r@ == spec_status_line(self@),
    {
        if self.errors.len() > 0 {
            self.errors[0].clone()
        } else {
            match &self.file_path {
                Option::Some(p) => p.clone(),
                Option::None => ("No file yet, please save or open file :)").to_owned(),
            }
        }
    }

    /// The editor's placeholder text: a welcome before any file is
    /// associated, a plain prompt afterwards.
    pub fn placeholder(&self) -> (r: &'static str)
        ensures
            self@.file_path is Some ==> r@ == "Type here ..."@,
            self@.file_path is None ==> r@ == "Welcome! Open a file or start typing here ..."@,
    {
        match &self.file_path {
            Option::Some(_) => "Type here ...",
            Option::None => "Welcome! Open a file or start typing here ...",
        }
    }
}

/// What the status bar shows, over the state model.
pub open spec fn spec_status_line(s: StateModel) -> Seq<char> {
    if s.errors.len() > 0 {
        s.errors[0]
    } else {
        match s.file_path {
            Option::Some(p) => p,
            Option::None => "No file yet, please save or open file :)"@,
        }
    }
}

/// Saving with a backing path writes exactly the document's current text to
/// that path, opens no dialog, and leaves the state unchanged.
pub proof fn lemma_save_with_path(s: StateModel, p: Seq<char>)
    requires
        s.file_path == Option::Some(p),
    ensures
        step(s, Event::RequestSave).0 == s,
        step(s, Event::RequestSave).1 == (CommandModel::WriteFile { path: p, text: s.doc.text }),
{
}

/// Saving without a backing path is exactly Save-As: the state is unchanged
/// and a save dialog is requested before any write occurs.
pub proof fn lemma_save_without_path_is_save_as(s: StateModel)
    requires
        s.file_path is None,
    ensures
        step(s, Event::RequestSave) == step(s, Event::RequestSaveAs),
        step(s, Event::RequestSave).1 is SaveDialog,
{
}

/// After a successful load, the loaded path backs the document, the dialog
/// directory is its directory, and the document holds the loaded text.
pub proof fn lemma_load_sets_path(s: StateModel, text: String, info: PathInfo)
    ensures
        ({
            let s2 = step(s, Event::FileLoaded(Result::Ok(text), info)).0;
            &&& s2.file_path == Option::Some(info@.path)
            &&& s2.search_root == root_after(info@)
            &&& s2.doc == DocModel::loaded(text@)
            &&& s2.errors == s.errors
        }),
{
}

/// After a successful save, the written path backs the document and the
/// dialog directory is its directory; one message reports the save.
pub proof fn lemma_save_sets_path(s: StateModel, info: PathInfo)
    ensures
        ({
            let s2 = step(s, Event::SaveCompleted(Option::Some(Result::Ok(info)))).0;
            &&& s2.file_path == Option::Some(info@.path)
            &&& s2.search_root == root_after(info@)
            &&& s2.doc == s.doc
            &&& s2.errors == s.errors.push(saved_message(info@.path))
        }),
{
}

/// The state after a whole sequence of events, applied in order.
pub open spec fn run(s: StateModel, es: Seq<Event>) -> StateModel
    decreases es.len(),
{
    if es.len() == 0 {
        s
    } else {
        run(step(s, es[0]).0, es.drop_first())
    }
}

/// How many events of the sequence queue a status message.
pub open spec fn messages_pushed(s: StateModel, es: Seq<Event>) -> int
    decreases es.len(),
{
    if es.len() == 0 {
        0
    } else {
        (if step(s, es[0]).0.errors.len() > s.errors.len() {
            1int
        } else {
            0int
        }) + messages_pushed(step(s, es[0]).0, es.drop_first())
    }
}

/// Over any run, the status message queue never exceeds what it started
/// with plus the messages actually pushed during the run.
pub proof fn lemma_queue_bounded_by_pushes(s: StateModel, es: Seq<Event>)
    ensures
        run(s, es).errors.len() <= s.errors.len() + messages_pushed(s, es),
    decreases es.len(),
{
    if es.len() > 0 {
        lemma_error_queue_discipline(s, es[0]);
        lemma_queue_bounded_by_pushes(step(s, es[0]).0, es.drop_first());
    }
}

/// The status message queue only ever grows by one message at the back, and
/// shrinks only by the front entry on dismissal: dismissing removes exactly
/// the front when the queue is non-empty and is a no-op when it is empty.
pub proof fn lemma_error_queue_discipline(s: StateModel, e: Event)
    ensures
        ({
            let q = s.errors;
            let q2 = step(s, e).0.errors;
            &&& (e is DismissError && q.len() > 0 ==> q2 == q.drop_first())
            &&& (e is DismissError && q.len() == 0 ==> q2 == q)
            &&& (!(e is DismissError) ==> q2 == q || (q2.len() == q.len() + 1 && q2 == q.push(
                q2.last(),
            )))
        }),
{
    let q = s.errors;
    let q2 = step(s, e).0.errors;
    if !(e is DismissError) && q2 != q {
        assert(q2.len() == q.len() + 1 && q2 == q.push(q2.last())) by {
            match e {
                Event::FileLoaded(r, _) => {
                    if r is Err {
                        assert(q2 =~~= q.push(q2.last()));
                    }
                },
                Event::SaveCompleted(outcome) => {
                    assert(q2 =~~= q.push(q2.last()));
                },
                _ => {},
            }
        }
    }
}

} // verus!
