//! Control files are replaced as a whole: the content goes to a new file beside the old one, which
//! then takes its place.

use crate::decimal::{self, decimal_text};
use crate::paths::{self, SLASH, file_name_of, join_entry, parent_of};
use crate::progress::{self, progress_content};
use crate::utf8::{self, from_utf8, text_of};
use crate::views::{self, copy_bytes, copy_done, join2, join3, join4};
use vstd::prelude::*;
use vstd::slice::*;
use vstd::utf8::*;

verus! {

/// How many names are tried for the new file.
pub const CONTROL_FILE_CREATE_ATTEMPTS: usize = 32;

/// The access rights of the files that the service writes.
pub const CONTROL_FILE_MODE: u32 = 0o644;

/// Where the replacement of a control file stands. Texts are `T`, bytes are `B`.
#[derive(Debug)]
pub enum ControlFileState<T, B> {
    /// The directory is being made.
    CreatingDir,
    /// A number for the name of the new file is wanted; `taken` names were in use already.
    Numbering { taken: usize },
    /// The new file is being made.
    CreatingTemp { taken: usize, temp: B },
    /// The access rights of the new file are being set.
    SettingMode { temp: B },
    /// The content is being written.
    Writing { temp: B },
    /// The content is being brought to the disk.
    Syncing { temp: B },
    /// The new file is taking the place of the old one.
    Renaming { temp: B },
    /// The directory is being opened.
    OpeningDir { temp: B },
    /// The directory is being brought to the disk.
    SyncingDir { temp: B },
    /// The new file is being removed.
    RemovingTemp { temp: B, error: T },
    /// The replacement is over.
    Finished(Result<(), T>),
}

/// The replacement of a control file. Texts are `T`, bytes are `B`.
#[derive(Debug)]
pub struct ControlFileRun<T, B> {
    /// The file to replace.
    pub path: B,
    /// What it is to hold.
    pub content: B,
    /// Its access rights.
    pub mode: u32,
    /// The number of this process.
    pub pid: u32,
    /// Where the replacement stands.
    pub state: ControlFileState<T, B>,
}

/// What the replacement of a control file asks for.
#[derive(Debug)]
pub enum ControlFileAction<T, B> {
    /// Make this directory, and those that it lies in.
    CreateDir(B),
    /// Give a number that this process has not given before.
    TakeSequence,
    /// Make this file, which must not exist, without following a link, to write to it.
    CreateTemp { path: B, mode: u32 },
    /// Set the access rights of the new file.
    SetMode { path: B, mode: u32 },
    /// Write to the new file.
    WriteContent { path: B, content: B },
    /// Bring the new file to the disk.
    SyncFile(B),
    /// Let one file take the place of another.
    Rename { from: B, to: B },
    /// Open this directory.
    OpenDir(B),
    /// Bring the open directory to the disk.
    SyncDir(B),
    /// Remove this file.
    RemoveFile(B),
    /// The replacement is over, with this.
    Return(Result<(), T>),
}

/// What an action of the replacement came to.
#[derive(Debug)]
pub enum ControlFileEvent<T> {
    /// The action succeeded or failed.
    Done(Result<(), T>),
    /// This number has not been given before.
    Sequence(u64),
    /// The file to make exists already.
    AlreadyExists,
}

/// The view of where a replacement stands.
pub open spec fn control_file_state_view(state: ControlFileState<String, Vec<u8>>) -> ControlFileState<
    Seq<char>,
    Seq<u8>,
> {
    match state {
        ControlFileState::CreatingDir => ControlFileState::CreatingDir,
        ControlFileState::Numbering { taken } => ControlFileState::Numbering { taken },
        ControlFileState::CreatingTemp { taken, temp } => ControlFileState::CreatingTemp {
            taken,
            temp: temp@,
        },
        ControlFileState::SettingMode { temp } => ControlFileState::SettingMode { temp: temp@ },
        ControlFileState::Writing { temp } => ControlFileState::Writing { temp: temp@ },
        ControlFileState::Syncing { temp } => ControlFileState::Syncing { temp: temp@ },
        ControlFileState::Renaming { temp } => ControlFileState::Renaming { temp: temp@ },
        ControlFileState::OpeningDir { temp } => ControlFileState::OpeningDir { temp: temp@ },
        ControlFileState::SyncingDir { temp } => ControlFileState::SyncingDir { temp: temp@ },
        ControlFileState::RemovingTemp { temp, error } => ControlFileState::RemovingTemp {
            temp: temp@,
            error: error@,
        },
        ControlFileState::Finished(r) => ControlFileState::Finished(views::done_view(r)),
    }
}

impl View for ControlFileRun<String, Vec<u8>> {
    type V = ControlFileRun<Seq<char>, Seq<u8>>;

    open spec fn view(&self) -> ControlFileRun<Seq<char>, Seq<u8>> {
        ControlFileRun {
            path: self.path@,
            content: self.content@,
            mode: self.mode,
            pid: self.pid,
            state: control_file_state_view(self.state),
        }
    }
}

impl View for ControlFileAction<String, Vec<u8>> {
    type V = ControlFileAction<Seq<char>, Seq<u8>>;

    open spec fn view(&self) -> ControlFileAction<Seq<char>, Seq<u8>> {
        match self {
            ControlFileAction::CreateDir(dir) => ControlFileAction::CreateDir(dir@),
            ControlFileAction::TakeSequence => ControlFileAction::TakeSequence,
            ControlFileAction::CreateTemp { path, mode } => ControlFileAction::CreateTemp {
                path: path@,
                mode: *mode,
            },
            ControlFileAction::SetMode { path, mode } => ControlFileAction::SetMode {
                path: path@,
                mode: *mode,
            },
            ControlFileAction::WriteContent { path, content } => ControlFileAction::WriteContent {
                path: path@,
                content: content@,
            },
            ControlFileAction::SyncFile(path) => ControlFileAction::SyncFile(path@),
            ControlFileAction::Rename { from, to } => ControlFileAction::Rename {
                from: from@,
                to: to@,
            },
            ControlFileAction::OpenDir(dir) => ControlFileAction::OpenDir(dir@),
            ControlFileAction::SyncDir(dir) => ControlFileAction::SyncDir(dir@),
            ControlFileAction::RemoveFile(path) => ControlFileAction::RemoveFile(path@),
            ControlFileAction::Return(r) => ControlFileAction::Return(views::done_view(*r)),
        }
    }
}

impl View for ControlFileEvent<String> {
    type V = ControlFileEvent<Seq<char>>;

    open spec fn view(&self) -> ControlFileEvent<Seq<char>> {
        match self {
            ControlFileEvent::Done(r) => ControlFileEvent::Done(views::done_view(*r)),
            ControlFileEvent::Sequence(n) => ControlFileEvent::Sequence(*n),
            ControlFileEvent::AlreadyExists => ControlFileEvent::AlreadyExists,
        }
    }
}

/// The directory in which the file at `path` is looked for.
pub open spec fn dir_of(path: Seq<u8>) -> Seq<u8> {
    match paths::parent_path(path) {
        Some(dir) => dir,
        None => encode_utf8("."@),
    }
}

/// The name of the new file with which the file named `leaf` is replaced.
pub open spec fn temp_name(leaf: Seq<u8>, pid: u32, sequence: u64) -> Seq<u8> {
    encode_utf8("."@) + leaf + encode_utf8(
        ".tmp-"@ + decimal::decimal(pid as nat) + "-"@ + decimal::decimal(sequence as nat),
    )
}

impl ControlFileRun<Seq<char>, Seq<u8>> {
    /// A replacement that has just begun.
    pub open spec fn started(path: Seq<u8>, content: Seq<u8>, mode: u32, pid: u32) -> Self {
        ControlFileRun { path, content, mode, pid, state: ControlFileState::CreatingDir }
    }

    /// The same replacement at another point.
    pub open spec fn at(self, state: ControlFileState<Seq<char>, Seq<u8>>) -> Self {
        ControlFileRun { state, ..self }
    }

    /// The path of the new file whose name holds `sequence`.
    pub open spec fn temp_path(self, sequence: u64) -> Seq<u8> {
        let leaf = match paths::leaf_name(self.path) {
            Some(leaf) => leaf,
            None => seq![],
        };
        paths::entry_path(dir_of(self.path), temp_name(leaf, self.pid, sequence))
    }

    /// What the replacement asks for.
    pub open spec fn asks(self) -> ControlFileAction<Seq<char>, Seq<u8>> {
        match self.state {
            ControlFileState::CreatingDir => ControlFileAction::CreateDir(dir_of(self.path)),
            ControlFileState::Numbering { taken } => ControlFileAction::TakeSequence,
            ControlFileState::CreatingTemp { taken, temp } => ControlFileAction::CreateTemp {
                path: temp,
                mode: self.mode,
            },
            ControlFileState::SettingMode { temp } => ControlFileAction::SetMode {
                path: temp,
                mode: self.mode,
            },
            ControlFileState::Writing { temp } => ControlFileAction::WriteContent {
                path: temp,
                content: self.content,
            },
            ControlFileState::Syncing { temp } => ControlFileAction::SyncFile(temp),
            ControlFileState::Renaming { temp } => ControlFileAction::Rename {
                from: temp,
                to: self.path,
            },
            ControlFileState::OpeningDir { temp } => ControlFileAction::OpenDir(dir_of(self.path)),
            ControlFileState::SyncingDir { temp } => ControlFileAction::SyncDir(dir_of(self.path)),
            ControlFileState::RemovingTemp { temp, error } => ControlFileAction::RemoveFile(temp),
            ControlFileState::Finished(r) => ControlFileAction::Return(r),
        }
    }

    /// The replacement where an action on the new file came to `done`: it goes on at `next`, or
    /// the new file is removed and the failure is told, with `what` in front of it.
    pub open spec fn went(
        self,
        done: Result<(), Seq<char>>,
        temp: Seq<u8>,
        next: ControlFileState<Seq<char>, Seq<u8>>,
        what: Seq<char>,
    ) -> Self {
        match done {
            Ok(()) => self.at(next),
            Err(e) => self.at(ControlFileState::RemovingTemp { temp, error: what + ": "@ + e }),
        }
    }

    /// The replacement after it has been told `event`. An event that answers nothing asked for
    /// changes nothing.
    pub open spec fn after(self, event: ControlFileEvent<Seq<char>>) -> Self {
        let path_text = utf8::lossy_text(self.path);
        let dir_text = utf8::lossy_text(dir_of(self.path));
        match (self.state, event) {
            (ControlFileState::CreatingDir, ControlFileEvent::Done(Err(e))) => self.at(
                ControlFileState::Finished(Err("failed to create path "@ + dir_text + ": "@ + e)),
            ),
            (ControlFileState::CreatingDir, ControlFileEvent::Done(Ok(()))) => if paths::leaf_name(
                self.path,
            ) matches Some(leaf) && valid_utf8(leaf) {
                self.at(ControlFileState::Numbering { taken: 0 })
            } else {
                self.at(
                    ControlFileState::Finished(
                        Err("control file has no UTF-8 leaf name: "@ + path_text),
                    ),
                )
            },
            (ControlFileState::Numbering { taken }, ControlFileEvent::Sequence(n)) => self.at(
                ControlFileState::CreatingTemp { taken, temp: self.temp_path(n) },
            ),
            (
                ControlFileState::CreatingTemp { taken, temp },
                ControlFileEvent::AlreadyExists,
            ) => if taken + 1 < CONTROL_FILE_CREATE_ATTEMPTS {
                self.at(ControlFileState::Numbering { taken: (taken + 1) as usize })
            } else {
                self.at(
                    ControlFileState::Finished(
                        Err(
                            "failed to reserve a temporary control file for "@ + path_text
                                + " after "@ + decimal::decimal(CONTROL_FILE_CREATE_ATTEMPTS as nat)
                                + " attempts"@,
                        ),
                    ),
                )
            },
            (
                ControlFileState::CreatingTemp { taken, temp },
                ControlFileEvent::Done(Err(e)),
            ) => self.at(
                ControlFileState::Finished(
                    Err(
                        "failed to create temporary control file "@ + utf8::lossy_text(temp)
                            + ": "@ + e,
                    ),
                ),
            ),
            (
                ControlFileState::CreatingTemp { taken, temp },
                ControlFileEvent::Done(Ok(())),
            ) => self.at(ControlFileState::SettingMode { temp }),
            (ControlFileState::SettingMode { temp }, ControlFileEvent::Done(done)) => self.went(
                done,
                temp,
                ControlFileState::Writing { temp },
                "failed to chmod "@ + utf8::lossy_text(temp),
            ),
            (ControlFileState::Writing { temp }, ControlFileEvent::Done(done)) => self.went(
                done,
                temp,
                ControlFileState::Syncing { temp },
                "failed to write "@ + utf8::lossy_text(temp),
            ),
            (ControlFileState::Syncing { temp }, ControlFileEvent::Done(done)) => self.went(
                done,
                temp,
                ControlFileState::Renaming { temp },
                "failed to sync "@ + utf8::lossy_text(temp),
            ),
            (ControlFileState::Renaming { temp }, ControlFileEvent::Done(done)) => self.went(
                done,
                temp,
                ControlFileState::OpeningDir { temp },
                "failed to atomically replace "@ + path_text + " with "@ + utf8::lossy_text(temp),
            ),
            (ControlFileState::OpeningDir { temp }, ControlFileEvent::Done(done)) => self.went(
                done,
                temp,
                ControlFileState::SyncingDir { temp },
                "failed to open "@ + dir_text,
            ),
            (ControlFileState::SyncingDir { temp }, ControlFileEvent::Done(done)) => self.went(
                done,
                temp,
                ControlFileState::Finished(Ok(())),
                "failed to sync "@ + dir_text,
            ),
            (ControlFileState::RemovingTemp { temp, error }, ControlFileEvent::Done(_)) => self.at(
                ControlFileState::Finished(Err(error)),
            ),
            _ => self,
        }
    }

    /// The replacement after it has been told all of `events`, one after the other.
    pub open spec fn after_all(self, events: Seq<ControlFileEvent<Seq<char>>>) -> Self
        decreases events.len(),
    {
        if events.len() == 0 {
            self
        } else {
            self.after_all(events.drop_last()).after(events.last())
        }
    }

    /// At the event numbered `i`, the replacement asked for `action` and was told `event`.
    pub open spec fn told(
        self,
        events: Seq<ControlFileEvent<Seq<char>>>,
        i: int,
        action: ControlFileAction<Seq<char>, Seq<u8>>,
        event: ControlFileEvent<Seq<char>>,
    ) -> bool {
        &&& 0 <= i < events.len()
        &&& self.after_all(events.take(i)).asks() == action
        &&& events[i] == event
    }
}

/// The directory in which the file at `path` is looked for.
pub(crate) fn dir_path(path: &[u8]) -> (dir: Vec<u8>)
    ensures
        dir@ == dir_of(path@),
{
    match parent_of(path) {
        Some(dir) => dir,
        None => slice_to_vec(".".as_bytes()),
    }
}

/// The name of the new file with which the file named `leaf` is replaced.
fn temp_file_name(leaf: &[u8], pid: u32, sequence: u64) -> (name: Vec<u8>)
    ensures
        name@ == temp_name(leaf@, pid, sequence),
{
    let tail = join4(
        ".tmp-",
        decimal_text(pid as u64).as_str(),
        "-",
        decimal_text(sequence).as_str(),
    );
    let mut name = slice_to_vec(".".as_bytes());
    name.extend_from_slice(leaf);
    name.extend_from_slice(tail.as_str().as_bytes());
    name
}

/// Where a replacement goes on when an action on the new file came to `done`.
fn go_on(
    done: Result<(), String>,
    temp: Vec<u8>,
    next: ControlFileState<String, Vec<u8>>,
    what: String,
) -> (state: ControlFileState<String, Vec<u8>>)
    ensures
        control_file_state_view(state) == (match done {
            Ok(()) => control_file_state_view(next),
            Err(e) => ControlFileState::RemovingTemp { temp: temp@, error: what@ + ": "@ + e@ },
        }),
{
    match done {
        Ok(()) => next,
        Err(e) => ControlFileState::RemovingTemp {
            temp,
            error: join3(what.as_str(), ": ", e.as_str()),
        },
    }
}

/// Begins to replace the file at `path` by one that holds `content` and has the access rights
/// `mode`.
pub fn write_bytes_file(path: &[u8], content: &[u8], mode: u32, pid: u32) -> (run: ControlFileRun<
    String,
    Vec<u8>,
>)
    ensures
        run@ == ControlFileRun::started(path@, content@, mode, pid),
{
    ControlFileRun {
        path: slice_to_vec(path),
        content: slice_to_vec(content),
        mode,
        pid,
        state: ControlFileState::CreatingDir,
    }
}

/// Begins to replace the file at `path` by one that holds the text `content` and has the access
/// rights `mode`.
pub fn write_text_file(path: &[u8], content: &str, mode: u32, pid: u32) -> (run: ControlFileRun<
    String,
    Vec<u8>,
>)
    ensures
        run@ == ControlFileRun::started(path@, encode_utf8(content@), mode, pid),
{
    write_bytes_file(path, content.as_bytes(), mode, pid)
}

/// Begins to write the progress file at `path`: the byte `byte`, and `suffix` behind it.
pub fn write_progress(path: &[u8], byte: u8, suffix: &str, pid: u32) -> (run: ControlFileRun<
    String,
    Vec<u8>,
>)
    ensures
        run@ == ControlFileRun::started(
            path@,
            progress::progress_bytes(byte, suffix@),
            CONTROL_FILE_MODE,
            pid,
        ),
{
    write_bytes_file(path, progress_content(byte, suffix).as_slice(), CONTROL_FILE_MODE, pid)
}

impl ControlFileRun<String, Vec<u8>> {
    /// What the replacement asks for.
    pub fn action(&self) -> (action: ControlFileAction<String, Vec<u8>>)
        ensures
            action@ == self@.asks(),
    {
        match &self.state {
            ControlFileState::CreatingDir => ControlFileAction::CreateDir(
                dir_path(self.path.as_slice()),
            ),
            ControlFileState::Numbering { taken } => ControlFileAction::TakeSequence,
            ControlFileState::CreatingTemp { taken, temp } => ControlFileAction::CreateTemp {
                path: copy_bytes(temp),
                mode: self.mode,
            },
            ControlFileState::SettingMode { temp } => ControlFileAction::SetMode {
                path: copy_bytes(temp),
                mode: self.mode,
            },
            ControlFileState::Writing { temp } => ControlFileAction::WriteContent {
                path: copy_bytes(temp),
                content: copy_bytes(&self.content),
            },
            ControlFileState::Syncing { temp } => ControlFileAction::SyncFile(copy_bytes(temp)),
            ControlFileState::Renaming { temp } => ControlFileAction::Rename {
                from: copy_bytes(temp),
                to: copy_bytes(&self.path),
            },
            ControlFileState::OpeningDir { temp } => ControlFileAction::OpenDir(
                dir_path(self.path.as_slice()),
            ),
            ControlFileState::SyncingDir { temp } => ControlFileAction::SyncDir(
                dir_path(self.path.as_slice()),
            ),
            ControlFileState::RemovingTemp { temp, error } => ControlFileAction::RemoveFile(
                copy_bytes(temp),
            ),
            ControlFileState::Finished(r) => ControlFileAction::Return(copy_done(r)),
        }
    }

    /// Tells the replacement what came of its action.
    pub fn tell(self, event: ControlFileEvent<String>) -> (run: Self)
        ensures
            run@ == self@.after(event@),
    {
        let path = self.path;
        let path_text = text_of(path.as_slice());
        let dir = dir_path(path.as_slice());
        let dir_text = text_of(dir.as_slice());
        let state: ControlFileState<String, Vec<u8>> = match (self.state, event) {
            (ControlFileState::CreatingDir, ControlFileEvent::Done(Err(e))) => {
                ControlFileState::Finished(
                    Err(join4("failed to create path ", dir_text.as_str(), ": ", e.as_str())),
                )
            },
            (ControlFileState::CreatingDir, ControlFileEvent::Done(Ok(()))) => {
                let named = match file_name_of(path.as_slice()) {
                    Some(leaf) => from_utf8(leaf.as_slice()).is_some(),
                    None => false,
                };
                if named {
                    ControlFileState::Numbering { taken: 0 }
                } else {
                    ControlFileState::Finished(
                        Err(join2("control file has no UTF-8 leaf name: ", path_text.as_str())),
                    )
                }
            },
            (ControlFileState::Numbering { taken }, ControlFileEvent::Sequence(n)) => {
                let leaf = match file_name_of(path.as_slice()) {
                    Some(leaf) => leaf,
                    None => Vec::new(),
                };
                let name = temp_file_name(leaf.as_slice(), self.pid, n);
                ControlFileState::CreatingTemp {
                    taken,
                    temp: join_entry(dir.as_slice(), name.as_slice()),
                }
            },
            (ControlFileState::CreatingTemp { taken, temp }, ControlFileEvent::AlreadyExists) => {
                if taken < CONTROL_FILE_CREATE_ATTEMPTS - 1 {
                    ControlFileState::Numbering { taken: taken + 1 }
                } else {
                    let mut message = join4(
                        "failed to reserve a temporary control file for ",
                        path_text.as_str(),
                        " after ",
                        decimal_text(CONTROL_FILE_CREATE_ATTEMPTS as u64).as_str(),
                    );
                    message.append(" attempts");
                    ControlFileState::Finished(Err(message))
                }
            },
            (ControlFileState::CreatingTemp { taken, temp }, ControlFileEvent::Done(Err(e))) => {
                ControlFileState::Finished(
                    Err(
                        join4(
                            "failed to create temporary control file ",
                            text_of(temp.as_slice()).as_str(),
                            ": ",
                            e.as_str(),
                        ),
                    ),
                )
            },
            (ControlFileState::CreatingTemp { taken, temp }, ControlFileEvent::Done(Ok(()))) => {
                ControlFileState::SettingMode { temp }
            },
            (ControlFileState::SettingMode { temp }, ControlFileEvent::Done(done)) => {
                let what = join2("failed to chmod ", text_of(temp.as_slice()).as_str());
                go_on(done, copy_bytes(&temp), ControlFileState::Writing { temp }, what)
            },
            (ControlFileState::Writing { temp }, ControlFileEvent::Done(done)) => {
                let what = join2("failed to write ", text_of(temp.as_slice()).as_str());
                go_on(done, copy_bytes(&temp), ControlFileState::Syncing { temp }, what)
            },
            (ControlFileState::Syncing { temp }, ControlFileEvent::Done(done)) => {
                let what = join2("failed to sync ", text_of(temp.as_slice()).as_str());
                go_on(done, copy_bytes(&temp), ControlFileState::Renaming { temp }, what)
            },
            (ControlFileState::Renaming { temp }, ControlFileEvent::Done(done)) => {
                let what = join4(
                    "failed to atomically replace ",
                    path_text.as_str(),
                    " with ",
                    text_of(temp.as_slice()).as_str(),
                );
                go_on(done, copy_bytes(&temp), ControlFileState::OpeningDir { temp }, what)
            },
            (ControlFileState::OpeningDir { temp }, ControlFileEvent::Done(done)) => {
                let what = join2("failed to open ", dir_text.as_str());
                go_on(done, copy_bytes(&temp), ControlFileState::SyncingDir { temp }, what)
            },
            (ControlFileState::SyncingDir { temp }, ControlFileEvent::Done(done)) => {
                let what = join2("failed to sync ", dir_text.as_str());
                go_on(done, temp, ControlFileState::Finished(Ok(())), what)
            },
            (ControlFileState::RemovingTemp { temp, error }, ControlFileEvent::Done(_)) => {
                ControlFileState::Finished(Err(error))
            },
            (other, _) => other,
        };
        ControlFileRun { path, content: self.content, mode: self.mode, pid: self.pid, state }
    }
}

/// What was asked and told before an event was so after it too.
proof fn lemma_told_stays(
    run: ControlFileRun<Seq<char>, Seq<u8>>,
    events: Seq<ControlFileEvent<Seq<char>>>,
    i: int,
    action: ControlFileAction<Seq<char>, Seq<u8>>,
    event: ControlFileEvent<Seq<char>>,
)
    requires
        events.len() > 0,
    ensures
        run.told(events.drop_last(), i, action, event) ==> run.told(events, i, action, event),
        i < events.len() - 1 && run.told(events, i, action, event) ==> run.told(
            events.drop_last(),
            i,
            action,
            event,
        ),
{
    if 0 <= i < events.len() - 1 {
        assert(events.drop_last().take(i) =~= events.take(i));
    }
}

proof fn lemma_run_keeps_settings(
    run: ControlFileRun<Seq<char>, Seq<u8>>,
    events: Seq<ControlFileEvent<Seq<char>>>,
)
    ensures
        run.after_all(events) == run.at(run.after_all(events).state),
    decreases events.len(),
{
    if events.len() > 0 {
        lemma_run_keeps_settings(run, events.drop_last());
    }
}

impl ControlFileRun<Seq<char>, Seq<u8>> {
    /// At the event numbered `i`, the access rights of the new file at `temp` had been set.
    pub open spec fn mode_set(
        self,
        events: Seq<ControlFileEvent<Seq<char>>>,
        i: int,
        temp: Seq<u8>,
    ) -> bool {
        self.told(
            events,
            i,
            ControlFileAction::SetMode { path: temp, mode: self.mode },
            ControlFileEvent::Done(Ok(())),
        )
    }

    /// At the event numbered `i`, the content had been written to the new file at `temp`.
    pub open spec fn written(
        self,
        events: Seq<ControlFileEvent<Seq<char>>>,
        i: int,
        temp: Seq<u8>,
    ) -> bool {
        self.told(
            events,
            i,
            ControlFileAction::WriteContent { path: temp, content: self.content },
            ControlFileEvent::Done(Ok(())),
        )
    }

    /// At the event numbered `i`, the new file at `temp` had been brought to the disk.
    pub open spec fn synced(
        self,
        events: Seq<ControlFileEvent<Seq<char>>>,
        i: int,
        temp: Seq<u8>,
    ) -> bool {
        self.told(events, i, ControlFileAction::SyncFile(temp), ControlFileEvent::Done(Ok(())))
    }

    /// At the event numbered `i`, the new file at `temp` had taken the place of the old one.
    pub open spec fn renamed(
        self,
        events: Seq<ControlFileEvent<Seq<char>>>,
        i: int,
        temp: Seq<u8>,
    ) -> bool {
        self.told(
            events,
            i,
            ControlFileAction::Rename { from: temp, to: self.path },
            ControlFileEvent::Done(Ok(())),
        )
    }

    /// At the event numbered `i`, the new file at `temp` had been made.
    pub open spec fn created(
        self,
        events: Seq<ControlFileEvent<Seq<char>>>,
        i: int,
        temp: Seq<u8>,
    ) -> bool {
        self.told(
            events,
            i,
            ControlFileAction::CreateTemp { path: temp, mode: self.mode },
            ControlFileEvent::Done(Ok(())),
        )
    }

    /// At the event numbered `i`, the file at `temp` was asked to be removed.
    pub open spec fn removal_asked(
        self,
        events: Seq<ControlFileEvent<Seq<char>>>,
        i: int,
        temp: Seq<u8>,
    ) -> bool {
        &&& 0 <= i < events.len()
        &&& self.after_all(events.take(i)).asks() == ControlFileAction::<
            Seq<char>,
            Seq<u8>,
        >::RemoveFile(temp)
    }

    /// How many names for the new file turned out to be in use.
    pub open spec fn collisions(self, events: Seq<ControlFileEvent<Seq<char>>>) -> nat
        decreases events.len(),
    {
        if events.len() == 0 {
            0
        } else {
            let before = self.collisions(events.drop_last());
            if self.after_all(events.drop_last()).state is CreatingTemp
                && events.last() is AlreadyExists {
                before + 1
            } else {
                before
            }
        }
    }
}

impl ControlFileRun<Seq<char>, Seq<u8>> {
    /// The access rights of the new file at `temp` had been set, then the content had been written
    /// to it, and then it had been brought to the disk, at the events with these numbers.
    pub open spec fn completed(
        self,
        events: Seq<ControlFileEvent<Seq<char>>>,
        h: int,
        i: int,
        j: int,
        temp: Seq<u8>,
    ) -> bool {
        &&& h < i < j
        &&& self.mode_set(events, h, temp)
        &&& self.written(events, i, temp)
        &&& self.synced(events, j, temp)
    }
}

proof fn lemma_stages(
    run: ControlFileRun<Seq<char>, Seq<u8>>,
    events: Seq<ControlFileEvent<Seq<char>>>,
)
    requires
        run.state is CreatingDir,
    ensures
        run.after_all(events).state matches ControlFileState::Writing { temp } ==> exists|h: int|
            run.mode_set(events, h, temp),
        run.after_all(events).state matches ControlFileState::Syncing { temp } ==> exists|
            h: int,
            i: int,
        |
            h < i && run.mode_set(events, h, temp) && run.written(events, i, temp),
        run.after_all(events).state matches ControlFileState::Renaming { temp } ==> exists|
            h: int,
            i: int,
            j: int,
        |
            run.completed(events, h, i, j, temp),
    decreases events.len(),
{
    if events.len() > 0 {
        let rest = events.drop_last();
        let n = events.len() - 1;
        lemma_stages(run, rest);
        lemma_run_keeps_settings(run, rest);
        assert(events.take(n) =~= rest);
        assert(events.last() matches ControlFileEvent::Done(Ok(unit)) ==> unit == ());
        assert forall|i: int, temp: Seq<u8>| run.mode_set(rest, i, temp) implies run.mode_set(
            events,
            i,
            temp,
        ) by {
            lemma_told_stays(
                run,
                events,
                i,
                ControlFileAction::SetMode { path: temp, mode: run.mode },
                ControlFileEvent::Done(Ok(())),
            );
        }
        assert forall|i: int, temp: Seq<u8>| run.written(rest, i, temp) implies run.written(
            events,
            i,
            temp,
        ) by {
            lemma_told_stays(
                run,
                events,
                i,
                ControlFileAction::WriteContent { path: temp, content: run.content },
                ControlFileEvent::Done(Ok(())),
            );
        }
        assert forall|i: int, temp: Seq<u8>| run.synced(rest, i, temp) implies run.synced(
            events,
            i,
            temp,
        ) by {
            lemma_told_stays(
                run,
                events,
                i,
                ControlFileAction::SyncFile(temp),
                ControlFileEvent::Done(Ok(())),
            );
        }
        match run.after_all(events).state {
            ControlFileState::Writing { temp } => {
                if run.after_all(rest).state is SettingMode {
                    assert(run.mode_set(events, n, temp));
                } else {
                    let h = choose|h: int| run.mode_set(rest, h, temp);
                    assert(run.mode_set(events, h, temp));
                }
            },
            ControlFileState::Syncing { temp } => {
                if run.after_all(rest).state is Writing {
                    let h = choose|h: int| run.mode_set(rest, h, temp);
                    assert(run.mode_set(events, h, temp));
                    assert(run.written(events, n, temp));
                } else {
                    let (h, i) = choose|h: int, i: int|
                        h < i && run.mode_set(rest, h, temp) && run.written(rest, i, temp);
                    assert(run.mode_set(events, h, temp) && run.written(events, i, temp));
                }
            },
            ControlFileState::Renaming { temp } => {
                if run.after_all(rest).state is Syncing {
                    let (h, i) = choose|h: int, i: int|
                        h < i && run.mode_set(rest, h, temp) && run.written(rest, i, temp);
                    assert(run.synced(events, n, temp));
                    assert(run.completed(events, h, i, n, temp));
                } else {
                    let (h, i, j) = choose|h: int, i: int, j: int|
                        run.completed(rest, h, i, j, temp);
                    assert(run.completed(events, h, i, j, temp));
                }
            },
            _ => {},
        }
    }
}

/// The old file is replaced only by one whose access rights had been set, to which the whole
/// content had then been written, and that had then been brought to the disk.
pub proof fn law_only_whole_files_take_the_place(
    path: Seq<u8>,
    content: Seq<u8>,
    mode: u32,
    pid: u32,
    events: Seq<ControlFileEvent<Seq<char>>>,
)
    ensures
        ({
            let run = ControlFileRun::started(path, content, mode, pid);
            run.after_all(events).asks() matches ControlFileAction::Rename { from, to } ==> to
                == path && exists|h: int, i: int, j: int| run.completed(events, h, i, j, from)
        }),
{
    let run = ControlFileRun::started(path, content, mode, pid);
    lemma_stages(run, events);
    lemma_run_keeps_settings(run, events);
    if let ControlFileState::Renaming { temp } = run.after_all(events).state {
        let (h, i, j) = choose|h: int, i: int, j: int| run.completed(events, h, i, j, temp);
        let action = run.after_all(events).asks();
        assert(action->from == temp);
        assert(action->to == path);
        assert(run.completed(events, h, i, j, action->from));
    }
}

/// A replacement that has come past the renaming has put the new file in the place of the old one.
proof fn lemma_renamed(
    run: ControlFileRun<Seq<char>, Seq<u8>>,
    events: Seq<ControlFileEvent<Seq<char>>>,
)
    requires
        run.state is CreatingDir,
    ensures
        run.after_all(events).state is OpeningDir || run.after_all(events).state is SyncingDir
            || run.after_all(events).state == ControlFileState::<Seq<char>, Seq<u8>>::Finished(
            Ok(()),
        ) ==> exists|i: int, temp: Seq<u8>| run.renamed(events, i, temp),
    decreases events.len(),
{
    if events.len() > 0 {
        let rest = events.drop_last();
        let n = events.len() - 1;
        lemma_renamed(run, rest);
        lemma_run_keeps_settings(run, rest);
        assert(events.take(n) =~= rest);
        assert(events.last() matches ControlFileEvent::Done(Ok(unit)) ==> unit == ());
        let before = run.after_all(rest);
        if before.state is Renaming && events.last() == ControlFileEvent::<Seq<char>>::Done(
            Ok(()),
        ) {
            assert(run.renamed(events, n, before.state->Renaming_temp));
        } else if exists|i: int, temp: Seq<u8>| run.renamed(rest, i, temp) {
            let (i, temp) = choose|i: int, temp: Seq<u8>| run.renamed(rest, i, temp);
            lemma_told_stays(
                run,
                events,
                i,
                ControlFileAction::Rename { from: temp, to: run.path },
                ControlFileEvent::Done(Ok(())),
            );
            assert(run.renamed(events, i, temp));
        }
    }
}

/// A replacement that says it succeeded has set the access rights of a new file, then written the
/// whole content to it, then brought it to the disk, and then put it in the place of the old one.
pub proof fn law_success_means_replaced(
    path: Seq<u8>,
    content: Seq<u8>,
    mode: u32,
    pid: u32,
    events: Seq<ControlFileEvent<Seq<char>>>,
)
    requires
        ControlFileRun::started(path, content, mode, pid).after_all(events).asks()
            == ControlFileAction::<Seq<char>, Seq<u8>>::Return(Ok(())),
    ensures
        ({
            let run = ControlFileRun::started(path, content, mode, pid);
            exists|h: int, i: int, j: int, k: int, temp: Seq<u8>|
                j < k && #[trigger] run.completed(events, h, i, j, temp) && #[trigger] run.renamed(
                    events,
                    k,
                    temp,
                )
        }),
{
    let run = ControlFileRun::started(path, content, mode, pid);
    lemma_renamed(run, events);
    let (k, temp) = choose|k: int, temp: Seq<u8>| run.renamed(events, k, temp);
    let before = events.take(k);
    law_only_whole_files_take_the_place(path, content, mode, pid, before);
    let action = run.after_all(before).asks();
    assert(action->from == temp);
    let (h, i, j) = choose|h: int, i: int, j: int| run.completed(before, h, i, j, temp);
    assert(before.take(h) =~= events.take(h));
    assert(before.take(i) =~= events.take(i));
    assert(before.take(j) =~= events.take(j));
    assert(run.completed(events, h, i, j, temp));
}

/// The new file is the one that a replacement works on, once it has been made.
pub open spec fn works_on(state: ControlFileState<Seq<char>, Seq<u8>>, temp: Seq<u8>) -> bool {
    match state {
        ControlFileState::SettingMode { temp: t } => t == temp,
        ControlFileState::Writing { temp: t } => t == temp,
        ControlFileState::Syncing { temp: t } => t == temp,
        ControlFileState::Renaming { temp: t } => t == temp,
        ControlFileState::OpeningDir { temp: t } => t == temp,
        ControlFileState::SyncingDir { temp: t } => t == temp,
        ControlFileState::RemovingTemp { temp: t, error } => t == temp,
        _ => false,
    }
}

/// Once the new file has been made, a replacement that fails asks for its removal before it ends,
/// and one that goes on works on no other file.
pub proof fn law_failure_removes_the_new_file(
    path: Seq<u8>,
    content: Seq<u8>,
    mode: u32,
    pid: u32,
    events: Seq<ControlFileEvent<Seq<char>>>,
    i: int,
    temp: Seq<u8>,
)
    requires
        ControlFileRun::started(path, content, mode, pid).created(events, i, temp),
    ensures
        ({
            let run = ControlFileRun::started(path, content, mode, pid);
            match run.after_all(events).state {
                ControlFileState::Finished(Ok(())) => true,
                ControlFileState::Finished(Err(_)) => exists|j: int|
                    i < j && run.removal_asked(events, j, temp),
                state => works_on(state, temp),
            }
        }),
    decreases events.len(),
{
    let run = ControlFileRun::started(path, content, mode, pid);
    let rest = events.drop_last();
    let n = events.len() - 1;
    lemma_run_keeps_settings(run, rest);
    assert(events.take(n) =~= rest);
    if i < n {
        lemma_told_stays(
            run,
            events,
            i,
            ControlFileAction::CreateTemp { path: temp, mode },
            ControlFileEvent::Done(Ok(())),
        );
        law_failure_removes_the_new_file(path, content, mode, pid, rest, i, temp);
        let before = run.after_all(rest);
        if let ControlFileState::Finished(Err(_)) = run.after_all(events).state {
            if let ControlFileState::Finished(Err(_)) = before.state {
                let j = choose|j: int| i < j && run.removal_asked(rest, j, temp);
                assert(rest.take(j) =~= events.take(j));
                assert(run.removal_asked(events, j, temp));
            } else {
                assert(run.removal_asked(events, n, temp));
            }
        }
    }
}

/// A replacement tries a bounded number of names for the new file, and says so when all of them
/// were in use.
pub proof fn law_attempts_are_bounded(
    path: Seq<u8>,
    content: Seq<u8>,
    mode: u32,
    pid: u32,
    events: Seq<ControlFileEvent<Seq<char>>>,
)
    ensures
        ({
            let run = ControlFileRun::started(path, content, mode, pid);
            let collisions = run.collisions(events);
            &&& collisions <= CONTROL_FILE_CREATE_ATTEMPTS
            &&& collisions == CONTROL_FILE_CREATE_ATTEMPTS ==> run.after_all(events).asks()
                == ControlFileAction::<Seq<char>, Seq<u8>>::Return(
                Err(
                    "failed to reserve a temporary control file for "@ + utf8::lossy_text(path)
                        + " after "@ + decimal::decimal(CONTROL_FILE_CREATE_ATTEMPTS as nat)
                        + " attempts"@,
                ),
            )
            &&& match run.after_all(events).state {
                ControlFileState::CreatingDir => collisions == 0,
                ControlFileState::Numbering { taken } => collisions == taken,
                ControlFileState::CreatingTemp { taken, temp } => collisions == taken,
                _ => true,
            }
        }),
    decreases events.len(),
{
    let run = ControlFileRun::started(path, content, mode, pid);
    if events.len() > 0 {
        law_attempts_are_bounded(path, content, mode, pid, events.drop_last());
        lemma_run_keeps_settings(run, events.drop_last());
    }
}

/// The bytes of ASCII text without a slash hold no slash.
proof fn lemma_ascii_bytes(text: Seq<char>)
    requires
        is_ascii_chars(text),
        !text.contains('/'),
    ensures
        encode_utf8(text).len() == text.len(),
        !encode_utf8(text).contains(paths::SLASH),
{
    is_ascii_chars_encode_utf8(text);
    let bytes = encode_utf8(text);
    if bytes.contains(paths::SLASH) {
        let i = choose|i: int| 0 <= i < bytes.len() && bytes[i] == paths::SLASH;
        assert(text[i] as u8 == 47);
        assert(text[i] == '/');
    }
}

/// What stands behind the name of the file in the name of the new one.
pub open spec fn temp_mark(pid: u32, sequence: u64) -> Seq<char> {
    ".tmp-"@ + decimal::decimal(pid as nat) + "-"@ + decimal::decimal(sequence as nat)
}

proof fn lemma_temp_mark(pid: u32, sequence: u64)
    ensures
        temp_mark(pid, sequence).len() >= 5,
        is_ascii_chars(temp_mark(pid, sequence)),
        !temp_mark(pid, sequence).contains('/'),
{
    reveal_strlit(".tmp-");
    reveal_strlit("-");
    decimal::lemma_decimal(pid as nat);
    decimal::lemma_decimal(sequence as nat);
    let mark = temp_mark(pid, sequence);
    let p = decimal::decimal(pid as nat);
    let q = decimal::decimal(sequence as nat);
    assert forall|i: int| 0 <= i < mark.len() implies '\0' <= #[trigger] mark[i] <= '\u{7f}'
        && mark[i] != '/' by {
        if i < 5 {
        } else if i < 5 + p.len() {
            assert(decimal::is_digit(p[i - 5]));
        } else if i == 5 + p.len() {
        } else {
            assert(decimal::is_digit(q[i - 6 - p.len()]));
        }
    }
}

/// The new file lies in the directory of the file that it is to replace, under another name.
pub proof fn law_new_file_lies_beside(
    path: Seq<u8>,
    content: Seq<u8>,
    mode: u32,
    pid: u32,
    sequence: u64,
)
    requires
        paths::leaf_name(path) is Some,
    ensures
        ({
            let temp = ControlFileRun::started(path, content, mode, pid).temp_path(sequence);
            &&& paths::parent_path(temp) == paths::parent_path(path)
            &&& paths::leaf_name(temp) is Some
            &&& paths::leaf_name(temp) != paths::leaf_name(path)
        }),
{
    let bare = paths::without_tail(path);
    let leaf = paths::leaf_name(path)->0;
    let mark = temp_mark(pid, sequence);
    let name = temp_name(leaf, pid, sequence);
    paths::lemma_last_component(bare);
    lemma_temp_mark(pid, sequence);
    lemma_ascii_bytes(mark);
    reveal_strlit(".");
    lemma_ascii_bytes("."@);
    assert(!name.contains(paths::SLASH)) by {
        if name.contains(paths::SLASH) {
            let i = choose|i: int| 0 <= i < name.len() && name[i] == paths::SLASH;
            if i == 0 {
                assert(encode_utf8("."@).contains(name[0]));
            } else if i < 1 + leaf.len() {
                assert(leaf[i - 1] == paths::SLASH);
            } else {
                assert(encode_utf8(mark)[i - 1 - leaf.len()] == paths::SLASH);
            }
        }
    }
    assert(name.len() == 1 + leaf.len() + mark.len());
    let dir = dir_of(path);
    if bare == seq![paths::SLASH] {
        assert(paths::last_start(bare) == 1);
    }
    let bare_front = bare.take(paths::last_start(bare) as int);
    assert(paths::parent_path(path) == Some(paths::without_tail(bare_front)));
    paths::lemma_without_tail_once(bare_front);
    paths::law_entry_lies_in_its_directory(dir, name);
}

/// The new files of one process have names of their own, as long as the numbers that it gives
/// differ.
pub proof fn law_new_files_do_not_share_a_name(
    path: Seq<u8>,
    content: Seq<u8>,
    mode: u32,
    pid: u32,
    one: u64,
    other: u64,
)
    requires
        one != other,
    ensures
        ControlFileRun::started(path, content, mode, pid).temp_path(one)
            != ControlFileRun::started(path, content, mode, pid).temp_path(other),
{
    let run = ControlFileRun::started(path, content, mode, pid);
    if run.temp_path(one) == run.temp_path(other) {
        let leaf = match paths::leaf_name(path) {
            Some(leaf) => leaf,
            None => seq![],
        };
        let dir = dir_of(path);
        let a = temp_name(leaf, pid, one);
        let b = temp_name(leaf, pid, other);
        let front = if dir.len() == 0 || dir.last() == paths::SLASH {
            dir
        } else {
            dir + seq![paths::SLASH]
        };
        assert(front + a == front + b);
        assert((front + a).skip(front.len() as int) =~= a);
        assert((front + b).skip(front.len() as int) =~= b);
        let head = encode_utf8("."@) + leaf;
        assert(a.skip(head.len() as int) =~= encode_utf8(temp_mark(pid, one)));
        assert(b.skip(head.len() as int) =~= encode_utf8(temp_mark(pid, other)));
        encode_utf8_decode_utf8(temp_mark(pid, one));
        encode_utf8_decode_utf8(temp_mark(pid, other));
        let start = ".tmp-"@ + decimal::decimal(pid as nat) + "-"@;
        assert(temp_mark(pid, one).skip(start.len() as int) =~= decimal::decimal(one as nat));
        assert(temp_mark(pid, other).skip(start.len() as int) =~= decimal::decimal(other as nat));
        decimal::law_decimal_is_unambiguous(one as nat, other as nat);
    }
}

/// From here on the replacement asks for `action`, and where that fails it removes the new file at
/// `temp`, whatever comes of that, and ends with `what` and the reason.
pub open spec fn must_do(
    run: ControlFileRun<Seq<char>, Seq<u8>>,
    action: ControlFileAction<Seq<char>, Seq<u8>>,
    temp: Seq<u8>,
    what: Seq<char>,
) -> bool {
    &&& run.asks() == action
    &&& forall|e: Seq<char>, removed: Result<(), Seq<char>>|
        {
            &&& run.after(ControlFileEvent::Done(Err(e))).asks() == ControlFileAction::<
                Seq<char>,
                _,
            >::RemoveFile(temp)
            &&& (#[trigger] run.after(ControlFileEvent::Done(Err(e))).after(
                ControlFileEvent::Done(removed),
            )).asks() == ControlFileAction::<Seq<char>, Seq<u8>>::Return(Err(what + ": "@ + e))
        }
}

/// The replacement of a file makes its directory first, and takes a number for the name of the new
/// file where the file has a name that is text; where it has none, it ends there.
pub proof fn law_replacement_begins(
    path: Seq<u8>,
    content: Seq<u8>,
    mode: u32,
    pid: u32,
    dir: Seq<u8>,
    e: Seq<char>,
)
    requires
        dir == (match paths::parent_path(path) {
            Some(parent) => parent,
            None => encode_utf8("."@),
        }),
    ensures
        ({
            let first = ControlFileRun::started(path, content, mode, pid);
            let made = first.after(ControlFileEvent::Done(Ok(())));
            &&& first.asks() == ControlFileAction::<Seq<char>, _>::CreateDir(dir)
            &&& first.after(ControlFileEvent::Done(Err(e))).asks() == ControlFileAction::<
                Seq<char>,
                Seq<u8>,
            >::Return(Err("failed to create path "@ + utf8::lossy_text(dir) + ": "@ + e))
            &&& paths::leaf_name(path) is Some && valid_utf8(paths::leaf_name(path)->0)
                ==> made.asks() is TakeSequence && made.state == (ControlFileState::<
                Seq<char>,
                Seq<u8>,
            >::Numbering { taken: 0 })
            &&& !(paths::leaf_name(path) is Some && valid_utf8(paths::leaf_name(path)->0))
                ==> made.asks() == ControlFileAction::<Seq<char>, Seq<u8>>::Return(
                Err("control file has no UTF-8 leaf name: "@ + utf8::lossy_text(path)),
            )
        }),
{
}

/// A number makes a new file beside the file named `leaf`, under the name of that file between a
/// dot and the numbers of the process and of the attempt. A name that is in use lets the next
/// number be taken, up to thirty-two names in all; any other failure ends the replacement at once.
pub proof fn law_new_file_is_made(
    run: ControlFileRun<Seq<char>, Seq<u8>>,
    taken: usize,
    sequence: u64,
    dir: Seq<u8>,
    leaf: Seq<u8>,
    temp: Seq<u8>,
    e: Seq<char>,
)
    requires
        run.state == (ControlFileState::<Seq<char>, Seq<u8>>::Numbering { taken }),
        paths::leaf_name(run.path) == Some(leaf),
        paths::parent_path(run.path) == Some(dir),
        temp == paths::entry_path(
            dir,
            encode_utf8("."@) + leaf + encode_utf8(
                ".tmp-"@ + decimal::decimal(run.pid as nat) + "-"@ + decimal::decimal(
                    sequence as nat,
                ),
            ),
        ),
    ensures
        ({
            let making = run.after(ControlFileEvent::Sequence(sequence));
            let next = making.after(ControlFileEvent::AlreadyExists);
            &&& run.asks() is TakeSequence
            &&& making.asks() == ControlFileAction::<Seq<char>, _>::CreateTemp {
                path: temp,
                mode: run.mode,
            }
            &&& making.state == (ControlFileState::<Seq<char>, Seq<u8>>::CreatingTemp {
                taken,
                temp,
            })
            &&& making.after(ControlFileEvent::Done(Err(e))).asks() == ControlFileAction::<
                Seq<char>,
                Seq<u8>,
            >::Return(
                Err(
                    "failed to create temporary control file "@ + utf8::lossy_text(temp) + ": "@
                        + e,
                ),
            )
            &&& taken + 1 < 32 ==> next.asks() is TakeSequence && next.state == (ControlFileState::<
                Seq<char>,
                Seq<u8>,
            >::Numbering { taken: (taken + 1) as usize })
            &&& taken + 1 >= 32 ==> next.asks() == ControlFileAction::<Seq<char>, Seq<u8>>::Return(
                Err(
                    "failed to reserve a temporary control file for "@ + utf8::lossy_text(run.path)
                        + " after "@ + "32"@ + " attempts"@,
                ),
            )
        }),
{
    lemma_thirty_two();
}

proof fn lemma_thirty_two()
    ensures
        decimal::decimal(32) == "32"@,
{
    reveal_strlit("32");
    reveal_with_fuel(decimal::decimal, 3);
    assert(decimal::decimal(32) =~= "32"@);
}

/// As long as fewer than thirty-two names turned out to be in use, another one is tried, and with
/// the last of them the replacement ends.
pub proof fn law_thirty_two_names_are_tried(
    path: Seq<u8>,
    content: Seq<u8>,
    mode: u32,
    pid: u32,
    events: Seq<ControlFileEvent<Seq<char>>>,
)
    requires
        ControlFileRun::started(path, content, mode, pid).after_all(events).asks() is CreateTemp,
    ensures
        ({
            let run = ControlFileRun::started(path, content, mode, pid);
            let next = run.after_all(events).after(ControlFileEvent::AlreadyExists);
            &&& run.collisions(events) < 32
            &&& run.collisions(events) < 31 ==> next.asks() is TakeSequence
            &&& run.collisions(events) == 31 ==> next.asks() == ControlFileAction::<
                Seq<char>,
                Seq<u8>,
            >::Return(
                Err(
                    "failed to reserve a temporary control file for "@ + utf8::lossy_text(path)
                        + " after "@ + "32"@ + " attempts"@,
                ),
            )
        }),
{
    let run = ControlFileRun::started(path, content, mode, pid);
    law_attempts_are_bounded(path, content, mode, pid, events);
    lemma_run_keeps_settings(run, events);
    lemma_thirty_two();
}

/// A new file that has been made gets its access rights and its content, is brought to the disk,
/// and takes the place of the file; then the directory is brought to the disk. Where one of these
/// fails, the new file is removed, and the replacement ends with that failure.
pub proof fn law_new_file_takes_the_place(
    run: ControlFileRun<Seq<char>, Seq<u8>>,
    taken: usize,
    temp: Seq<u8>,
    dir: Seq<u8>,
)
    requires
        run.state == (ControlFileState::<Seq<char>, Seq<u8>>::CreatingTemp { taken, temp }),
        dir == (match paths::parent_path(run.path) {
            Some(parent) => parent,
            None => encode_utf8("."@),
        }),
    ensures
        ({
            let allowing = run.after(ControlFileEvent::Done(Ok(())));
            let writing = allowing.after(ControlFileEvent::Done(Ok(())));
            let syncing = writing.after(ControlFileEvent::Done(Ok(())));
            let renaming = syncing.after(ControlFileEvent::Done(Ok(())));
            let opening = renaming.after(ControlFileEvent::Done(Ok(())));
            let ending = opening.after(ControlFileEvent::Done(Ok(())));
            let over = ending.after(ControlFileEvent::Done(Ok(())));
            &&& must_do(
                allowing,
                ControlFileAction::SetMode { path: temp, mode: run.mode },
                temp,
                "failed to chmod "@ + utf8::lossy_text(temp),
            )
            &&& must_do(
                writing,
                ControlFileAction::WriteContent { path: temp, content: run.content },
                temp,
                "failed to write "@ + utf8::lossy_text(temp),
            )
            &&& must_do(
                syncing,
                ControlFileAction::SyncFile(temp),
                temp,
                "failed to sync "@ + utf8::lossy_text(temp),
            )
            &&& must_do(
                renaming,
                ControlFileAction::Rename { from: temp, to: run.path },
                temp,
                "failed to atomically replace "@ + utf8::lossy_text(run.path) + " with "@
                    + utf8::lossy_text(temp),
            )
            &&& must_do(
                opening,
                ControlFileAction::OpenDir(dir),
                temp,
                "failed to open "@ + utf8::lossy_text(dir),
            )
            &&& must_do(
                ending,
                ControlFileAction::SyncDir(dir),
                temp,
                "failed to sync "@ + utf8::lossy_text(dir),
            )
            &&& over.asks() == ControlFileAction::<Seq<char>, Seq<u8>>::Return(Ok(()))
        }),
{
}

/// What does not answer the question of a replacement changes nothing, and neither does anything
/// that it is told once it is over. What is to be written, and where, never changes. Files of the
/// service can be read by everybody and written by their owner.
pub proof fn law_replacement_hears_only_answers(
    run: ControlFileRun<Seq<char>, Seq<u8>>,
    event: ControlFileEvent<Seq<char>>,
)
    ensures
        run.after(event).path == run.path,
        run.after(event).content == run.content,
        run.after(event).mode == run.mode,
        run.after(event).pid == run.pid,
        !(match run.asks() {
            ControlFileAction::TakeSequence => event is Sequence,
            ControlFileAction::CreateTemp { path, mode } => event is Done || event is AlreadyExists,
            ControlFileAction::Return(_) => false,
            _ => event is Done,
        }) ==> run.after(event) == run,
        CONTROL_FILE_MODE == 0o644,
        CONTROL_FILE_CREATE_ATTEMPTS == 32,
{
}

/// What an action is shown to ask for is what it asks for, with everything that it holds.
pub proof fn law_action_is_shown_as_it_is(action: ControlFileAction<String, Vec<u8>>)
    ensures
        match action {
            ControlFileAction::CreateDir(dir) => action@
                == ControlFileAction::<Seq<char>, Seq<u8>>::CreateDir(dir@),
            ControlFileAction::TakeSequence => action@
                == ControlFileAction::<Seq<char>, Seq<u8>>::TakeSequence,
            ControlFileAction::CreateTemp { path, mode } => action@
                == (ControlFileAction::<Seq<char>, Seq<u8>>::CreateTemp { path: path@, mode }),
            ControlFileAction::SetMode { path, mode } => action@
                == (ControlFileAction::<Seq<char>, Seq<u8>>::SetMode { path: path@, mode }),
            ControlFileAction::WriteContent { path, content } => action@
                == (ControlFileAction::<Seq<char>, Seq<u8>>::WriteContent {
                    path: path@,
                    content: content@,
                }),
            ControlFileAction::SyncFile(path) => action@
                == ControlFileAction::<Seq<char>, Seq<u8>>::SyncFile(path@),
            ControlFileAction::Rename { from, to } => action@
                == (ControlFileAction::<Seq<char>, Seq<u8>>::Rename { from: from@, to: to@ }),
            ControlFileAction::OpenDir(dir) => action@
                == ControlFileAction::<Seq<char>, Seq<u8>>::OpenDir(dir@),
            ControlFileAction::SyncDir(dir) => action@
                == ControlFileAction::<Seq<char>, Seq<u8>>::SyncDir(dir@),
            ControlFileAction::RemoveFile(path) => action@
                == ControlFileAction::<Seq<char>, Seq<u8>>::RemoveFile(path@),
            ControlFileAction::Return(r) => action@
                == ControlFileAction::<Seq<char>, Seq<u8>>::Return(views::done_view(r)),
        },
{
}

/// What an event is shown to tell is what it tells, with everything that it holds.
pub proof fn law_event_is_shown_as_it_is(event: ControlFileEvent<String>)
    ensures
        match event {
            ControlFileEvent::Done(r) => event@
                == ControlFileEvent::<Seq<char>>::Done(views::done_view(r)),
            ControlFileEvent::Sequence(n) => event@ == ControlFileEvent::<Seq<char>>::Sequence(n),
            ControlFileEvent::AlreadyExists => event@
                == ControlFileEvent::<Seq<char>>::AlreadyExists,
        },
{
}

} // verus!
