//! The claim to a reload, which only one can hold at a time.

use crate::control_file::{self, dir_path};
use crate::paths;
use crate::utf8::{self, text_of};
use crate::views::{self, join4};
use vstd::prelude::*;
use vstd::slice::*;
use vstd::utf8::*;

verus! {

/// The access rights of the file whose lock stands for the claim.
pub const RELOAD_LOCK_MODE: u32 = 0o600;

/// The numbers that the platform gives to the error of a lock that somebody else holds.
#[derive(Clone, Copy, Debug, PartialEq, Eq, Structural)]
pub struct BusyErrors {
    /// `EWOULDBLOCK`
    pub would_block: i32,
    /// `EAGAIN`
    pub again: i32,
}

/// Where a claim stands. Texts are `T`.
#[derive(Debug)]
pub enum ClaimState<T> {
    /// The directory of the lock is being made.
    CreatingDir,
    /// The lock is being opened.
    Opening,
    /// The lock is being taken.
    Locking,
    /// The claim is held, or somebody else holds it, or it cannot be told.
    Finished(Result<bool, T>),
}

/// A claim to the reload that a progress file tells of. Texts are `T`, bytes are `B`.
#[derive(Debug)]
pub struct ClaimRun<T, B> {
    /// The numbers of the errors.
    pub busy: BusyErrors,
    /// The progress file.
    pub progress_file: B,
    /// Where the claim stands.
    pub state: ClaimState<T>,
}

/// What a claim asks for. Texts are `T`, bytes are `B`.
#[derive(Debug)]
pub enum ClaimAction<T, B> {
    /// Make this directory, and those that it lies in.
    CreateDir(B),
    /// Open this file to read and write, without following a link, and make it with these access
    /// rights where there is none.
    OpenLock { path: B, mode: u32 },
    /// Take the lock of the open file, without waiting.
    TakeLock,
    /// The claim is held, or somebody else holds it, or it cannot be told.
    Return(Result<bool, T>),
}

/// What an action of a claim came to. Texts are `T`.
#[derive(Debug)]
pub enum ClaimEvent<T> {
    /// The action succeeded or failed.
    Done(Result<(), T>),
    /// The status of the lock, the number of the error where there is one, and its text.
    Locked { status: i32, number: Option<i32>, error: T },
}

/// The view of a claim, or of why it cannot be told.
pub open spec fn claim_state_view(state: ClaimState<String>) -> ClaimState<Seq<char>> {
    match state {
        ClaimState::CreatingDir => ClaimState::CreatingDir,
        ClaimState::Opening => ClaimState::Opening,
        ClaimState::Locking => ClaimState::Locking,
        ClaimState::Finished(r) => ClaimState::Finished(views::number_view(r)),
    }
}

impl View for ClaimRun<String, Vec<u8>> {
    type V = ClaimRun<Seq<char>, Seq<u8>>;

    open spec fn view(&self) -> ClaimRun<Seq<char>, Seq<u8>> {
        ClaimRun {
            busy: self.busy,
            progress_file: self.progress_file@,
            state: claim_state_view(self.state),
        }
    }
}

impl View for ClaimAction<String, Vec<u8>> {
    type V = ClaimAction<Seq<char>, Seq<u8>>;

    open spec fn view(&self) -> ClaimAction<Seq<char>, Seq<u8>> {
        match self {
            ClaimAction::CreateDir(dir) => ClaimAction::CreateDir(dir@),
            ClaimAction::OpenLock { path, mode } => ClaimAction::OpenLock {
                path: path@,
                mode: *mode,
            },
            ClaimAction::TakeLock => ClaimAction::TakeLock,
            ClaimAction::Return(r) => ClaimAction::Return(views::number_view(*r)),
        }
    }
}

impl View for ClaimEvent<String> {
    type V = ClaimEvent<Seq<char>>;

    open spec fn view(&self) -> ClaimEvent<Seq<char>> {
        match self {
            ClaimEvent::Done(r) => ClaimEvent::Done(views::done_view(*r)),
            ClaimEvent::Locked { status, number, error } => ClaimEvent::Locked {
                status: *status,
                number: *number,
                error: error@,
            },
        }
    }
}

/// The file whose lock stands for the claim.
pub open spec fn lock_path(progress_file: Seq<u8>) -> Seq<u8> {
    progress_file + encode_utf8(".lock"@)
}

impl ClaimRun<Seq<char>, Seq<u8>> {
    /// A claim that has just been made.
    pub open spec fn started(busy: BusyErrors, progress_file: Seq<u8>) -> Self {
        ClaimRun { busy, progress_file, state: ClaimState::CreatingDir }
    }

    /// The same claim at another point.
    pub open spec fn at(self, state: ClaimState<Seq<char>>) -> Self {
        ClaimRun { state, ..self }
    }

    /// What the claim asks for.
    pub open spec fn asks(self) -> ClaimAction<Seq<char>, Seq<u8>> {
        match self.state {
            ClaimState::CreatingDir => ClaimAction::CreateDir(
                control_file::dir_of(lock_path(self.progress_file)),
            ),
            ClaimState::Opening => ClaimAction::OpenLock {
                path: lock_path(self.progress_file),
                mode: RELOAD_LOCK_MODE,
            },
            ClaimState::Locking => ClaimAction::TakeLock,
            ClaimState::Finished(r) => ClaimAction::Return(r),
        }
    }

    /// The error of this number says that somebody else holds the lock.
    pub open spec fn is_busy(self, number: Option<i32>) -> bool {
        number matches Some(n) && (n == self.busy.would_block || n == self.busy.again)
    }

    /// The claim after it has been told `event`. An event that answers nothing asked for changes
    /// nothing.
    pub open spec fn after(self, event: ClaimEvent<Seq<char>>) -> Self {
        let lock = lock_path(self.progress_file);
        match (self.state, event) {
            (ClaimState::CreatingDir, ClaimEvent::Done(Ok(()))) => self.at(ClaimState::Opening),
            (ClaimState::CreatingDir, ClaimEvent::Done(Err(e))) => self.at(
                ClaimState::Finished(
                    Err(
                        "failed to create reload lock dir "@ + utf8::lossy_text(
                            control_file::dir_of(lock),
                        ) + ": "@ + e,
                    ),
                ),
            ),
            (ClaimState::Opening, ClaimEvent::Done(Ok(()))) => self.at(ClaimState::Locking),
            (ClaimState::Opening, ClaimEvent::Done(Err(e))) => self.at(
                ClaimState::Finished(
                    Err("failed to open reload lock "@ + utf8::lossy_text(lock) + ": "@ + e),
                ),
            ),
            (ClaimState::Locking, ClaimEvent::Locked { status, number, error }) => self.at(
                ClaimState::Finished(
                    if status == 0 {
                        Ok(true)
                    } else if self.is_busy(number) {
                        Ok(false)
                    } else {
                        Err(
                            "failed to lock reload transaction "@ + utf8::lossy_text(lock) + ": "@
                                + error,
                        )
                    },
                ),
            ),
            _ => self,
        }
    }
}

/// The file whose lock stands for the claim.
fn lock_file(progress_file: &[u8]) -> (path: Vec<u8>)
    ensures
        path@ == lock_path(progress_file@),
{
    let mut path = slice_to_vec(progress_file);
    path.extend_from_slice(".lock".as_bytes());
    path
}

/// Lays claim to the reload that `progress_file` tells of.
pub fn try_acquire_reload_claim(busy: BusyErrors, progress_file: &[u8]) -> (run: ClaimRun<
    String,
    Vec<u8>,
>)
    ensures
        run@ == ClaimRun::started(busy, progress_file@),
{
    ClaimRun { busy, progress_file: slice_to_vec(progress_file), state: ClaimState::CreatingDir }
}

impl ClaimRun<String, Vec<u8>> {
    /// What the claim asks for.
    pub fn action(&self) -> (action: ClaimAction<String, Vec<u8>>)
        ensures
            action@ == self@.asks(),
    {
        let lock = lock_file(self.progress_file.as_slice());
        match &self.state {
            ClaimState::CreatingDir => ClaimAction::CreateDir(dir_path(lock.as_slice())),
            ClaimState::Opening => ClaimAction::OpenLock { path: lock, mode: RELOAD_LOCK_MODE },
            ClaimState::Locking => ClaimAction::TakeLock,
            ClaimState::Finished(Ok(held)) => ClaimAction::Return(Ok(*held)),
            ClaimState::Finished(Err(e)) => ClaimAction::Return(Err(e.clone())),
        }
    }

    /// Tells the claim what came of its action.
    pub fn tell(self, event: ClaimEvent<String>) -> (run: Self)
        ensures
            run@ == self@.after(event@),
    {
        let busy = self.busy;
        let lock = lock_file(self.progress_file.as_slice());
        let lock_text = text_of(lock.as_slice());
        let state: ClaimState<String> = match (self.state, event) {
            (ClaimState::CreatingDir, ClaimEvent::Done(Ok(()))) => ClaimState::Opening,
            (ClaimState::CreatingDir, ClaimEvent::Done(Err(e))) => {
                let dir = dir_path(lock.as_slice());
                ClaimState::Finished(
                    Err(
                        join4(
                            "failed to create reload lock dir ",
                            text_of(dir.as_slice()).as_str(),
                            ": ",
                            e.as_str(),
                        ),
                    ),
                )
            },
            (ClaimState::Opening, ClaimEvent::Done(Ok(()))) => ClaimState::Locking,
            (ClaimState::Opening, ClaimEvent::Done(Err(e))) => ClaimState::Finished(
                Err(join4("failed to open reload lock ", lock_text.as_str(), ": ", e.as_str())),
            ),
            (ClaimState::Locking, ClaimEvent::Locked { status, number, error }) => {
                let taken = match number {
                    Some(n) => n == busy.would_block || n == busy.again,
                    None => false,
                };
                if status == 0 {
                    ClaimState::Finished(Ok(true))
                } else if taken {
                    ClaimState::Finished(Ok(false))
                } else {
                    ClaimState::Finished(
                        Err(
                            join4(
                                "failed to lock reload transaction ",
                                lock_text.as_str(),
                                ": ",
                                error.as_str(),
                            ),
                        ),
                    )
                }
            },
            (other, _) => other,
        };
        ClaimRun { busy, progress_file: self.progress_file, state }
    }
}

/// The lock decides the claim: it is held if and only if the lock was taken, and somebody else
/// holds it if and only if the lock was not taken because somebody else holds that. Whatever is
/// told then changes nothing.
pub proof fn law_lock_decides_the_claim(
    run: ClaimRun<Seq<char>, Seq<u8>>,
    status: i32,
    number: Option<i32>,
    error: Seq<char>,
    later: ClaimEvent<Seq<char>>,
)
    requires
        run.state is Locking,
    ensures
        ({
            let told = run.after(ClaimEvent::Locked { status, number, error });
            &&& told.asks() is Return
            &&& told.asks() == ClaimAction::<Seq<char>, Seq<u8>>::Return(Ok(true)) <==> status == 0
            &&& told.asks() == ClaimAction::<Seq<char>, Seq<u8>>::Return(Ok(false)) <==> status != 0
                && run.is_busy(number)
            &&& told.after(later) == told
        }),
{
}

/// A claim, from its first action to its last: the directory of the lock is made, the lock is
/// opened, and taken. The lock lies beside the progress file, under its name and `.lock`. Each of
/// these fails with the path that it was about.
pub proof fn law_claim_goes_its_way(
    busy: BusyErrors,
    progress_file: Seq<u8>,
    lock: Seq<u8>,
    dir: Seq<u8>,
    e: Seq<char>,
    status: i32,
    number: Option<i32>,
)
    requires
        lock == progress_file + encode_utf8(".lock"@),
        dir == (match paths::parent_path(lock) {
            Some(parent) => parent,
            None => encode_utf8("."@),
        }),
    ensures
        ({
            let first = ClaimRun::started(busy, progress_file);
            let second = first.after(ClaimEvent::Done(Ok(())));
            let third = second.after(ClaimEvent::Done(Ok(())));
            let over = third.after(ClaimEvent::Locked { status, number, error: e });
            &&& first.asks() == ClaimAction::<Seq<char>, _>::CreateDir(dir)
            &&& first.after(ClaimEvent::Done(Err(e))).asks() == ClaimAction::<
                Seq<char>,
                Seq<u8>,
            >::Return(
                Err("failed to create reload lock dir "@ + utf8::lossy_text(dir) + ": "@ + e),
            )
            &&& second.asks() == ClaimAction::<Seq<char>, _>::OpenLock { path: lock, mode: 0o600 }
            &&& second.after(ClaimEvent::Done(Err(e))).asks() == ClaimAction::<
                Seq<char>,
                Seq<u8>,
            >::Return(Err("failed to open reload lock "@ + utf8::lossy_text(lock) + ": "@ + e))
            &&& third.asks() is TakeLock
            &&& status == 0 ==> over.asks() == ClaimAction::<Seq<char>, Seq<u8>>::Return(Ok(true))
            &&& status != 0 && (number == Some(busy.would_block) || number == Some(busy.again))
                ==> over.asks() == ClaimAction::<Seq<char>, Seq<u8>>::Return(Ok(false))
            &&& status != 0 && number != Some(busy.would_block) && number != Some(busy.again)
                ==> over.asks() == ClaimAction::<Seq<char>, Seq<u8>>::Return(
                Err(
                    "failed to lock reload transaction "@ + utf8::lossy_text(lock) + ": "@ + e,
                ),
            )
        }),
{
}

/// What does not answer the question of a claim changes nothing, and neither does anything that it
/// is told once it is over.
pub proof fn law_claim_hears_only_answers(
    run: ClaimRun<Seq<char>, Seq<u8>>,
    event: ClaimEvent<Seq<char>>,
)
    ensures
        run.after(event).busy == run.busy,
        run.after(event).progress_file == run.progress_file,
        !(match run.asks() {
            ClaimAction::CreateDir(_) => event is Done,
            ClaimAction::OpenLock { path, mode } => event is Done,
            ClaimAction::TakeLock => event is Locked,
            ClaimAction::Return(_) => false,
        }) ==> run.after(event) == run,
{
}

/// What an action is shown to ask for is what it asks for, with everything that it holds.
pub proof fn law_action_is_shown_as_it_is(action: ClaimAction<String, Vec<u8>>)
    ensures
        match action {
            ClaimAction::CreateDir(dir) => action@
                == ClaimAction::<Seq<char>, Seq<u8>>::CreateDir(dir@),
            ClaimAction::OpenLock { path, mode } => action@
                == (ClaimAction::<Seq<char>, Seq<u8>>::OpenLock { path: path@, mode }),
            ClaimAction::TakeLock => action@ == ClaimAction::<Seq<char>, Seq<u8>>::TakeLock,
            ClaimAction::Return(r) => action@
                == ClaimAction::<Seq<char>, Seq<u8>>::Return(views::number_view(r)),
        },
{
}

/// What an event is shown to tell is what it tells, with everything that it holds.
pub proof fn law_event_is_shown_as_it_is(event: ClaimEvent<String>)
    ensures
        match event {
            ClaimEvent::Done(r) => event@ == ClaimEvent::<Seq<char>>::Done(views::done_view(r)),
            ClaimEvent::Locked { status, number, error } => event@
                == (ClaimEvent::<Seq<char>>::Locked { status, number, error: error@ }),
        },
{
}

} // verus!
