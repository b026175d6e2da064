//! What the service manager is told, and where.

use crate::views::{self, copy_bytes, copy_done, join2};
use vstd::prelude::*;
use vstd::slice::*;
use vstd::utf8::*;

verus! {

/// What the service manager is told.
#[derive(Clone, Copy, Debug, PartialEq, Eq, Structural)]
pub enum Notice {
    /// The service is up, or up again.
    Ready,
    /// The service is reloading.
    Reloading,
    /// The service is going down.
    Stopping,
}

impl Notice {
    /// The message.
    pub open spec fn message(self) -> Seq<char> {
        match self {
            Notice::Ready => "READY=1"@,
            Notice::Reloading => "RELOADING=1"@,
            Notice::Stopping => "STOPPING=1"@,
        }
    }

    /// The message.
    pub fn text(self) -> (text: &'static str)
        ensures
            text@ == self.message(),
    {
        match self {
            Notice::Ready => "READY=1",
            Notice::Reloading => "RELOADING=1",
            Notice::Stopping => "STOPPING=1",
        }
    }
}

/// Where a message to the service manager stands. Texts are `T`, bytes are `B`.
#[derive(Debug)]
pub enum NotifyState<T, B> {
    /// A socket to send from is being made, for a name in the abstract namespace.
    CreatingForName { name: B },
    /// A socket to send from is being made, for a path.
    CreatingForPath { path: T },
    /// A socket to send from is being made, though there is no abstract namespace.
    CreatingInVain,
    /// The name in the abstract namespace is being looked at.
    Naming { name: B },
    /// The message is being sent to the name in the abstract namespace.
    SendingToName,
    /// The message is being sent to a path.
    SendingToPath { path: T },
    /// The message is sent, or lost.
    Finished(Result<(), T>),
}

/// A message to the service manager. Texts are `T`, bytes are `B`.
#[derive(Debug)]
pub struct NotifyRun<T, B> {
    /// The message.
    pub notice: Notice,
    /// Where it stands.
    pub state: NotifyState<T, B>,
}

/// What a message to the service manager asks for. Texts are `T`, bytes are `B`.
#[derive(Debug)]
pub enum NotifyAction<T, B> {
    /// Make a socket to send from.
    CreateSocket,
    /// Make an address of this name in the abstract namespace.
    ParseName(B),
    /// Send the message to the address that was made.
    SendToName(Notice),
    /// Send the message to this path.
    SendToPath { path: T, notice: Notice },
    /// The message is sent, or lost.
    Return(Result<(), T>),
}

/// The view of where a message stands.
pub open spec fn notify_state_view(state: NotifyState<String, Vec<u8>>) -> NotifyState<
    Seq<char>,
    Seq<u8>,
> {
    match state {
        NotifyState::CreatingForName { name } => NotifyState::CreatingForName { name: name@ },
        NotifyState::CreatingForPath { path } => NotifyState::CreatingForPath { path: path@ },
        NotifyState::CreatingInVain => NotifyState::CreatingInVain,
        NotifyState::Naming { name } => NotifyState::Naming { name: name@ },
        NotifyState::SendingToName => NotifyState::SendingToName,
        NotifyState::SendingToPath { path } => NotifyState::SendingToPath { path: path@ },
        NotifyState::Finished(r) => NotifyState::Finished(views::done_view(r)),
    }
}

impl View for NotifyRun<String, Vec<u8>> {
    type V = NotifyRun<Seq<char>, Seq<u8>>;

    open spec fn view(&self) -> NotifyRun<Seq<char>, Seq<u8>> {
        NotifyRun { notice: self.notice, state: notify_state_view(self.state) }
    }
}

impl View for NotifyAction<String, Vec<u8>> {
    type V = NotifyAction<Seq<char>, Seq<u8>>;

    open spec fn view(&self) -> NotifyAction<Seq<char>, Seq<u8>> {
        match self {
            NotifyAction::CreateSocket => NotifyAction::CreateSocket,
            NotifyAction::ParseName(name) => NotifyAction::ParseName(name@),
            NotifyAction::SendToName(notice) => NotifyAction::SendToName(*notice),
            NotifyAction::SendToPath { path, notice } => NotifyAction::SendToPath {
                path: path@,
                notice: *notice,
            },
            NotifyAction::Return(r) => NotifyAction::Return(views::done_view(*r)),
        }
    }
}

impl NotifyRun<Seq<char>, Seq<u8>> {
    /// A message that is about to be sent, given the address that the service manager has set, if
    /// any, and whether there is an abstract namespace. An address with an at sign in front is a
    /// name in that namespace, and any other is a path.
    pub open spec fn started(
        address: Option<Seq<char>>,
        abstract_names: bool,
        notice: Notice,
    ) -> Self {
        NotifyRun {
            notice,
            state: match address {
                None => NotifyState::Finished(Ok(())),
                Some(a) => if a.len() > 0 && a[0] == '@' {
                    if abstract_names {
                        NotifyState::CreatingForName { name: encode_utf8(a).skip(1) }
                    } else {
                        NotifyState::CreatingInVain
                    }
                } else {
                    NotifyState::CreatingForPath { path: a }
                },
            },
        }
    }

    /// The same message at another point.
    pub open spec fn at(self, state: NotifyState<Seq<char>, Seq<u8>>) -> Self {
        NotifyRun { state, ..self }
    }

    /// The message where its action came to `done`: it goes on at `next`, or it is lost, which is
    /// told with `what` in front of the reason.
    pub open spec fn went(
        self,
        done: Result<(), Seq<char>>,
        next: NotifyState<Seq<char>, Seq<u8>>,
        what: Seq<char>,
    ) -> Self {
        match done {
            Ok(()) => self.at(next),
            Err(e) => self.at(NotifyState::Finished(Err(what + e))),
        }
    }

    /// What the message asks for.
    pub open spec fn asks(self) -> NotifyAction<Seq<char>, Seq<u8>> {
        match self.state {
            NotifyState::CreatingForName { name } => NotifyAction::CreateSocket,
            NotifyState::CreatingForPath { path } => NotifyAction::CreateSocket,
            NotifyState::CreatingInVain => NotifyAction::CreateSocket,
            NotifyState::Naming { name } => NotifyAction::ParseName(name),
            NotifyState::SendingToName => NotifyAction::SendToName(self.notice),
            NotifyState::SendingToPath { path } => NotifyAction::SendToPath {
                path,
                notice: self.notice,
            },
            NotifyState::Finished(r) => NotifyAction::Return(r),
        }
    }

    /// The message after its action came to `done`.
    pub open spec fn after(self, done: Result<(), Seq<char>>) -> Self {
        match self.state {
            NotifyState::CreatingForName { name } => self.went(
                done,
                NotifyState::Naming { name },
                "failed to create notify socket: "@,
            ),
            NotifyState::CreatingForPath { path } => self.went(
                done,
                NotifyState::SendingToPath { path },
                "failed to create notify socket: "@,
            ),
            NotifyState::CreatingInVain => self.went(
                done,
                NotifyState::Finished(
                    Err("abstract systemd notify sockets are unsupported on this platform"@),
                ),
                "failed to create notify socket: "@,
            ),
            NotifyState::Naming { name } => self.went(
                done,
                NotifyState::SendingToName,
                "failed to parse abstract notify socket: "@,
            ),
            NotifyState::SendingToName => self.went(
                done,
                NotifyState::Finished(Ok(())),
                "failed to notify systemd: "@,
            ),
            NotifyState::SendingToPath { path } => self.went(
                done,
                NotifyState::Finished(Ok(())),
                "failed to notify systemd: "@,
            ),
            NotifyState::Finished(r) => self,
        }
    }
}

/// Text that is not empty is encoded by bytes that are not empty.
proof fn lemma_encoding_is_not_shorter(text: Seq<char>)
    requires
        text.len() > 0,
    ensures
        encode_utf8(text).len() > 0,
{
    encode_utf8_decode_utf8(text);
    if encode_utf8(text).len() == 0 {
        assert(decode_utf8(encode_utf8(text)).len() == 0);
    }
}

/// Where a message goes on when its action came to `done`.
fn go_on(done: Result<(), String>, next: NotifyState<String, Vec<u8>>, what: &str) -> (state:
    NotifyState<String, Vec<u8>>)
    ensures
        notify_state_view(state) == (match done {
            Ok(()) => notify_state_view(next),
            Err(e) => NotifyState::Finished(Err(what@ + e@)),
        }),
{
    match done {
        Ok(()) => next,
        Err(e) => NotifyState::Finished(Err(join2(what, e.as_str()))),
    }
}

/// Begins to send a message to the service manager, given the address that it has set, if any, and
/// whether there is an abstract namespace.
pub fn notify_systemd(address: Option<&str>, abstract_names: bool, notice: Notice) -> (run: NotifyRun<
    String,
    Vec<u8>,
>)
    ensures
        run@ == NotifyRun::started(views::maybe_str_view(address), abstract_names, notice),
{
    let state: NotifyState<String, Vec<u8>> = match address {
        None => NotifyState::Finished(Ok(())),
        Some(a) => {
            if a.unicode_len() > 0 && a.get_char(0) == '@' {
                if abstract_names {
                    let bytes = a.as_bytes();
                    proof {
                        lemma_encoding_is_not_shorter(a@);
                    }
                    let name = slice_to_vec(slice_subrange(bytes, 1, bytes.len()));
                    assert(name@ =~= encode_utf8(a@).skip(1));
                    NotifyState::CreatingForName { name }
                } else {
                    NotifyState::CreatingInVain
                }
            } else {
                NotifyState::CreatingForPath { path: a.to_owned() }
            }
        },
    };
    NotifyRun { notice, state }
}

impl NotifyRun<String, Vec<u8>> {
    /// What the message asks for.
    pub fn action(&self) -> (action: NotifyAction<String, Vec<u8>>)
        ensures
            action@ == self@.asks(),
    {
        match &self.state {
            NotifyState::CreatingForName { name } => NotifyAction::CreateSocket,
            NotifyState::CreatingForPath { path } => NotifyAction::CreateSocket,
            NotifyState::CreatingInVain => NotifyAction::CreateSocket,
            NotifyState::Naming { name } => NotifyAction::ParseName(copy_bytes(name)),
            NotifyState::SendingToName => NotifyAction::SendToName(self.notice),
            NotifyState::SendingToPath { path } => NotifyAction::SendToPath {
                path: path.clone(),
                notice: self.notice,
            },
            NotifyState::Finished(r) => NotifyAction::Return(copy_done(r)),
        }
    }

    /// Tells the message what came of its action.
    pub fn tell(self, done: Result<(), String>) -> (run: Self)
        ensures
            run@ == self@.after(views::done_view(done)),
    {
        let state: NotifyState<String, Vec<u8>> = match self.state {
            NotifyState::CreatingForName { name } => go_on(
                done,
                NotifyState::Naming { name },
                "failed to create notify socket: ",
            ),
            NotifyState::CreatingForPath { path } => go_on(
                done,
                NotifyState::SendingToPath { path },
                "failed to create notify socket: ",
            ),
            NotifyState::CreatingInVain => go_on(
                done,
                NotifyState::Finished(
                    Err(
                        "abstract systemd notify sockets are unsupported on this platform".to_owned(),
                    ),
                ),
                "failed to create notify socket: ",
            ),
            NotifyState::Naming { name } => go_on(
                done,
                NotifyState::SendingToName,
                "failed to parse abstract notify socket: ",
            ),
            NotifyState::SendingToName => go_on(
                done,
                NotifyState::Finished(Ok(())),
                "failed to notify systemd: ",
            ),
            NotifyState::SendingToPath { path } => go_on(
                done,
                NotifyState::Finished(Ok(())),
                "failed to notify systemd: ",
            ),
            NotifyState::Finished(r) => NotifyState::Finished(r),
        };
        NotifyRun { notice: self.notice, state }
    }
}

/// A service manager that has set no address is told nothing, and that is no failure; one that has
/// set a path, or a name where there are such, is sent the message, where nothing fails.
pub proof fn law_notice_is_sent_where_somebody_listens(
    address: Seq<char>,
    abstract_names: bool,
    notice: Notice,
)
    ensures
        ({
            let nobody = NotifyRun::started(None, abstract_names, notice);
            let first = NotifyRun::started(Some(address), abstract_names, notice);
            let second = first.after(Ok(()));
            let third = second.after(Ok(()));
            let sent = NotifyAction::<Seq<char>, Seq<u8>>::Return(Ok(()));
            &&& nobody.asks() == sent
            &&& first.asks() is CreateSocket
            &&& if address.len() == 0 || address[0] != '@' {
                &&& second.asks() == (NotifyAction::<Seq<char>, Seq<u8>>::SendToPath {
                    path: address,
                    notice,
                })
                &&& third.asks() == sent
            } else if abstract_names {
                &&& second.asks() == NotifyAction::<Seq<char>, Seq<u8>>::ParseName(
                    encode_utf8(address).skip(1),
                )
                &&& third.asks() == NotifyAction::<Seq<char>, Seq<u8>>::SendToName(notice)
                &&& third.after(Ok(())).asks() == sent
            } else {
                second.asks() is Return && second.asks() != sent
            }
        }),
{
}

/// Each notice has its own words.
pub proof fn law_notices_have_their_words()
    ensures
        Notice::Ready.message() == "READY=1"@,
        Notice::Reloading.message() == "RELOADING=1"@,
        Notice::Stopping.message() == "STOPPING=1"@,
{
}

/// Whatever fails on the way of a message is told with what was being done: a socket could not be
/// made, a name could not be taken as an address, or the message could not be sent. A name where
/// there are no such names is refused once there is a socket. A message that is over stays so.
pub proof fn law_lost_notice_says_why(
    address: Seq<char>,
    abstract_names: bool,
    notice: Notice,
    e: Seq<char>,
    later: Result<(), Seq<char>>,
)
    ensures
        ({
            let first = NotifyRun::started(Some(address), abstract_names, notice);
            let second = first.after(Ok(()));
            let third = second.after(Ok(()));
            let no_socket = NotifyAction::<Seq<char>, Seq<u8>>::Return(
                Err("failed to create notify socket: "@ + e),
            );
            let not_sent = NotifyAction::<Seq<char>, Seq<u8>>::Return(
                Err("failed to notify systemd: "@ + e),
            );
            &&& first.after(Err(e)).asks() == no_socket
            &&& address.len() == 0 || address[0] != '@' ==> second.after(Err(e)).asks() == not_sent
            &&& address.len() > 0 && address[0] == '@' && abstract_names ==> second.after(
                Err(e),
            ).asks() == NotifyAction::<Seq<char>, Seq<u8>>::Return(
                Err("failed to parse abstract notify socket: "@ + e),
            ) && third.after(Err(e)).asks() == not_sent
            &&& address.len() > 0 && address[0] == '@' && !abstract_names ==> second.asks()
                == NotifyAction::<Seq<char>, Seq<u8>>::Return(
                Err("abstract systemd notify sockets are unsupported on this platform"@),
            )
        }),
        forall|run: NotifyRun<Seq<char>, Seq<u8>>|
            run.asks() is Return ==> #[trigger] run.after(later) == run,
{
}

/// What an action is shown to ask for is what it asks for, with everything that it holds.
pub proof fn law_action_is_shown_as_it_is(action: NotifyAction<String, Vec<u8>>)
    ensures
        match action {
            NotifyAction::CreateSocket => action@
                == NotifyAction::<Seq<char>, Seq<u8>>::CreateSocket,
            NotifyAction::ParseName(name) => action@
                == NotifyAction::<Seq<char>, Seq<u8>>::ParseName(name@),
            NotifyAction::SendToName(notice) => action@
                == NotifyAction::<Seq<char>, Seq<u8>>::SendToName(notice),
            NotifyAction::SendToPath { path, notice } => action@
                == (NotifyAction::<Seq<char>, Seq<u8>>::SendToPath { path: path@, notice }),
            NotifyAction::Return(r) => action@
                == NotifyAction::<Seq<char>, Seq<u8>>::Return(views::done_view(r)),
        },
{
}

} // verus!
