//! The per-connection session state machine.
//!
//! A session owns the connection's state: the current directory (a rooted
//! logical path under the server root), the claimed identity, and the data
//! channel. `handle_cmd` maps a parsed command to a reply or to an order for
//! the adapter around this library — open a passive listener, canonicalize a
//! path, transfer a listing — and the completion methods take the outside
//! outcome back in. Every transition is pinned, step for step, to the
//! specification function `spec_handle` and its companions, so the protocol
//! engine itself carries no I/O at all.

use vstd::prelude::*;
use vstd::string::StringSliceAdditionalSpecFns;
use crate::ascii::{dec_rep, push_decimal, append_bytes, append_str_bytes, subvec, QUOTE, COMMA,
    BANG};
use crate::command::{Command, CommandView};
use crate::path::{rooted, root_path, in_root, rel_of, spec_join, spec_parent, join_candidate,
    parent_of, check_under_root};
use crate::reply::{Reply, ReplyView, ResultCode};

verus! {

/// The port of the passive-mode listener.
pub const PASV_PORT: u16 = 43210;

/// The state of the session's one data channel.
#[derive(Debug, Clone, Copy, PartialEq, Eq, Structural)]
pub enum DataChannel {
    /// No data channel.
    Idle,
    /// A passive listener is bound and waiting for the one peer.
    Listening,
    /// A peer is connected and a transfer may run.
    Connected,
}

/// Per-connection state.
#[derive(Debug)]
pub struct Session {
    /// The current directory: a rooted logical path under the server root.
    pub cwd: Vec<u8>,
    /// The claimed identity, unauthenticated by design.
    pub name: Option<Vec<u8>>,
    /// The data channel.
    pub chan: DataChannel,
}

/// The mathematical value of a `Session`.
#[verifier::ext_equal]
pub ghost struct SessionView {
    /// Current directory bytes.
    pub cwd: Seq<u8>,
    /// Claimed identity.
    pub name: Option<Seq<u8>>,
    /// Data-channel state.
    pub chan: DataChannel,
}

impl View for Session {
    type V = SessionView;

    open spec fn view(&self) -> SessionView {
        SessionView {
            cwd: self.cwd@,
            name: match self.name {
                Some(ref n) => Some(n@),
                None => None,
            },
            chan: self.chan,
        }
    }
}

/// A session is well formed when its current directory is a rooted path.
pub open spec fn session_wf(s: SessionView) -> bool {
    rooted(s.cwd)
}

/// What handling one command asks of the adapter.
#[derive(Debug)]
pub enum HandleOutcome {
    /// Send the reply; nothing else to do.
    Done(Reply),
    /// Send the reply, bind the passive listener, wait (bounded) for one
    /// peer, then report back through `pasv_complete`.
    OpenPassive(Reply),
    /// Canonicalize the candidate against the server root, then hand the
    /// result to `cwd_apply` and send the reply it returns.
    ResolveCwd(Vec<u8>),
    /// Send the reply, resolve the candidate, write the listing of the
    /// resolved directory to the data channel, then close it through
    /// `list_complete` (or `list_abort` when resolution fails).
    SendListing(Reply, Vec<u8>),
}

/// The mathematical value of a `HandleOutcome`.
#[verifier::ext_equal]
pub ghost enum OutcomeView {
    /// See `HandleOutcome::Done`.
    Done(ReplyView),
    /// See `HandleOutcome::OpenPassive`.
    OpenPassive(ReplyView),
    /// See `HandleOutcome::ResolveCwd`.
    ResolveCwd(Seq<u8>),
    /// See `HandleOutcome::SendListing`.
    SendListing(ReplyView, Seq<u8>),
}

impl View for HandleOutcome {
    type V = OutcomeView;

    open spec fn view(&self) -> OutcomeView {
        match self {
            HandleOutcome::Done(rep) => OutcomeView::Done(rep@),
            HandleOutcome::OpenPassive(rep) => OutcomeView::OpenPassive(rep@),
            HandleOutcome::ResolveCwd(cand) => OutcomeView::ResolveCwd(cand@),
            HandleOutcome::SendListing(rep, cand) => OutcomeView::SendListing(rep@, cand@),
        }
    }
}

/// The passive-mode reply message: the four decimal octets of the server's
/// IPv4 address and the two decimal port bytes, comma-separated.
pub open spec fn spec_pasv_message(port: u16) -> Seq<u8> {
    "127,0,0,1,".spec_bytes() + dec_rep((port / 256) as nat) + seq![COMMA] + dec_rep(
        (port % 256) as nat,
    )
}

/// The directory a `LIST` is about: the argument joined onto the current
/// directory, or the current directory itself when there is no argument.
pub open spec fn spec_list_target(cwd: Seq<u8>, arg: Option<Seq<u8>>) -> Seq<u8> {
    match arg {
        Some(p) => if p.len() == 0 {
            cwd
        } else {
            spec_join(cwd, p)
        },
        None => cwd,
    }
}

/// What handling a command does: the session afterwards and the outcome.
/// This is the whole protocol table of the engine.
pub open spec fn spec_handle(s: SessionView, c: CommandView) -> (SessionView, OutcomeView) {
    match c {
        CommandView::Auth => (
            s,
            OutcomeView::Done(
                ReplyView {
                    code: ResultCode::CommandNotImplemented,
                    message: "Not implemented".spec_bytes(),
                },
            ),
        ),
        CommandView::Syst => (
            s,
            OutcomeView::Done(
                ReplyView { code: ResultCode::CommandOkay, message: "I won't tell".spec_bytes() },
            ),
        ),
        CommandView::User(name) => if name.len() == 0 {
            (
                s,
                OutcomeView::Done(
                    ReplyView {
                        code: ResultCode::InvalidParameterOrArgument,
                        message: "Invalid username".spec_bytes(),
                    },
                ),
            )
        } else {
            (
                SessionView { name: Some(name), ..s },
                OutcomeView::Done(
                    ReplyView {
                        code: ResultCode::UserLoggedIn,
                        message: "Welcome ".spec_bytes() + name + seq![BANG],
                    },
                ),
            )
        },
        CommandView::Cwd(path) => if path.len() == 0 {
            (
                s,
                OutcomeView::Done(
                    ReplyView {
                        code: ResultCode::InvalidParameterOrArgument,
                        message: "No path given".spec_bytes(),
                    },
                ),
            )
        } else {
            (s, OutcomeView::ResolveCwd(spec_join(s.cwd, path)))
        },
        CommandView::Pwd => (
            s,
            OutcomeView::Done(
                ReplyView {
                    code: ResultCode::PATHNAMECreated,
                    message: seq![QUOTE] + s.cwd + seq![QUOTE],
                },
            ),
        ),
        CommandView::Noop => (
            s,
            OutcomeView::Done(
                ReplyView {
                    code: ResultCode::CommandOkay,
                    message: "Doing nothing...".spec_bytes(),
                },
            ),
        ),
        CommandView::Type => (
            s,
            OutcomeView::Done(
                ReplyView {
                    code: ResultCode::CommandOkay,
                    message: "Transfer type changed successfully".spec_bytes(),
                },
            ),
        ),
        CommandView::Pasv => if s.chan is Idle {
            (
                SessionView { chan: DataChannel::Listening, ..s },
                OutcomeView::OpenPassive(
                    ReplyView {
                        code: ResultCode::EnteringPassiveMode,
                        message: spec_pasv_message(PASV_PORT),
                    },
                ),
            )
        } else {
            (
                s,
                OutcomeView::Done(
                    ReplyView {
                        code: ResultCode::DataConnectionAlreadyOpen,
                        message: "Already listening".spec_bytes(),
                    },
                ),
            )
        },
        CommandView::CdUp => (
            SessionView { cwd: spec_parent(s.cwd), ..s },
            OutcomeView::Done(
                ReplyView { code: ResultCode::CommandOkay, message: "Done".spec_bytes() },
            ),
        ),
        CommandView::List(arg) => if s.chan is Connected {
            (
                s,
                OutcomeView::SendListing(
                    ReplyView {
                        code: ResultCode::DataConnectionAlreadyOpen,
                        message: "Starting to list directory".spec_bytes(),
                    },
                    spec_list_target(s.cwd, arg),
                ),
            )
        } else {
            (
                s,
                OutcomeView::Done(
                    ReplyView {
                        code: ResultCode::ConnectionClosed,
                        message: "No opened data connection".spec_bytes(),
                    },
                ),
            )
        },
        CommandView::Unknown(_) => (
            s,
            OutcomeView::Done(
                ReplyView {
                    code: ResultCode::UnknownCommand,
                    message: "Unknown command".spec_bytes(),
                },
            ),
        ),
    }
}

/// What completing a passive-mode accept does: a peer makes the channel
/// `Connected` silently; no peer reverts it to `Idle` with a failure reply.
pub open spec fn spec_pasv_complete(s: SessionView, accepted: bool) -> (
    SessionView,
    Option<ReplyView>,
) {
    if accepted {
        (SessionView { chan: DataChannel::Connected, ..s }, None)
    } else {
        (
            SessionView { chan: DataChannel::Idle, ..s },
            Some(
                ReplyView {
                    code: ResultCode::ServiceNotAvailable,
                    message: "issues happen...".spec_bytes(),
                },
            ),
        )
    }
}

/// What applying a canonicalization result to a `CWD` does: a canonical path
/// inside the root becomes the new current directory; everything else — a
/// failed canonicalization or a path outside the root — leaves the session
/// unchanged and is answered "not found", which deliberately does not reveal
/// whether the path exists.
pub open spec fn spec_cwd_apply(s: SessionView, root: Seq<u8>, canon: Option<Seq<u8>>) -> (
    SessionView,
    ReplyView,
) {
    match canon {
        Some(c) => if rooted(root) && in_root(root, c) {
            (
                SessionView { cwd: rel_of(root, c), ..s },
                ReplyView {
                    code: ResultCode::CommandOkay,
                    message: "Directory changed to \"".spec_bytes() + rel_of(root, c)
                        + seq![QUOTE],
                },
            )
        } else {
            (
                s,
                ReplyView {
                    code: ResultCode::FileNotFound,
                    message: "No such file or directory".spec_bytes(),
                },
            )
        },
        None => (
            s,
            ReplyView {
                code: ResultCode::FileNotFound,
                message: "No such file or directory".spec_bytes(),
            },
        ),
    }
}

/// Builds the byte vector of a literal message.
fn msg(s: &str) -> (r: Vec<u8>)
    ensures
        r@ == s.spec_bytes(),
{
    let mut m: Vec<u8> = Vec::new();
    append_str_bytes(&mut m, s);
    assert(m@ =~= s.spec_bytes());
    m
}

impl Session {
    /// A fresh session: at the server root, anonymous, no data channel.
    pub fn new() -> (s: Session)
        ensures
            s@.cwd == root_path(),
            s@.name is None,
            s@.chan is Idle,
            session_wf(s@),
    {
        let mut cwd: Vec<u8> = Vec::new();
        cwd.push(crate::ascii::SLASH);
        assert(cwd@ =~= root_path());
        Session { cwd, name: None, chan: DataChannel::Idle }
    }

    /// Dispatches one command (see `spec_handle`). Every command yields
    /// exactly one outcome; nothing here performs I/O.
    pub fn handle_cmd(&mut self, cmd: Command) -> (r: HandleOutcome)
        ensures
            (final(self)@, r@) == spec_handle(old(self)@, cmd@),
    {
        let ghost cmdv = cmd@;
        match cmd {
            Command::Auth => HandleOutcome::Done(
                Reply::new(ResultCode::CommandNotImplemented, msg("Not implemented")),
            ),
            Command::Syst => HandleOutcome::Done(
                Reply::new(ResultCode::CommandOkay, msg("I won't tell")),
            ),
            Command::User(name) => {
                if name.len() == 0 {
                    HandleOutcome::Done(
                        Reply::new(ResultCode::InvalidParameterOrArgument, msg("Invalid username")),
                    )
                } else {
                    let mut m = msg("Welcome ");
                    append_bytes(&mut m, name.as_slice());
                    m.push(BANG);
                    assert(m@ =~= "Welcome ".spec_bytes() + name@ + seq![BANG]);
                    self.name = Some(name);
                    HandleOutcome::Done(Reply::new(ResultCode::UserLoggedIn, m))
                }
            },
            Command::Cwd(path) => {
                if path.len() == 0 {
                    HandleOutcome::Done(
                        Reply::new(ResultCode::InvalidParameterOrArgument, msg("No path given")),
                    )
                } else {
                    HandleOutcome::ResolveCwd(join_candidate(&self.cwd, &path))
                }
            },
            Command::Pwd => {
                let mut m: Vec<u8> = Vec::new();
                m.push(QUOTE);
                append_bytes(&mut m, self.cwd.as_slice());
                m.push(QUOTE);
                assert(m@ =~= seq![QUOTE] + self@.cwd + seq![QUOTE]);
                HandleOutcome::Done(Reply::new(ResultCode::PATHNAMECreated, m))
            },
            Command::Noop => HandleOutcome::Done(
                Reply::new(ResultCode::CommandOkay, msg("Doing nothing...")),
            ),
            Command::Type => HandleOutcome::Done(
                Reply::new(ResultCode::CommandOkay, msg("Transfer type changed successfully")),
            ),
            Command::Pasv => {
                match self.chan {
                    DataChannel::Idle => {
                        self.chan = DataChannel::Listening;
                        HandleOutcome::OpenPassive(
                            Reply::new(
                                ResultCode::EnteringPassiveMode,
                                encode_pasv_message(PASV_PORT),
                            ),
                        )
                    },
                    _ => HandleOutcome::Done(
                        Reply::new(ResultCode::DataConnectionAlreadyOpen, msg("Already listening")),
                    ),
                }
            },
            Command::CdUp => {
                let parent = parent_of(&self.cwd);
                self.cwd = parent;
                HandleOutcome::Done(Reply::new(ResultCode::CommandOkay, msg("Done")))
            },
            Command::List(arg) => {
                match self.chan {
                    DataChannel::Connected => {
                        let target: Vec<u8> = match &arg {
                            Some(p) => if p.len() == 0 {
                                subvec(&self.cwd, 0, self.cwd.len())
                            } else {
                                join_candidate(&self.cwd, p)
                            },
                            None => subvec(&self.cwd, 0, self.cwd.len()),
                        };
                        proof {
                            let argv = match cmdv {
                                CommandView::List(a) => a,
                                _ => None,
                            };
                            assert(target@ =~= spec_list_target(self@.cwd, argv));
                        }
                        HandleOutcome::SendListing(
                            Reply::new(
                                ResultCode::DataConnectionAlreadyOpen,
                                msg("Starting to list directory"),
                            ),
                            target,
                        )
                    },
                    _ => HandleOutcome::Done(
                        Reply::new(
                            ResultCode::ConnectionClosed,
                            msg("No opened data connection"),
                        ),
                    ),
                }
            },
            Command::Unknown(_) => HandleOutcome::Done(
                Reply::new(ResultCode::UnknownCommand, msg("Unknown command")),
            ),
        }
    }

    /// Takes back the outcome of the passive-mode accept the adapter ran
    /// after `OpenPassive` (see `spec_pasv_complete`). The listener is
    /// single-use: accepted or not, it is closed by now, so the channel
    /// never stays `Listening`.
    pub fn pasv_complete(&mut self, accepted: bool) -> (r: Option<Reply>)
        requires
            old(self)@.chan is Listening,
        ensures
            (final(self)@, match r {
                Some(rep) => Some(rep@),
                None => None,
            }) == spec_pasv_complete(old(self)@, accepted),
    {
        if accepted {
            self.chan = DataChannel::Connected;
            None
        } else {
            self.chan = DataChannel::Idle;
            Some(Reply::new(ResultCode::ServiceNotAvailable, msg("issues happen...")))
        }
    }

    /// Takes back the canonicalization the adapter ran for a `CWD` (see
    /// `spec_cwd_apply`): `canon` is the canonical filesystem path, or
    /// `None` when canonicalization failed. Only a path the containment
    /// check accepts ever becomes the current directory.
    pub fn cwd_apply(&mut self, root: &Vec<u8>, canon: Option<&Vec<u8>>) -> (r: Reply)
        ensures
            (final(self)@, r@) == spec_cwd_apply(old(self)@, root@, match canon {
                Some(c) => Some(c@),
                None => None,
            }),
            session_wf(old(self)@) ==> session_wf(final(self)@),
    {
        match canon {
            Some(c) => {
                match check_under_root(root, c) {
                    Ok(rel) => {
                        let mut m: Vec<u8> = Vec::new();
                        append_str_bytes(&mut m, "Directory changed to \"");
                        append_bytes(&mut m, rel.as_slice());
                        m.push(QUOTE);
                        assert(m@ =~= "Directory changed to \"".spec_bytes() + rel_of(root@, c@)
                            + seq![QUOTE]);
                        self.cwd = rel;
                        Reply::new(ResultCode::CommandOkay, m)
                    },
                    Err(_) => Reply::new(
                        ResultCode::FileNotFound,
                        msg("No such file or directory"),
                    ),
                }
            },
            None => Reply::new(ResultCode::FileNotFound, msg("No such file or directory")),
        }
    }

    /// Closes the data channel after a completed transfer and confirms it.
    pub fn list_complete(&mut self) -> (r: Reply)
        requires
            old(self)@.chan is Connected,
        ensures
            final(self)@ == (SessionView { chan: DataChannel::Idle, ..old(self)@ }),
            r@.code == ResultCode::ClosingDataConnection,
            r@.message == "Transfer done!".spec_bytes(),
    {
        self.chan = DataChannel::Idle;
        Reply::new(ResultCode::ClosingDataConnection, msg("Transfer done!"))
    }

    /// Closes the data channel when the directory a `LIST` asked for could
    /// not be resolved, so the listener is never leaked, and reports "not
    /// found".
    pub fn list_abort(&mut self) -> (r: Reply)
        requires
            old(self)@.chan is Connected,
        ensures
            final(self)@ == (SessionView { chan: DataChannel::Idle, ..old(self)@ }),
            r@.code == ResultCode::FileNotFound,
            r@.message == "No such file or directory".spec_bytes(),
    {
        self.chan = DataChannel::Idle;
        Reply::new(ResultCode::FileNotFound, msg("No such file or directory"))
    }
}

/// Law: handling any command keeps the session well formed — in particular
/// the current directory stays a rooted path, whatever the client sends.
pub proof fn lemma_handle_preserves_wf(s: SessionView, c: CommandView)
    requires
        session_wf(s),
    ensures
        session_wf(spec_handle(s, c).0),
{
    if c is CdUp {
        crate::path::lemma_parent_keeps_rooted(s.cwd);
    }
}

/// Law: a directory change that the sandbox accepts is reported by the next
/// `PWD`: the session's directory becomes the resolved path relative to the
/// root, and `PWD` replies with exactly that path, quoted, while changing
/// nothing.
pub proof fn lemma_cwd_then_pwd_reports_new_directory(
    s: SessionView,
    root: Seq<u8>,
    canon: Seq<u8>,
)
    requires
        rooted(root),
        in_root(root, canon),
    ensures
        ({
            let (s1, rep) = spec_cwd_apply(s, root, Some(canon));
            &&& s1.cwd == rel_of(root, canon)
            &&& rep.code == ResultCode::CommandOkay
            &&& spec_handle(s1, CommandView::Pwd).0 == s1
            &&& spec_handle(s1, CommandView::Pwd).1 == OutcomeView::Done(
                ReplyView {
                    code: ResultCode::PATHNAMECreated,
                    message: seq![QUOTE] + rel_of(root, canon) + seq![QUOTE],
                },
            )
        }),
{
}

/// Law: `CDUP` at the server root is an accepted no-op: the session is
/// unchanged and the reply is success, however often it is repeated.
pub proof fn lemma_cdup_at_root_is_idempotent(s: SessionView)
    requires
        s.cwd == root_path(),
    ensures
        spec_handle(s, CommandView::CdUp).0 == s,
        spec_handle(s, CommandView::CdUp).1 == OutcomeView::Done(
            ReplyView { code: ResultCode::CommandOkay, message: "Done".spec_bytes() },
        ),
{
    crate::path::lemma_parent_of_root_is_root();
    assert(spec_handle(s, CommandView::CdUp).0 =~= s);
}

/// Law: one `PASV` from an idle session succeeds with the passive-mode
/// address reply and leaves the channel listening; once the one peer is
/// accepted, a second `PASV` without an intervening transfer is refused
/// with "already open" and changes nothing — no second listener is bound.
pub proof fn lemma_second_pasv_refused(s: SessionView)
    requires
        s.chan is Idle,
    ensures
        ({
            let (s1, first) = spec_handle(s, CommandView::Pasv);
            let (s2, quiet) = spec_pasv_complete(s1, true);
            let (s3, second) = spec_handle(s2, CommandView::Pasv);
            &&& first matches OutcomeView::OpenPassive(rep)
                && rep.code == ResultCode::EnteringPassiveMode
            &&& s1.chan is Listening
            &&& s2.chan is Connected && quiet is None
            &&& second == OutcomeView::Done(
                ReplyView {
                    code: ResultCode::DataConnectionAlreadyOpen,
                    message: "Already listening".spec_bytes(),
                },
            )
            &&& s3 == s2
        }),
{
}

/// Law: a `LIST` with no established data channel is answered "connection
/// closed" and asks for no data-channel work: the outcome carries no
/// listing order and the session is unchanged.
pub proof fn lemma_list_without_channel_refused(s: SessionView, arg: Option<Seq<u8>>)
    requires
        !(s.chan is Connected),
    ensures
        spec_handle(s, CommandView::List(arg)).0 == s,
        spec_handle(s, CommandView::List(arg)).1 == OutcomeView::Done(
            ReplyView {
                code: ResultCode::ConnectionClosed,
                message: "No opened data connection".spec_bytes(),
            },
        ),
{
}

/// Encodes the passive-mode reply message (see `spec_pasv_message`).
pub fn encode_pasv_message(port: u16) -> (r: Vec<u8>)
    ensures
        r@ == spec_pasv_message(port),
{
    let mut m: Vec<u8> = Vec::new();
    append_str_bytes(&mut m, "127,0,0,1,");
    push_decimal(&mut m, (port / 256) as u64);
    let ghost p1 = m@;
    m.push(COMMA);
    assert(m@ =~= p1 + seq![COMMA]);
    push_decimal(&mut m, (port % 256) as u64);
    m
}

} // verus!
