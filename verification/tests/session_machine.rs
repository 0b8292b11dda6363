//! Tests of the session state machine and the reply encoding.

use ftp_server::command::Command;
use ftp_server::reply::{encode_reply, Reply, ResultCode};
use ftp_server::session::{DataChannel, HandleOutcome, Session};

fn expect_done(outcome: HandleOutcome) -> Reply {
    match outcome {
        HandleOutcome::Done(rep) => rep,
        other => panic!("expected a plain reply, got {:?}", other),
    }
}

#[test]
fn fresh_session_is_at_root() {
    let s = Session::new();
    assert_eq!(s.cwd, b"/".to_vec());
    assert_eq!(s.name, None);
    assert_eq!(s.chan, DataChannel::Idle);
}

#[test]
fn empty_user_is_invalid_and_does_not_crash() {
    let mut s = Session::new();
    let rep = expect_done(s.handle_cmd(Command::new(b"user  ".to_vec())));
    assert_eq!(rep.code.code(), 501);
    assert_eq!(s.name, None);
}

#[test]
fn user_is_recorded_and_welcomed() {
    let mut s = Session::new();
    let rep = expect_done(s.handle_cmd(Command::User(b"maxal".to_vec())));
    assert_eq!(rep.code, ResultCode::UserLoggedIn);
    assert_eq!(rep.message, b"Welcome maxal!".to_vec());
    assert_eq!(s.name, Some(b"maxal".to_vec()));
}

#[test]
fn pasv_twice_yields_success_then_already_open() {
    let mut s = Session::new();
    let first = s.handle_cmd(Command::Pasv);
    match first {
        HandleOutcome::OpenPassive(rep) => {
            assert_eq!(rep.code, ResultCode::EnteringPassiveMode);
            assert_eq!(rep.message, b"127,0,0,1,168,202".to_vec());
        }
        other => panic!("expected a passive-mode order, got {:?}", other),
    }
    assert_eq!(s.chan, DataChannel::Listening);
    assert_eq!(s.pasv_complete(true), None);
    assert_eq!(s.chan, DataChannel::Connected);

    let second = expect_done(s.handle_cmd(Command::Pasv));
    assert_eq!(second.code, ResultCode::DataConnectionAlreadyOpen);
    assert_eq!(s.chan, DataChannel::Connected);
}

#[test]
fn pasv_failure_reverts_to_idle_and_can_retry() {
    let mut s = Session::new();
    match s.handle_cmd(Command::Pasv) {
        HandleOutcome::OpenPassive(_) => {}
        other => panic!("expected a passive-mode order, got {:?}", other),
    }
    let rep = s.pasv_complete(false).expect("a failure must be reported");
    assert_eq!(rep.code, ResultCode::ServiceNotAvailable);
    assert_eq!(s.chan, DataChannel::Idle);
    match s.handle_cmd(Command::Pasv) {
        HandleOutcome::OpenPassive(_) => {}
        other => panic!("expected a fresh passive-mode order, got {:?}", other),
    }
}

#[test]
fn list_without_data_channel_is_refused() {
    let mut s = Session::new();
    let rep = expect_done(s.handle_cmd(Command::List(None)));
    assert_eq!(rep.code.code(), 426);
    assert_eq!(rep.message, b"No opened data connection".to_vec());
    assert_eq!(s.chan, DataChannel::Idle);
}

#[test]
fn list_with_data_channel_orders_a_transfer_and_closes() {
    let mut s = Session::new();
    match s.handle_cmd(Command::Pasv) {
        HandleOutcome::OpenPassive(_) => {}
        other => panic!("expected a passive-mode order, got {:?}", other),
    }
    assert_eq!(s.pasv_complete(true), None);
    match s.handle_cmd(Command::List(Some(b"sub".to_vec()))) {
        HandleOutcome::SendListing(rep, target) => {
            assert_eq!(rep.code, ResultCode::DataConnectionAlreadyOpen);
            assert_eq!(target, b"/sub".to_vec());
        }
        other => panic!("expected a listing order, got {:?}", other),
    }
    let done = s.list_complete();
    assert_eq!(done.code, ResultCode::ClosingDataConnection);
    assert_eq!(done.message, b"Transfer done!".to_vec());
    assert_eq!(s.chan, DataChannel::Idle);
}

#[test]
fn cwd_then_pwd_reports_the_new_directory() {
    let mut s = Session::new();
    let root = b"/srv/root".to_vec();
    let candidate = match s.handle_cmd(Command::new(b"cwd sub".to_vec())) {
        HandleOutcome::ResolveCwd(c) => c,
        other => panic!("expected a resolution order, got {:?}", other),
    };
    assert_eq!(candidate, b"/sub".to_vec());

    // The filesystem canonicalized root + candidate to this:
    let canon = b"/srv/root/sub".to_vec();
    let rep = s.cwd_apply(&root, Some(&canon));
    assert_eq!(rep.code, ResultCode::CommandOkay);
    assert_eq!(rep.message, b"Directory changed to \"/sub\"".to_vec());

    let pwd = expect_done(s.handle_cmd(Command::Pwd));
    assert_eq!(pwd.code, ResultCode::PATHNAMECreated);
    assert_eq!(pwd.message, b"\"/sub\"".to_vec());
}

#[test]
fn pwd_at_root_reports_the_root() {
    let mut s = Session::new();
    let rep = expect_done(s.handle_cmd(Command::Pwd));
    assert_eq!(rep.code.code(), 257);
    assert_eq!(rep.message, b"\"/\"".to_vec());
}

#[test]
fn list_without_argument_targets_the_current_directory() {
    let mut s = Session::new();
    match s.handle_cmd(Command::Pasv) {
        HandleOutcome::OpenPassive(_) => {}
        other => panic!("expected a passive-mode order, got {:?}", other),
    }
    assert_eq!(s.pasv_complete(true), None);
    match s.handle_cmd(Command::List(None)) {
        HandleOutcome::SendListing(_, target) => assert_eq!(target, b"/".to_vec()),
        other => panic!("expected a listing order, got {:?}", other),
    }
    s.list_complete();
}

#[test]
fn cwd_outside_root_is_refused_without_state_change() {
    let mut s = Session::new();
    let root = b"/srv/root".to_vec();
    let rep = s.cwd_apply(&root, Some(&b"/etc".to_vec()));
    assert_eq!(rep.code, ResultCode::FileNotFound);
    assert_eq!(s.cwd, b"/".to_vec());

    let rep = s.cwd_apply(&root, None);
    assert_eq!(rep.code, ResultCode::FileNotFound);
    assert_eq!(s.cwd, b"/".to_vec());
}

#[test]
fn cwd_with_empty_path_is_invalid() {
    let mut s = Session::new();
    let rep = expect_done(s.handle_cmd(Command::new(b"cwd".to_vec())));
    assert_eq!(rep.code.code(), 501);
}

#[test]
fn cdup_from_root_is_idempotent() {
    let mut s = Session::new();
    for _ in 0..3 {
        let rep = expect_done(s.handle_cmd(Command::CdUp));
        assert_eq!(rep.code, ResultCode::CommandOkay);
        assert_eq!(s.cwd, b"/".to_vec());
    }
}

#[test]
fn cdup_walks_up_one_level() {
    let mut s = Session::new();
    let root = b"/srv/root".to_vec();
    s.cwd_apply(&root, Some(&b"/srv/root/a/b".to_vec()));
    assert_eq!(s.cwd, b"/a/b".to_vec());
    expect_done(s.handle_cmd(Command::CdUp));
    assert_eq!(s.cwd, b"/a".to_vec());
}

#[test]
fn fixed_replies() {
    let mut s = Session::new();
    assert_eq!(expect_done(s.handle_cmd(Command::Auth)).code.code(), 502);
    assert_eq!(expect_done(s.handle_cmd(Command::Syst)).message, b"I won't tell".to_vec());
    assert_eq!(expect_done(s.handle_cmd(Command::Noop)).code.code(), 200);
    assert_eq!(expect_done(s.handle_cmd(Command::Type)).code.code(), 200);
    let unk = expect_done(s.handle_cmd(Command::Unknown(b"FEAT".to_vec())));
    assert_eq!(unk.code.code(), 500);
}

#[test]
fn replies_encode_with_and_without_message() {
    let with = Reply::new(ResultCode::CommandOkay, b"Done".to_vec());
    assert_eq!(encode_reply(&with), b"200 Done\r\n".to_vec());
    let without = Reply::new(ResultCode::ServiceReadyForNewUser, Vec::new());
    assert_eq!(encode_reply(&without), b"220\r\n".to_vec());
}
