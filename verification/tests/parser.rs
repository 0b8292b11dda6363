//! Tests of command-line parsing and byte helpers.

use ftp_server::ascii::to_uppercase;
use ftp_server::command::Command;

#[test]
fn parse_verbs_case_insensitively() {
    let lower = Command::new(b"cwd /x".to_vec());
    let upper = Command::new(b"CWD /x".to_vec());
    assert_eq!(lower, Command::Cwd(b"/x".to_vec()));
    assert_eq!(upper, Command::Cwd(b"/x".to_vec()));
    assert_eq!(lower, upper);
}

#[test]
fn parse_does_not_fold_arguments() {
    let cmd = Command::new(b"user MixedCase".to_vec());
    assert_eq!(cmd, Command::User(b"MixedCase".to_vec()));
}

#[test]
fn parse_user_with_trailing_empty_argument() {
    // The whole separating run of spaces is skipped: a remainder of spaces
    // alone is an empty argument.
    let cmd = Command::new(b"user  ".to_vec());
    assert_eq!(cmd, Command::User(b"".to_vec()));
    let cmd = Command::new(b"user ".to_vec());
    assert_eq!(cmd, Command::User(b"".to_vec()));
}

#[test]
fn parse_user_without_argument() {
    let cmd = Command::new(b"USER".to_vec());
    assert_eq!(cmd, Command::User(b"".to_vec()));
}

#[test]
fn parse_keeps_embedded_spaces_in_the_argument() {
    // Once the argument starts, its spaces are kept verbatim.
    let cmd = Command::new(b"user anna maria".to_vec());
    assert_eq!(cmd, Command::User(b"anna maria".to_vec()));
    let cmd = Command::new(b"cwd a dir with spaces".to_vec());
    assert_eq!(cmd, Command::Cwd(b"a dir with spaces".to_vec()));
    // Extra separating spaces are not part of the argument.
    let cmd = Command::new(b"user  anna".to_vec());
    assert_eq!(cmd, Command::User(b"anna".to_vec()));
}

#[test]
fn parse_bare_verbs() {
    assert_eq!(Command::new(b"noop".to_vec()), Command::Noop);
    assert_eq!(Command::new(b"PWD".to_vec()), Command::Pwd);
    assert_eq!(Command::new(b"Syst".to_vec()), Command::Syst);
    assert_eq!(Command::new(b"auth".to_vec()), Command::Auth);
    assert_eq!(Command::new(b"TYPE".to_vec()), Command::Type);
    assert_eq!(Command::new(b"pasv".to_vec()), Command::Pasv);
    assert_eq!(Command::new(b"cdup".to_vec()), Command::CdUp);
}

#[test]
fn parse_list_with_and_without_path() {
    assert_eq!(Command::new(b"LIST".to_vec()), Command::List(None));
    assert_eq!(Command::new(b"list ".to_vec()), Command::List(Some(b"".to_vec())));
    assert_eq!(Command::new(b"list sub".to_vec()), Command::List(Some(b"sub".to_vec())));
}

#[test]
fn parse_unknown_keeps_original_casing() {
    let cmd = Command::new(b"FeAt".to_vec());
    assert_eq!(cmd, Command::Unknown(b"FeAt".to_vec()));
}

#[test]
fn parse_empty_line_is_unknown() {
    let cmd = Command::new(b"".to_vec());
    assert_eq!(cmd, Command::Unknown(b"".to_vec()));
}

#[test]
fn uppercase_folds_ascii_letters_only() {
    let mut data = b"abz{ A9/".to_vec();
    to_uppercase(&mut data);
    assert_eq!(data, b"ABZ{ A9/".to_vec());
}

#[test]
fn verb_names() {
    assert_eq!(Command::Noop.verb_name(), "NOOP");
    assert_eq!(Command::Unknown(b"x".to_vec()).verb_name(), "UNKN");
}
