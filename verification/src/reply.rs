//! Replies of the control connection: the numeric status codes and the
//! single-line wire encoding `CODE[ SP MESSAGE]CRLF`.

use vstd::prelude::*;
use crate::ascii::{dec_rep, push_decimal, SP, CR, LF};

verus! {

/// The FTP status codes this server knows.
#[derive(Debug, Clone, Copy, PartialEq, Eq, Structural)]
pub enum ResultCode {
    RestartMarkerReply,
    ServiceReadInXXXMinutes,
    DataConnectionAlreadyOpen,
    FileStatusOk,
    CommandOkay,
    CommandNotImplementedSuperfluousAtThisSite,
    SystemStatus,
    DirectoryStatus,
    FileStatus,
    HelpMessage,
    SystemType,
    ServiceReadyForNewUser,
    ServiceClosingControlConnection,
    DataConnectionOpen,
    ClosingDataConnection,
    EnteringPassiveMode,
    UserLoggedIn,
    RequestedFileActionOkay,
    PATHNAMECreated,
    UserNameOkayNeedPassword,
    NeedAccountForLogin,
    RequestedFileActionPendingFurtherInformation,
    ServiceNotAvailable,
    CantOpenDataConnection,
    ConnectionClosed,
    FileBusy,
    LocalErrorInProcessing,
    InsufficientStorageSpace,
    UnknownCommand,
    InvalidParameterOrArgument,
    CommandNotImplemented,
    BadSequenceOfCommands,
    CommandNotImplementedForThatParameter,
    NotLoggedIn,
    NeedAccountForStoringFiles,
    FileNotFound,
    PageTypeUnknown,
    ExceededStorageAllocation,
    FileNameNotAllowed,
}

impl ResultCode {
    /// The three-digit wire value of the code.
    pub open spec fn spec_code(self) -> u32 {
        match self {
            ResultCode::RestartMarkerReply => 110,
            ResultCode::ServiceReadInXXXMinutes => 120,
            ResultCode::DataConnectionAlreadyOpen => 125,
            ResultCode::FileStatusOk => 150,
            ResultCode::CommandOkay => 200,
            ResultCode::CommandNotImplementedSuperfluousAtThisSite => 202,
            ResultCode::SystemStatus => 211,
            ResultCode::DirectoryStatus => 212,
            ResultCode::FileStatus => 213,
            ResultCode::HelpMessage => 214,
            ResultCode::SystemType => 215,
            ResultCode::ServiceReadyForNewUser => 220,
            ResultCode::ServiceClosingControlConnection => 221,
            ResultCode::DataConnectionOpen => 225,
            ResultCode::ClosingDataConnection => 226,
            ResultCode::EnteringPassiveMode => 227,
            ResultCode::UserLoggedIn => 230,
            ResultCode::RequestedFileActionOkay => 250,
            ResultCode::PATHNAMECreated => 257,
            ResultCode::UserNameOkayNeedPassword => 331,
            ResultCode::NeedAccountForLogin => 332,
            ResultCode::RequestedFileActionPendingFurtherInformation => 350,
            ResultCode::ServiceNotAvailable => 421,
            ResultCode::CantOpenDataConnection => 425,
            ResultCode::ConnectionClosed => 426,
            ResultCode::FileBusy => 450,
            ResultCode::LocalErrorInProcessing => 451,
            ResultCode::InsufficientStorageSpace => 452,
            ResultCode::UnknownCommand => 500,
            ResultCode::InvalidParameterOrArgument => 501,
            ResultCode::CommandNotImplemented => 502,
            ResultCode::BadSequenceOfCommands => 503,
            ResultCode::CommandNotImplementedForThatParameter => 504,
            ResultCode::NotLoggedIn => 530,
            ResultCode::NeedAccountForStoringFiles => 532,
            ResultCode::FileNotFound => 550,
            ResultCode::PageTypeUnknown => 551,
            ResultCode::ExceededStorageAllocation => 552,
            ResultCode::FileNameNotAllowed => 553,
        }
    }

    /// The three-digit wire value of the code.
    pub fn code(self) -> (r: u32)
        ensures
            r == self.spec_code(),
            100 <= r < 1000,
    {
        match self {
            ResultCode::RestartMarkerReply => 110,
            ResultCode::ServiceReadInXXXMinutes => 120,
            ResultCode::DataConnectionAlreadyOpen => 125,
            ResultCode::FileStatusOk => 150,
            ResultCode::CommandOkay => 200,
            ResultCode::CommandNotImplementedSuperfluousAtThisSite => 202,
            ResultCode::SystemStatus => 211,
            ResultCode::DirectoryStatus => 212,
            ResultCode::FileStatus => 213,
            ResultCode::HelpMessage => 214,
            ResultCode::SystemType => 215,
            ResultCode::ServiceReadyForNewUser => 220,
            ResultCode::ServiceClosingControlConnection => 221,
            ResultCode::DataConnectionOpen => 225,
            ResultCode::ClosingDataConnection => 226,
            ResultCode::EnteringPassiveMode => 227,
            ResultCode::UserLoggedIn => 230,
            ResultCode::RequestedFileActionOkay => 250,
            ResultCode::PATHNAMECreated => 257,
            ResultCode::UserNameOkayNeedPassword => 331,
            ResultCode::NeedAccountForLogin => 332,
            ResultCode::RequestedFileActionPendingFurtherInformation => 350,
            ResultCode::ServiceNotAvailable => 421,
            ResultCode::CantOpenDataConnection => 425,
            ResultCode::ConnectionClosed => 426,
            ResultCode::FileBusy => 450,
            ResultCode::LocalErrorInProcessing => 451,
            ResultCode::InsufficientStorageSpace => 452,
            ResultCode::UnknownCommand => 500,
            ResultCode::InvalidParameterOrArgument => 501,
            ResultCode::CommandNotImplemented => 502,
            ResultCode::BadSequenceOfCommands => 503,
            ResultCode::CommandNotImplementedForThatParameter => 504,
            ResultCode::NotLoggedIn => 530,
            ResultCode::NeedAccountForStoringFiles => 532,
            ResultCode::FileNotFound => 550,
            ResultCode::PageTypeUnknown => 551,
            ResultCode::ExceededStorageAllocation => 552,
            ResultCode::FileNameNotAllowed => 553,
        }
    }
}

/// One single-line reply: a status code and a human-readable message.
#[derive(Debug, Clone, PartialEq, Eq)]
pub struct Reply {
    /// The numeric status code.
    pub code: ResultCode,
    /// The message bytes; empty means the wire line carries the code alone.
    pub message: Vec<u8>,
}

/// The mathematical value of a `Reply`.
#[verifier::ext_equal]
pub ghost struct ReplyView {
    /// The numeric status code.
    pub code: ResultCode,
    /// The message bytes.
    pub message: Seq<u8>,
}

impl View for Reply {
    type V = ReplyView;

    open spec fn view(&self) -> ReplyView {
        ReplyView { code: self.code, message: self.message@ }
    }
}

impl Reply {
    /// Builds a reply from a code and message bytes.
    pub fn new(code: ResultCode, message: Vec<u8>) -> (r: Reply)
        ensures
            r.code == code,
            r.message@ == message@,
    {
        Reply { code, message }
    }
}

/// The wire line of a reply: the three decimal digits of the code, then,
/// unless the message is empty, one space and the message, then CRLF.
pub open spec fn spec_encode_reply(code: ResultCode, message: Seq<u8>) -> Seq<u8> {
    dec_rep(code.spec_code() as nat) + (if message.len() == 0 {
        Seq::<u8>::empty()
    } else {
        seq![SP] + message
    }) + seq![CR, LF]
}

/// Encodes a reply for the control connection.
pub fn encode_reply(reply: &Reply) -> (r: Vec<u8>)
    ensures
        r@ == spec_encode_reply(reply.code, reply.message@),
{
    let mut out: Vec<u8> = Vec::new();
    push_decimal(&mut out, reply.code.code() as u64);
    if reply.message.len() > 0 {
        out.push(SP);
        let mut i: usize = 0;
        while i < reply.message.len()
            invariant
                i <= reply.message@.len(),
                out@ =~= dec_rep(reply.code.spec_code() as nat) + seq![SP]
                    + reply.message@.take(i as int),
            decreases reply.message@.len() - i,
        {
            out.push(reply.message[i]);
            assert(out@ =~= dec_rep(reply.code.spec_code() as nat) + seq![SP]
                + reply.message@.take(i + 1));
            i = i + 1;
        }
    }
    out.push(CR);
    out.push(LF);
    assert(out@ =~= spec_encode_reply(reply.code, reply.message@));
    out
}

} // verus!
