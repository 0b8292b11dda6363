//! Parsing of control-connection command lines into typed commands.
//!
//! A line is split at its first space: everything before it is the verb;
//! the argument is everything after the separating run of spaces, verbatim
//! — embedded spaces are kept, so a trailing all-space remainder is an
//! empty argument. The verb is matched case-insensitively; the argument is
//! never case-folded. Parsing is total: a line that matches no known verb
//! becomes `Unknown`, carrying the verb in its original casing.

use vstd::prelude::*;
use vstd::string::StringSliceAdditionalSpecFns;
use crate::ascii::{upper_seq, to_uppercase, bytes_eq, subvec, SP};

verus! {

/// A parsed control command, carrying only the arguments that command needs.
#[derive(Clone, Debug, PartialEq, Eq)]
pub enum Command {
    /// `AUTH`: TLS negotiation request (not supported).
    Auth,
    /// `SYST`: system-type query.
    Syst,
    /// `USER name`: claim an identity.
    User(Vec<u8>),
    /// `CWD path`: change the working directory.
    Cwd(Vec<u8>),
    /// `PWD`: print the working directory.
    Pwd,
    /// `NOOP`: do nothing.
    Noop,
    /// `TYPE`: set the representation type.
    Type,
    /// `PASV`: enter passive mode.
    Pasv,
    /// `CDUP`: change to the parent directory.
    CdUp,
    /// `LIST [path]`: list a directory over the data channel.
    List(Option<Vec<u8>>),
    /// Any other verb, in its original casing.
    Unknown(Vec<u8>),
}

/// The mathematical value of a `Command`: the same variants over `Seq<u8>`.
pub ghost enum CommandView {
    Auth,
    Syst,
    User(Seq<u8>),
    Cwd(Seq<u8>),
    Pwd,
    Noop,
    Type,
    Pasv,
    CdUp,
    List(Option<Seq<u8>>),
    Unknown(Seq<u8>),
}

impl View for Command {
    type V = CommandView;

    open spec fn view(&self) -> CommandView {
        match self {
            Command::Auth => CommandView::Auth,
            Command::Syst => CommandView::Syst,
            Command::User(name) => CommandView::User(name@),
            Command::Cwd(path) => CommandView::Cwd(path@),
            Command::Pwd => CommandView::Pwd,
            Command::Noop => CommandView::Noop,
            Command::Type => CommandView::Type,
            Command::Pasv => CommandView::Pasv,
            Command::CdUp => CommandView::CdUp,
            Command::List(path) => CommandView::List(
                match path {
                    Some(p) => Some(p@),
                    None => None,
                },
            ),
            Command::Unknown(verb) => CommandView::Unknown(verb@),
        }
    }
}

/// Holds when `i` is the index of the first space byte of `s`, or `s.len()`
/// when `s` has no space byte.
pub open spec fn is_first_sp(s: Seq<u8>, i: int) -> bool {
    &&& 0 <= i <= s.len()
    &&& forall|j: int| 0 <= j < i ==> s[j] != SP
    &&& i < s.len() ==> s[i] == SP
}

/// The index of the first space byte of `s` (`s.len()` when there is none).
pub open spec fn first_sp(s: Seq<u8>) -> int
    decreases s.len(),
{
    if s.len() == 0 {
        0
    } else if s[0] == SP {
        0
    } else {
        1 + first_sp(s.drop_first())
    }
}

/// `first_sp` meets its characterization.
pub proof fn lemma_first_sp(s: Seq<u8>)
    ensures
        is_first_sp(s, first_sp(s)),
    decreases s.len(),
{
    if s.len() != 0 && s[0] != SP {
        lemma_first_sp(s.drop_first());
        assert forall|j: int| 0 <= j < first_sp(s) implies s[j] != SP by {
            if j > 0 {
                assert(s.drop_first()[j - 1] != SP);
            }
        }
    }
}

/// No index but `first_sp(s)` meets the characterization.
pub proof fn lemma_first_sp_unique(s: Seq<u8>, i: int)
    requires
        is_first_sp(s, i),
    ensures
        i == first_sp(s),
{
    lemma_first_sp(s);
    let f = first_sp(s);
    if i < f {
        assert(s[i] != SP);
        assert(false);
    }
    if f < i {
        assert(s[f] != SP);
        assert(false);
    }
}

/// The verb chunk of a line: everything before the first space.
pub open spec fn verb_of(line: Seq<u8>) -> Seq<u8> {
    line.take(first_sp(line))
}

/// A byte sequence with its leading run of spaces removed.
pub open spec fn drop_leading_sp(s: Seq<u8>) -> Seq<u8>
    decreases s.len(),
{
    if s.len() > 0 && s[0] == SP {
        drop_leading_sp(s.drop_first())
    } else {
        s
    }
}

/// `drop_leading_sp` removes exactly the bytes before the first non-space.
pub proof fn lemma_drop_leading_sp(s: Seq<u8>, k: int)
    requires
        0 <= k <= s.len(),
        forall|j: int| 0 <= j < k ==> s[j] == SP,
        k < s.len() ==> s[k] != SP,
    ensures
        drop_leading_sp(s) == s.skip(k),
    decreases k,
{
    if k == 0 {
        assert(s.skip(0) =~= s);
    } else {
        assert(s[0] == SP);
        let t = s.drop_first();
        assert forall|j: int| 0 <= j < k - 1 implies t[j] == SP by {
            assert(s[j + 1] == SP);
        }
        lemma_drop_leading_sp(t, k - 1);
        assert(t.skip(k - 1) =~= s.skip(k));
    }
}

/// The argument of a line: everything after the verb's separating run of
/// spaces, verbatim — embedded spaces included, so a remainder of spaces
/// alone is an empty argument; `None` when the line has no space.
pub open spec fn arg_of(line: Seq<u8>) -> Option<Seq<u8>> {
    if first_sp(line) == line.len() {
        None
    } else {
        Some(drop_leading_sp(line.skip(first_sp(line))))
    }
}

/// What a command line parses to: the verb is matched after ASCII
/// uppercasing; the argument is the remainder after the separating spaces,
/// never case-folded.
pub open spec fn spec_parse(line: Seq<u8>) -> CommandView {
    let verb = upper_seq(verb_of(line));
    let arg = arg_of(line);
    let arg_or_empty = match arg {
        Some(a) => a,
        None => Seq::<u8>::empty(),
    };
    if verb == "AUTH".spec_bytes() {
        CommandView::Auth
    } else if verb == "SYST".spec_bytes() {
        CommandView::Syst
    } else if verb == "USER".spec_bytes() {
        CommandView::User(arg_or_empty)
    } else if verb == "CWD".spec_bytes() {
        CommandView::Cwd(arg_or_empty)
    } else if verb == "PWD".spec_bytes() {
        CommandView::Pwd
    } else if verb == "NOOP".spec_bytes() {
        CommandView::Noop
    } else if verb == "TYPE".spec_bytes() {
        CommandView::Type
    } else if verb == "PASV".spec_bytes() {
        CommandView::Pasv
    } else if verb == "CDUP".spec_bytes() {
        CommandView::CdUp
    } else if verb == "LIST".spec_bytes() {
        CommandView::List(arg)
    } else {
        CommandView::Unknown(verb_of(line))
    }
}

/// The verb tokens the parser knows, in their uppercased form.
pub open spec fn is_known_verb(v: Seq<u8>) -> bool {
    ||| v == "AUTH".spec_bytes()
    ||| v == "SYST".spec_bytes()
    ||| v == "USER".spec_bytes()
    ||| v == "CWD".spec_bytes()
    ||| v == "PWD".spec_bytes()
    ||| v == "NOOP".spec_bytes()
    ||| v == "TYPE".spec_bytes()
    ||| v == "PASV".spec_bytes()
    ||| v == "CDUP".spec_bytes()
    ||| v == "LIST".spec_bytes()
}

/// Law: command verbs are case-insensitive and arguments pass through
/// untouched: two lines whose verbs uppercase to the same known verb and
/// whose arguments agree parse to the same command. (Lines with unknown
/// verbs are outside this: `Unknown` keeps the verb's original casing for
/// diagnostics.)
pub proof fn lemma_verb_case_insensitive(l1: Seq<u8>, l2: Seq<u8>)
    requires
        upper_seq(verb_of(l1)) == upper_seq(verb_of(l2)),
        is_known_verb(upper_seq(verb_of(l1))),
        arg_of(l1) == arg_of(l2),
    ensures
        spec_parse(l1) == spec_parse(l2),
{
}

/// Finds the first space byte of `v` at or after `from`; returns `v.len()`
/// when there is none.
fn find_sp(v: &Vec<u8>, from: usize) -> (r: usize)
    requires
        from <= v@.len(),
    ensures
        from <= r <= v@.len(),
        forall|j: int| from <= j < r ==> v@[j] != SP,
        r < v@.len() ==> v@[r as int] == SP,
{
    let mut i: usize = from;
    while i < v.len()
        invariant
            from <= i <= v@.len(),
            forall|j: int| from <= j < i ==> v@[j] != SP,
        decreases v@.len() - i,
    {
        if v[i] == SP {
            return i;
        }
        i = i + 1;
    }
    i
}

impl Command {
    /// Parses one command line. Parsing is total: it never fails, and
    /// anything unrecognized comes back as `Unknown`.
    pub fn new(input: Vec<u8>) -> (r: Command)
        ensures
            r@ == spec_parse(input@),
    {
        let sp1 = find_sp(&input, 0);
        proof {
            lemma_first_sp_unique(input@, sp1 as int);
        }
        let verb_raw = subvec(&input, 0, sp1);
        assert(verb_raw@ == verb_of(input@));
        let mut verb = verb_raw.clone();
        to_uppercase(&mut verb);

        let arg: Option<Vec<u8>> = if sp1 < input.len() {
            let mut j: usize = sp1;
            while j < input.len() && input[j] == SP
                invariant
                    sp1 <= j <= input@.len(),
                    forall|t: int| sp1 <= t < j ==> input@[t] == SP,
                decreases input@.len() - j,
            {
                j = j + 1;
            }
            let a = subvec(&input, j, input.len());
            proof {
                let rest = input@.skip(sp1 as int);
                assert forall|t: int| 0 <= t < j - sp1 implies rest[t] == SP by {
                    assert(input@[t + sp1] == SP);
                }
                if j < input.len() {
                    assert(rest[j - sp1] == input@[j as int]);
                }
                lemma_drop_leading_sp(rest, j - sp1);
                assert(a@ =~= rest.skip(j - sp1));
            }
            Some(a)
        } else {
            None
        };
        proof {
            match &arg {
                Some(a) => assert(arg_of(input@) matches Some(x) && x == a@),
                None => assert(arg_of(input@) is None),
            }
        }

        if bytes_eq(verb.as_slice(), "AUTH".as_bytes()) {
            Command::Auth
        } else if bytes_eq(verb.as_slice(), "SYST".as_bytes()) {
            Command::Syst
        } else if bytes_eq(verb.as_slice(), "USER".as_bytes()) {
            Command::User(
                match arg {
                    Some(a) => a,
                    None => Vec::new(),
                },
            )
        } else if bytes_eq(verb.as_slice(), "CWD".as_bytes()) {
            Command::Cwd(
                match arg {
                    Some(a) => a,
                    None => Vec::new(),
                },
            )
        } else if bytes_eq(verb.as_slice(), "PWD".as_bytes()) {
            Command::Pwd
        } else if bytes_eq(verb.as_slice(), "NOOP".as_bytes()) {
            Command::Noop
        } else if bytes_eq(verb.as_slice(), "TYPE".as_bytes()) {
            Command::Type
        } else if bytes_eq(verb.as_slice(), "PASV".as_bytes()) {
            Command::Pasv
        } else if bytes_eq(verb.as_slice(), "CDUP".as_bytes()) {
            Command::CdUp
        } else if bytes_eq(verb.as_slice(), "LIST".as_bytes()) {
            Command::List(arg)
        } else {
            Command::Unknown(verb_raw)
        }
    }

    /// The canonical verb token of this command, for diagnostics.
    pub fn verb_name(&self) -> (s: &'static str)
        ensures
            match self {
                Command::Auth => s@ == "AUTH"@,
                Command::Syst => s@ == "SYST"@,
                Command::User(_) => s@ == "USER"@,
                Command::Cwd(_) => s@ == "CWD"@,
                Command::Pwd => s@ == "PWD"@,
                Command::Noop => s@ == "NOOP"@,
                Command::Type => s@ == "TYPE"@,
                Command::Pasv => s@ == "PASV"@,
                Command::CdUp => s@ == "CDUP"@,
                Command::List(_) => s@ == "LIST"@,
                Command::Unknown(_) => s@ == "UNKN"@,
            },
    {
        match self {
            Command::Auth => "AUTH",
            Command::Syst => "SYST",
            Command::User(_) => "USER",
            Command::Cwd(_) => "CWD",
            Command::Pwd => "PWD",
            Command::Noop => "NOOP",
            Command::Type => "TYPE",
            Command::Pasv => "PASV",
            Command::CdUp => "CDUP",
            Command::List(_) => "LIST",
            Command::Unknown(_) => "UNKN",
        }
    }
}

} // verus!
