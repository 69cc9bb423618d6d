//! What the surrounding program hands the peer: the parsed command line,
//! and the lines a user types at the prompt.

use vstd::prelude::*;
use vstd::string::StrSliceExecFns;
use vstd::string::StringExecFns;
use crate::bootstrap::{spec_parse, BootstrapAddress};
use crate::error::BootstrapParseError;
use crate::text::{first_index_of, lemma_first_index_of_is};

verus! {

/// The command-line surface: an optional listen-address override and any
/// number of bootstrap entries.
#[derive(Debug, Clone, PartialEq, Eq)]
pub struct Cli {
    pub addr: Option<String>,
    pub bootstrap: Vec<String>,
}

/// The listen address used when none is given: every interface, an
/// OS-assigned port.
pub fn default_addr() -> (r: String)
    ensures
        r@ == "/ip4/0.0.0.0/tcp/0"@,
{
    String::from_str("/ip4/0.0.0.0/tcp/0")
}

/// One line typed at the prompt, parsed.
#[derive(Debug, Clone, PartialEq, Eq)]
pub enum InputCommand {
    /// `/join <room>`: subscribe to a room.
    Join(String),
    /// `/send <room> <text>`: publish to a room.
    Send { topic: String, message: String },
    /// `/chat <room>`: show the messages gathered for a room.
    Chat(String),
    /// A `/send` line with no text after the room.
    Invalid,
    /// Anything else.
    Unknown,
}

impl Cli {
    pub fn new(addr: Option<String>, bootstrap: Vec<String>) -> (r: Cli)
        ensures
            r.addr == addr,
            r.bootstrap == bootstrap,
    {
        Cli { addr, bootstrap }
    }

    /// The address the peer should listen on: the override if one was
    /// given, the default otherwise.
    pub fn listen_addr(&self) -> (r: String)
        ensures
            match self.addr {
                Some(a) => r@ == a@,
                None => r@ == "/ip4/0.0.0.0/tcp/0"@,
            },
    {
        match &self.addr {
            Some(a) => a.clone(),
            None => default_addr(),
        }
    }

    /// Every bootstrap entry, split.  The first entry that does not split
    /// is the error of the whole list — the caller decides whether to go
    /// on with fewer seed peers.
    pub fn parse_bootstrap_entries(&self) -> (r: Result<Vec<BootstrapAddress>, BootstrapParseError>)
        ensures
            r matches Ok(v) ==> v@.len() == self.bootstrap@.len() && forall|i: int|
                0 <= i < v@.len() ==> ((#[trigger] spec_parse(self.bootstrap@[i]@)) matches Ok(
                    parts,
                ) && v@[i].peer_id@ == parts.0 && v@[i].addr@ == parts.1),
            r matches Err(e) ==> exists|i: int|
                0 <= i < self.bootstrap@.len() && (#[trigger] spec_parse(self.bootstrap@[i]@))
                    == Err::<(Seq<char>, Seq<char>), BootstrapParseError>(e),
    {
        let mut out: Vec<BootstrapAddress> = Vec::new();
        let n = self.bootstrap.len();
        let mut i: usize = 0;
        while i < n
            invariant
                n == self.bootstrap@.len(),
                i <= n,
                out@.len() == i,
                forall|j: int|
                    0 <= j < i ==> ((#[trigger] spec_parse(self.bootstrap@[j]@)) matches Ok(
                        parts,
                    ) && out@[j].peer_id@ == parts.0 && out@[j].addr@ == parts.1),
            decreases n - i,
        {
            match BootstrapAddress::parse(self.bootstrap[i].as_str()) {
                Ok(b) => {
                    out.push(b);
                },
                Err(e) => {
                    return Err(e);
                },
            }
            i += 1;
        }
        Ok(out)
    }
}

/// What one typed line means, over its characters: the word before the
/// first space chooses the command, the rest is its argument; a `/send`
/// argument splits once more into the room and the text.
pub open spec fn spec_parse_input(s: Seq<char>) -> InputKind {
    let i = first_index_of(s, ' ');
    if i == s.len() {
        InputKind::Unknown
    } else {
        let head = s.subrange(0, i);
        let rest = s.subrange(i + 1, s.len() as int);
        if head == "/join"@ {
            InputKind::Join(rest)
        } else if head == "/chat"@ {
            InputKind::Chat(rest)
        } else if head == "/send"@ {
            let j = first_index_of(rest, ' ');
            if j == rest.len() {
                InputKind::Invalid
            } else {
                InputKind::Send(rest.subrange(0, j), rest.subrange(j + 1, rest.len() as int))
            }
        } else {
            InputKind::Unknown
        }
    }
}

/// The mathematical value of a parsed input line.
pub enum InputKind {
    Join(Seq<char>),
    Send(Seq<char>, Seq<char>),
    Chat(Seq<char>),
    Invalid,
    Unknown,
}

impl View for InputCommand {
    type V = InputKind;

    open spec fn view(&self) -> InputKind {
        match self {
            InputCommand::Join(t) => InputKind::Join(t@),
            InputCommand::Send { topic, message } => InputKind::Send(topic@, message@),
            InputCommand::Chat(t) => InputKind::Chat(t@),
            InputCommand::Invalid => InputKind::Invalid,
            InputCommand::Unknown => InputKind::Unknown,
        }
    }
}

/// The index of the first space, found by scanning.
fn find_space(s: &str) -> (i: usize)
    ensures
        i as int == first_index_of(s@, ' '),
        i <= s@.len(),
{
    let n = s.unicode_len();
    let mut i: usize = 0;
    while i < n && s.get_char(i) != ' '
        invariant
            n == s@.len(),
            i <= n,
            forall|j: int| 0 <= j < i ==> s@[j] != ' ',
        decreases n - i,
    {
        i += 1;
    }
    proof {
        lemma_first_index_of_is(s@, ' ', i as int);
    }
    i
}

/// Parse one typed line, exactly as [`spec_parse_input`] says.
pub fn parse_input_line(s: &str) -> (r: InputCommand)
    ensures
        r@ == spec_parse_input(s@),
{
    let n = s.unicode_len();
    let i = find_space(s);
    if i == n {
        return InputCommand::Unknown;
    }
    let head = s.substring_char(0, i);
    let rest = s.substring_char(i + 1, n);
    if head.to_owned() == String::from_str("/join") {
        InputCommand::Join(rest.to_owned())
    } else if head.to_owned() == String::from_str("/chat") {
        InputCommand::Chat(rest.to_owned())
    } else if head.to_owned() == String::from_str("/send") {
        let m = rest.unicode_len();
        let j = find_space(rest);
        if j == m {
            InputCommand::Invalid
        } else {
            InputCommand::Send {
                topic: rest.substring_char(0, j).to_owned(),
                message: rest.substring_char(j + 1, m).to_owned(),
            }
        }
    } else {
        InputCommand::Unknown
    }
}

} // verus!
