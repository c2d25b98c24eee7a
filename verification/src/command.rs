//! The commands a hub sends to its clients, and their textual wire form.
//!
//! A command travels as a JSON string that holds the variant's name.

use vstd::prelude::*;
use vstd::utf8::encode_utf8;

verus! {

/// A command for a client.
#[derive(Clone, Copy, Debug, PartialEq, Eq, Structural)]
pub enum Command {
    /// Fetch the new binaries and hand over to the updater.
    Update,
    /// Does nothing; used to probe that a client is alive.
    Dummy,
}

/// An opaque handle on what went wrong inside the JSON parser.
#[verifier::external_type_specification]
#[verifier::external_body]
pub struct ExJsonError(serde_json::Error);

/// The string that a frame holds when it is read as one JSON string value, or
/// `None` where the frame is not exactly one such value.
pub uninterp spec fn json_string_value(bytes: Seq<u8>) -> Option<Seq<char>>;

/// A character that JSON writes inside a string as it is: printable ASCII
/// other than the quote and the backslash.
pub open spec fn is_plain_char(c: char) -> bool {
    ' ' <= c <= '~' && c != '"' && c != '\\'
}

/// A text made of plain characters only.
pub open spec fn is_plain(s: Seq<char>) -> bool {
    forall|i: int| 0 <= i < s.len() ==> is_plain_char(#[trigger] s[i])
}

/// A text between two quotes.
pub open spec fn quoted(s: Seq<char>) -> Seq<char> {
    seq!['"'] + s + seq!['"']
}

/// `serde_json::to_string` on a string slice. For a text of plain characters
/// it always succeeds and gives the text between two quotes: none of these
/// characters is escaped, and writing into memory cannot fail.
#[verifier::external_body]
fn json_write_string(s: &str) -> (r: Result<String, serde_json::Error>)
    requires
        is_plain(s@),
    ensures
        r is Ok,
        r->Ok_0@ == quoted(s@),
{
    serde_json::to_string(s)
}

/// `serde_json::from_slice::<String>`. It succeeds exactly where the bytes
/// are one JSON string value, surrounded by optional white space, and then
/// gives the string that the value holds. Plain characters between two quotes
/// are read back as they stand.
#[verifier::external_body]
fn json_read_string(bytes: &[u8]) -> (r: Result<String, serde_json::Error>)
    ensures
        match r {
            Ok(s) => json_string_value(bytes@) == Some(s@),
            Err(_) => json_string_value(bytes@) is None,
        },
        forall|s: Seq<char>|
            is_plain(s) && bytes@ == encode_utf8(#[trigger] quoted(s)) ==> r.is_ok()
                && r.unwrap()@ == s,
{
    serde_json::from_slice::<String>(bytes)
}

impl Command {
    /// The variant's name, as it stands on the wire.
    pub open spec fn name(self) -> Seq<char> {
        match self {
            Command::Update => seq!['U', 'p', 'd', 'a', 't', 'e'],
            Command::Dummy => seq!['D', 'u', 'm', 'm', 'y'],
        }
    }

    /// The wire text of a command: its name as a JSON string.
    pub open spec fn wire_text(self) -> Seq<char> {
        quoted(self.name())
    }

    /// The command with the given name, if there is one.
    pub open spec fn named(name: Seq<char>) -> Option<Command> {
        if name == Command::Update.name() {
            Some(Command::Update)
        } else if name == Command::Dummy.name() {
            Some(Command::Dummy)
        } else {
            None
        }
    }

    /// The command that a frame holds: the frame is one JSON string, and the
    /// string is a variant's name.
    pub open spec fn decoded(bytes: Seq<u8>) -> Option<Command> {
        match json_string_value(bytes) {
            Some(name) => Command::named(name),
            None => None,
        }
    }

    /// The variant's name.
    pub fn as_str(&self) -> (s: &'static str)
        ensures
            s@ == self.name(),
    {
        match self {
            Command::Update => {
                proof {
                    reveal_strlit("Update");
                }
                assert("Update"@ =~= Command::Update.name());
                "Update"
            },
            Command::Dummy => {
                proof {
                    reveal_strlit("Dummy");
                }
                assert("Dummy"@ =~= Command::Dummy.name());
                "Dummy"
            },
        }
    }

    /// Finds the command with the given name.
    pub fn from_name(name: &str) -> (r: Option<Command>)
        ensures
            r == Command::named(name@),
    {
        let given = name.to_owned();
        if given == Command::Update.as_str().to_owned() {
            Some(Command::Update)
        } else if given == Command::Dummy.as_str().to_owned() {
            Some(Command::Dummy)
        } else {
            None
        }
    }

    /// Writes the command in its wire form.
    pub fn encode(&self) -> (text: String)
        ensures
            text@ == self.wire_text(),
    {
        let name = self.as_str();
        match json_write_string(name) {
            Ok(text) => text,
            Err(_) => unreached(),
        }
    }

    /// Reads a command from a frame. A frame that is not one JSON string, or
    /// whose string names no command, holds none. The wire text of a command
    /// is always read back as that command.
    pub fn decode(bytes: &[u8]) -> (r: Option<Command>)
        ensures
            r == Command::decoded(bytes@),
            forall|c: Command| bytes@ == encode_utf8(#[trigger] c.wire_text()) ==> r == Some(c),
    {
        match json_read_string(bytes) {
            Ok(name) => Command::from_name(name.as_str()),
            Err(_) => None,
        }
    }
}

} // verus!
