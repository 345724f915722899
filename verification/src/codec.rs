//! The wire codec: one JSON object per line in, one JSON object per line out.

use vstd::prelude::*;
use crate::json::{json_document, json_member, json_string, member, parse_document, quote, Field, FieldView};
use crate::text::{texts, to_uppercase, uppercase};

verus! {

/// Reply to a line that is no request.
pub const INVALID_JSON: &'static str = "{\"message\":\"Invalid JSON !!!\"}\n";

/// Reply to `LISTROOMS` while no room exists.
pub const NO_ROOMS: &'static str = "{\"message\":\"No rooms\"}\n";

/// Reply to a request that names a room which was never created.
pub const ROOM_MISSING: &'static str = "{\"message\":\"Room does not exist!\"}\n";

/// Reply to `SENDMSG` from a session that has no room or no username.
pub const JOIN_FIRST: &'static str = "{\"message\":\"Join a room first and set a username!\"}\n";

/// Reply to `CREATEROOM` or `JOINROOM` without a room name.
pub const ROOM_NAME_MISSING: &'static str = "{\"message\":\"Room name is missing!\"}\n";

/// Reply to `SENDMSG` without a message.
pub const MESSAGE_MISSING: &'static str = "{\"message\":\"Message is missing!\"}\n";

/// Reply to a command outside the vocabulary.
pub const UNKNOWN_COMMAND: &'static str = "{\"message\":\"Unknown command\"}\n";

/// One request, as a client sends it on a line of its own.
#[derive(Debug, PartialEq, Eq)]
pub struct Request {
    pub username: String,
    pub arg: String,
    pub msg: Option<String>,
    pub room: Option<String>,
}

/// The mathematical model of a [`Request`].
pub struct RequestView {
    pub username: Seq<char>,
    pub arg: Seq<char>,
    pub msg: Option<Seq<char>>,
    pub room: Option<Seq<char>>,
}

/// The view of an optional string.
pub open spec fn optional_text(s: Option<String>) -> Option<Seq<char>> {
    match s {
        Some(t) => Some(t@),
        None => None,
    }
}

impl View for Request {
    type V = RequestView;

    open spec fn view(&self) -> RequestView {
        RequestView {
            username: self.username@,
            arg: self.arg@,
            msg: optional_text(self.msg),
            room: optional_text(self.room),
        }
    }
}

/// Why a line is no request.
#[derive(Debug, Clone, Copy, PartialEq, Eq, Structural)]
pub enum DecodeError {
    /// The line is not one JSON document.
    Malformed,
    /// The document lacks a required member or holds one of the wrong type.
    Invalid,
}

/// The text of an optional member: absent and `null` both stand for none.
pub open spec fn optional_member(field: FieldView) -> Option<Seq<char>> {
    match field {
        FieldView::Text(t) => Some(t),
        _ => None,
    }
}

/// The request that four members make up. `username` and `arg` must be
/// strings; `msg` and `room` must each be a string, `null` or absent.
pub open spec fn request_of_fields(
    username: FieldView,
    arg: FieldView,
    msg: FieldView,
    room: FieldView,
) -> Option<RequestView> {
    if username is Text && arg is Text && !(msg is Other) && !(room is Other) {
        Some(
            RequestView {
                username: username->Text_0,
                arg: arg->Text_0,
                msg: optional_member(msg),
                room: optional_member(room),
            },
        )
    } else {
        None
    }
}

/// The request that a parsed document holds.
pub open spec fn request_of_document(doc: serde_json::Value) -> Option<RequestView> {
    request_of_fields(
        json_member(doc, "username"@),
        json_member(doc, "arg"@),
        json_member(doc, "msg"@),
        json_member(doc, "room"@),
    )
}

/// What a line decodes to.
pub open spec fn decode(line: Seq<char>) -> Result<RequestView, DecodeError> {
    match json_document(line) {
        None => Err(DecodeError::Malformed),
        Some(doc) => match request_of_document(doc) {
            None => Err(DecodeError::Invalid),
            Some(request) => Ok(request),
        },
    }
}

/// Whether an exec decoding result is the one the model gives.
pub open spec fn decoded_as(
    result: Result<Request, DecodeError>,
    model: Result<RequestView, DecodeError>,
) -> bool {
    match result {
        Ok(request) => model == Ok::<RequestView, DecodeError>(request@),
        Err(e) => model == Err::<RequestView, DecodeError>(e),
    }
}

fn optional_field(field: Field) -> (r: Option<String>)
    ensures
        optional_text(r) == optional_member(field@),
{
    match field {
        Field::Text(t) => Some(t),
        _ => None,
    }
}

impl Request {
    /// Builds a request from the four members of a document, or returns
    /// `None` where a required one is not a string or an optional one is
    /// neither a string nor `null` nor absent.
    pub fn from_fields(username: Field, arg: Field, msg: Field, room: Field) -> (r: Option<Request>)
        ensures
            match r {
                Some(request) => request_of_fields(username@, arg@, msg@, room@) == Some(request@),
                None => request_of_fields(username@, arg@, msg@, room@) is None,
            },
    {
        if let Field::Other = msg {
            return None;
        }
        if let Field::Other = room {
            return None;
        }
        match (username, arg) {
            (Field::Text(u), Field::Text(a)) => Some(
                Request { username: u, arg: a, msg: optional_field(msg), room: optional_field(room) },
            ),
            _ => None,
        }
    }

    /// Decodes one line. Unknown members are ignored.
    pub fn parse(line: &str) -> (r: Result<Request, DecodeError>)
        ensures
            decoded_as(r, decode(line@)),
    {
        match parse_document(line) {
            Err(_) => Err(DecodeError::Malformed),
            Ok(doc) => {
                let username = member(&doc, "username");
                let arg = member(&doc, "arg");
                let msg = member(&doc, "msg");
                let room = member(&doc, "room");
                match Request::from_fields(username, arg, msg, room) {
                    Some(request) => Ok(request),
                    None => Err(DecodeError::Invalid),
                }
            },
        }
    }
}

/// The commands of the protocol.
#[derive(Debug, Clone, Copy, PartialEq, Eq, Structural)]
pub enum Command {
    CreateRoom,
    ListRooms,
    JoinRoom,
    SendMsg,
    Unknown,
}

/// The command that an upper-case word stands for.
pub open spec fn command_of(word: Seq<char>) -> Command {
    if word == "CREATEROOM"@ {
        Command::CreateRoom
    } else if word == "LISTROOMS"@ {
        Command::ListRooms
    } else if word == "JOINROOM"@ {
        Command::JoinRoom
    } else if word == "SENDMSG"@ {
        Command::SendMsg
    } else {
        Command::Unknown
    }
}

impl Command {
    /// Looks an upper-case word up in the vocabulary.
    pub fn from_normalized(word: &str) -> (command: Command)
        ensures
            command == command_of(word@),
    {
        let w: String = word.to_owned();
        if w == "CREATEROOM".to_owned() {
            Command::CreateRoom
        } else if w == "LISTROOMS".to_owned() {
            Command::ListRooms
        } else if w == "JOINROOM".to_owned() {
            Command::JoinRoom
        } else if w == "SENDMSG".to_owned() {
            Command::SendMsg
        } else {
            Command::Unknown
        }
    }

    /// Reads a command word in any letter case.
    pub fn parse(arg: &str) -> (command: Command)
        ensures
            command == command_of(uppercase(arg@)),
    {
        let upper = to_uppercase(arg);
        Command::from_normalized(upper.as_str())
    }
}

/// The line that carries one text to a client.
pub open spec fn message_line(text: Seq<char>) -> Seq<char> {
    "{\"message\":"@ + json_string(text) + "}\n"@
}

/// The JSON literals of some texts, separated by commas.
pub open spec fn literals(items: Seq<Seq<char>>) -> Seq<char>
    decreases items.len(),
{
    if items.len() == 0 {
        Seq::empty()
    } else if items.len() == 1 {
        json_string(items[0])
    } else {
        literals(items.drop_last()) + ","@ + json_string(items.last())
    }
}

/// The line that lists room names.
pub open spec fn rooms_line(names: Seq<Seq<char>>) -> Seq<char> {
    "{\"rooms\":["@ + literals(names) + "]}\n"@
}

/// The line that carries a room's history.
pub open spec fn history_line(history: Seq<Seq<char>>) -> Seq<char> {
    "{\"history\":["@ + literals(history) + "]}\n"@
}

/// Encodes `{"message": text}` and ends the line.
pub fn encode_message(text: &str) -> (line: String)
    ensures
        line@ == message_line(text@),
{
    let mut line = String::from_str("{\"message\":");
    let literal = quote(text);
    line.append(literal.as_str());
    line.append("}\n");
    line
}

fn encode_list(opening: &str, items: &Vec<String>) -> (line: String)
    ensures
        line@ == opening@ + literals(texts(items@)) + "]}\n"@,
{
    let mut line = String::from_str(opening);
    let mut i: usize = 0;
    while i < items.len()
        invariant
            i <= items.len(),
            line@ == opening@ + literals(texts(items@).take(i as int)),
        decreases items.len() - i,
    {
        let ghost before = texts(items@).take(i as int);
        let ghost after = texts(items@).take(i + 1);
        assert(after.drop_last() =~= before);
        assert(after.last() == items@[i as int]@);
        if i > 0 {
            line.append(",");
        }
        let literal = quote(items[i].as_str());
        line.append(literal.as_str());
        assert(line@ =~= opening@ + literals(after));
        i += 1;
    }
    assert(texts(items@).take(i as int) =~= texts(items@));
    line.append("]}\n");
    line
}

/// Encodes `{"rooms": [...]}` and ends the line.
pub fn encode_rooms(names: &Vec<String>) -> (line: String)
    ensures
        line@ == rooms_line(texts(names@)),
{
    encode_list("{\"rooms\":[", names)
}

/// Encodes `{"history": [...]}` and ends the line.
pub fn encode_history(history: &Vec<String>) -> (line: String)
    ensures
        line@ == history_line(texts(history@)),
{
    encode_list("{\"history\":[", history)
}

} // verus!
