//! The messages of a headless session. A message is a length, the length of
//! its header, the header in JSON, and a block of binary data.

use vstd::prelude::*;
use vstd::string::*;

use crate::bits::{self, le32};
use crate::bus;

verus! {

broadcast use bits::group_and_bounds;

/// The four bytes of a word, lowest first.
pub open spec fn word_bytes(v: u32) -> Seq<u8> {
    seq![v as u8, (v >> 8) as u8, (v >> 16) as u8, (v >> 24) as u8]
}

/// A message: both lengths, the header, the data. The first length counts
/// everything after itself.
pub open spec fn message(json: Seq<u8>, blob: Seq<u8>) -> Seq<u8> {
    word_bytes((4 + json.len() + blob.len()) as u32) + word_bytes(json.len() as u32) + json + blob
}

/// The lengths of header and data that the first eight bytes of a message
/// announce; none if they do not fit together.
pub open spec fn lengths(h: Seq<u8>) -> Option<(nat, nat)> {
    let total = le32(h[0], h[1], h[2], h[3]);
    let json = le32(h[4], h[5], h[6], h[7]);
    if total < 4 + json {
        None
    } else {
        Some((json as nat, (total - 4 - json) as nat))
    }
}

/// Reads the two lengths at the start of a message.
pub fn frame_lengths(header: &[u8; 8]) -> (r: Option<(u32, u32)>)
    ensures
        match r {
            Some(p) => lengths(header@) == Some((p.0 as nat, p.1 as nat)),
            None => lengths(header@) is None,
        },
{
    let total: u32 = le32(header[0], header[1], header[2], header[3]);
    let json: u32 = le32(header[4], header[5], header[6], header[7]);
    if (total as u64) < 4 + json as u64 {
        None
    } else {
        Some((json, total - 4 - json))
    }
}

fn push_word(bytes: &mut Vec<u8>, v: u32)
    ensures
        final(bytes)@ == old(bytes)@ + word_bytes(v),
{
    bytes.push(v as u8);
    bytes.push((v >> 8) as u8);
    bytes.push((v >> 16) as u8);
    bytes.push((v >> 24) as u8);
    assert(bytes@ =~= old(bytes)@ + word_bytes(v));
}

fn push_bytes(bytes: &mut Vec<u8>, data: &[u8])
    ensures
        final(bytes)@ == old(bytes)@ + data@,
{
    let ghost before = bytes@;
    let mut i: usize = 0;
    while i < data.len()
        invariant
            i <= data@.len(),
            bytes@ == before + data@.take(i as int),
        decreases data@.len() - i,
    {
        bytes.push(data[i]);
        assert(data@.take(i + 1) =~= data@.take(i as int).push(data@[i as int]));
        i = i + 1;
    }
    assert(data@.take(data@.len() as int) =~= data@);
}

/// Builds a message.
pub fn frame_message(json: &[u8], blob: &[u8]) -> (bytes: Vec<u8>)
    requires
        4 + json@.len() + blob@.len() <= u32::MAX,
    ensures
        bytes@ == message(json@, blob@),
{
    let mut bytes: Vec<u8> = Vec::new();
    push_word(&mut bytes, 4 + json.len() as u32 + blob.len() as u32);
    push_word(&mut bytes, json.len() as u32);
    push_bytes(&mut bytes, json);
    push_bytes(&mut bytes, blob);
    assert(bytes@ =~= message(json@, blob@));
    bytes
}

/// A message announces its own lengths, and its parts follow where they say.
pub proof fn messages_read_back(json: Seq<u8>, blob: Seq<u8>)
    requires
        4 + json.len() + blob.len() <= u32::MAX,
    ensures
        message(json, blob).len() == 8 + json.len() + blob.len(),
        lengths(message(json, blob)) == Some((json.len(), blob.len())),
        message(json, blob).subrange(8, 8 + json.len() as int) == json,
        message(json, blob).skip(8 + json.len() as int) == blob,
{
    let total = (4 + json.len() + blob.len()) as u32;
    bus::laws::bytes_of_word(total);
    bus::laws::bytes_of_word(json.len() as u32);
    let m = message(json, blob);
    assert(m.subrange(8, 8 + json.len() as int) =~= json);
    assert(m.skip(8 + json.len() as int) =~= blob);
}

/// Whether `serde_json::from_slice` reads the bytes as a value.
pub uninterp spec fn json_parses(json: Seq<u8>) -> bool;

/// The string under `key` of the value that `serde_json::from_slice` reads from
/// the bytes, if it is an object that has one there.
pub uninterp spec fn json_text_field(json: Seq<u8>, key: Seq<char>) -> Option<Seq<char>>;

/// The unsigned number under `key` of that value, if it has one there.
pub uninterp spec fn json_number_field(json: Seq<u8>, key: Seq<char>) -> Option<u64>;

/// The view of an optional text.
pub open spec fn text_view(t: Option<String>) -> Option<Seq<char>> {
    match t {
        Some(s) => Some(s@),
        None => None,
    }
}

/// Calls `serde_json::from_slice`: whether the bytes are JSON depends on them
/// alone.
#[verifier::external_body]
fn json_valid(json: &[u8]) -> (b: bool)
    ensures
        b == json_parses(json@),
{
    serde_json::from_slice::<serde_json::Value>(json).is_ok()
}

/// Calls `serde_json::from_slice`, then `Value::get` and `Value::as_str`: the
/// text depends on the bytes and the key alone, and there is none if the bytes
/// are no JSON.
#[verifier::external_body]
fn json_text(json: &[u8], key: &str) -> (t: Option<String>)
    ensures
        text_view(t) == json_text_field(json@, key@),
        !json_parses(json@) ==> t is None,
{
    let value: serde_json::Value = serde_json::from_slice(json).ok()?;
    let text: &str = value.get(key)?.as_str()?;
    Some(text.to_string())
}

/// Calls `serde_json::from_slice`, then `Value::get` and `Value::as_u64`: the
/// number depends on the bytes and the key alone, and there is none if the
/// bytes are no JSON.
#[verifier::external_body]
fn json_number(json: &[u8], key: &str) -> (n: Option<u64>)
    ensures
        n == json_number_field(json@, key@),
        !json_parses(json@) ==> n is None,
{
    let value: serde_json::Value = serde_json::from_slice(json).ok()?;
    value.get(key)?.as_u64()
}

/// What the other side asks for.
#[derive(Debug)]
pub enum Request {
    Hello,
    Bye,
    LoadRom(Option<String>),
    LoadBios(Option<String>),
    LoadSave(Option<String>),
    Reset,
    SetInput(u16),
    Step(u64),
    GetVideo,
    GetAudio,
    SaveState,
    LoadState,
    Peek(u32, u32),
    Unknown(String),
}

/// A request, its texts as sequences of characters.
pub enum RequestView {
    Hello,
    Bye,
    LoadRom(Option<Seq<char>>),
    LoadBios(Option<Seq<char>>),
    LoadSave(Option<Seq<char>>),
    Reset,
    SetInput(u16),
    Step(u64),
    GetVideo,
    GetAudio,
    SaveState,
    LoadState,
    Peek(u32, u32),
    Unknown(Seq<char>),
}

impl View for Request {
    type V = RequestView;

    open spec fn view(&self) -> RequestView {
        match *self {
            Request::Hello => RequestView::Hello,
            Request::Bye => RequestView::Bye,
            Request::LoadRom(p) => RequestView::LoadRom(text_view(p)),
            Request::LoadBios(p) => RequestView::LoadBios(text_view(p)),
            Request::LoadSave(p) => RequestView::LoadSave(text_view(p)),
            Request::Reset => RequestView::Reset,
            Request::SetInput(b) => RequestView::SetInput(b),
            Request::Step(n) => RequestView::Step(n),
            Request::GetVideo => RequestView::GetVideo,
            Request::GetAudio => RequestView::GetAudio,
            Request::SaveState => RequestView::SaveState,
            Request::LoadState => RequestView::LoadState,
            Request::Peek(a, n) => RequestView::Peek(a, n),
            Request::Unknown(c) => RequestView::Unknown(c@),
        }
    }
}

/// The fields of a request's header that any command reads.
#[derive(Debug)]
pub struct Fields {
    pub path: Option<String>,
    pub buttons: Option<u64>,
    pub frames: Option<u64>,
    pub addr: Option<u64>,
    pub len: Option<u64>,
}

/// Those fields, the path as a sequence of characters.
pub struct FieldsView {
    pub path: Option<Seq<char>>,
    pub buttons: Option<u64>,
    pub frames: Option<u64>,
    pub addr: Option<u64>,
    pub len: Option<u64>,
}

impl View for Fields {
    type V = FieldsView;

    open spec fn view(&self) -> FieldsView {
        FieldsView {
            path: text_view(self.path),
            buttons: self.buttons,
            frames: self.frames,
            addr: self.addr,
            len: self.len,
        }
    }
}

/// Which buttons the machine has.
pub const BUTTON_MASK: u16 = 0x03FF;

/// The number, or `default` where it is missing.
#[verifier::allow_in_spec]
pub fn number_or(n: Option<u64>, default: u64) -> u64
    returns
        (match n {
            Some(v) => v,
            None => default,
        }),
{
    match n {
        Some(v) => v,
        None => default,
    }
}

/// The request that a command and its fields stand for. Missing numbers are
/// zero, but at least one frame is stepped.
pub open spec fn requested(cmd: Seq<char>, f: FieldsView) -> RequestView {
    if cmd == "hello"@ {
        RequestView::Hello
    } else if cmd == "bye"@ {
        RequestView::Bye
    } else if cmd == "load_rom"@ {
        RequestView::LoadRom(f.path)
    } else if cmd == "load_bios"@ {
        RequestView::LoadBios(f.path)
    } else if cmd == "load_save"@ {
        RequestView::LoadSave(f.path)
    } else if cmd == "reset"@ {
        RequestView::Reset
    } else if cmd == "set_input"@ {
        RequestView::SetInput(number_or(f.buttons, 0) as u16 & BUTTON_MASK)
    } else if cmd == "step"@ {
        let n = number_or(f.frames, 1);
        RequestView::Step(
            if n < 1 {
                1
            } else {
                n
            },
        )
    } else if cmd == "get_video"@ {
        RequestView::GetVideo
    } else if cmd == "get_audio"@ {
        RequestView::GetAudio
    } else if cmd == "save_state"@ {
        RequestView::SaveState
    } else if cmd == "load_state"@ {
        RequestView::LoadState
    } else if cmd == "peek"@ {
        RequestView::Peek(number_or(f.addr, 0) as u32, number_or(f.len, 0) as u32)
    } else {
        RequestView::Unknown(cmd)
    }
}

fn is_command(cmd: &String, name: &str) -> (b: bool)
    ensures
        b == (cmd@ == name@),
{
    *cmd == name.to_owned()
}

/// Makes a request of a command and its fields.
pub fn classify(cmd: String, f: Fields) -> (r: Request)
    ensures
        r@ == requested(cmd@, f@),
{
    if is_command(&cmd, "hello") {
        Request::Hello
    } else if is_command(&cmd, "bye") {
        Request::Bye
    } else if is_command(&cmd, "load_rom") {
        Request::LoadRom(f.path)
    } else if is_command(&cmd, "load_bios") {
        Request::LoadBios(f.path)
    } else if is_command(&cmd, "load_save") {
        Request::LoadSave(f.path)
    } else if is_command(&cmd, "reset") {
        Request::Reset
    } else if is_command(&cmd, "set_input") {
        Request::SetInput(number_or(f.buttons, 0) as u16 & BUTTON_MASK)
    } else if is_command(&cmd, "step") {
        let n: u64 = number_or(f.frames, 1);
        Request::Step(
            if n < 1 {
                1
            } else {
                n
            },
        )
    } else if is_command(&cmd, "get_video") {
        Request::GetVideo
    } else if is_command(&cmd, "get_audio") {
        Request::GetAudio
    } else if is_command(&cmd, "save_state") {
        Request::SaveState
    } else if is_command(&cmd, "load_state") {
        Request::LoadState
    } else if is_command(&cmd, "peek") {
        Request::Peek(number_or(f.addr, 0) as u32, number_or(f.len, 0) as u32)
    } else {
        Request::Unknown(cmd)
    }
}

/// The fields of the header `json`.
pub open spec fn fields_of(json: Seq<u8>) -> FieldsView {
    FieldsView {
        path: json_text_field(json, "path"@),
        buttons: json_number_field(json, "buttons"@),
        frames: json_number_field(json, "frames"@),
        addr: json_number_field(json, "addr"@),
        len: json_number_field(json, "len"@),
    }
}

/// The command of a header; a missing one is empty.
pub open spec fn command_of(json: Seq<u8>) -> Seq<char> {
    match json_text_field(json, "cmd"@) {
        Some(c) => c,
        None => Seq::empty(),
    }
}

/// Reads a request from a message's header. None if it is no JSON.
pub fn parse_request(json: &[u8]) -> (r: Option<Request>)
    ensures
        r is Some <==> json_parses(json@),
        r is Some ==> r->0@ == requested(command_of(json@), fields_of(json@)),
{
    if !json_valid(json) {
        return None;
    }
    let cmd: String = match json_text(json, "cmd") {
        Some(c) => c,
        None => String::new(),
    };
    let f = Fields {
        path: json_text(json, "path"),
        buttons: json_number(json, "buttons"),
        frames: json_number(json, "frames"),
        addr: json_number(json, "addr"),
        len: json_number(json, "len"),
    };
    Some(classify(cmd, f))
}

/// A length goes out lowest byte first, and the first length of a message is
/// that of the rest.
pub proof fn lengths_are_little_endian(v: u32, json: Seq<u8>, blob: Seq<u8>)
    requires
        4 + json.len() + blob.len() <= 0xFFFF_FFFF,
    ensures
        ({
            let w = word_bytes(v);
            w[0] + 0x100 * w[1] + 0x1_0000 * w[2] + 0x100_0000 * w[3] == v
        }),
        message(json, blob).len() == 8 + json.len() + blob.len(),
        message(json, blob).subrange(0, 4) == word_bytes(
            (message(json, blob).len() - 4) as u32,
        ),
        message(json, blob).subrange(4, 8) == word_bytes(json.len() as u32),
{
    crate::bus::laws::bytes_of_word(v);
    crate::bus::map::joined_bits(
        0,
        0,
        v as u8,
        (v >> 8) as u8,
        (v >> 16) as u8,
        (v >> 24) as u8,
    );
    let m = message(json, blob);
    assert(m.subrange(0, 4) =~= word_bytes((4 + json.len() + blob.len()) as u32));
    assert(m.subrange(4, 8) =~= word_bytes(json.len() as u32));
}

} // verus!
