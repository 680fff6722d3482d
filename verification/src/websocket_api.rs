use vstd::prelude::*;

verus! {

/// The name under which the websocket service registers.
pub const SERVER_NAME_WEBSOCKET: &'static str = "_Websocket Service_";

/// Limit on the byte length of url strings.
pub const URL_LENGTH_LIMIT: usize = 200;

/// Limit on the byte length of a certificate authority string.
pub const CA_LEN: usize = 1402;

/// Limit on the byte length of base-url strings.
pub const BASEURL_LEN: usize = 128;

/// Limit on the byte length of url path strings.
pub const PATH_LEN: usize = 128;

/// Limit on the byte length of authentication login strings.
pub const LOGIN_LEN: usize = 128;

/// Limit on the byte length of authentication password strings.
pub const PASSWORD_LEN: usize = 128;

/// Limit on the byte length of websocket sub-protocol strings.
pub const SUB_PROTOCOL_LEN: usize = 24;

/// Limit on the byte length of error hint strings.
pub const HINT_LEN: usize = 128;

/// The operations of the websocket service; anyone may call them at any time.
#[derive(Clone, Copy, Debug, PartialEq, Eq, Structural)]
pub enum Opcode {
    /// Close an existing websocket.
    Close,
    /// Open a new websocket described by a `WebsocketConfig`.
    Open,
    /// Send a websocket frame.
    Send,
    /// Report the current state of the websocket (1 = open, 0 = not open).
    State,
    /// Close all websockets and shut the server down.
    Quit,
}

/// The message number of each opcode: numbering starts at 1 with `Close`.
pub open spec fn opcode_number(op: Opcode) -> nat {
    match op {
        Opcode::Close => 1,
        Opcode::Open => 2,
        Opcode::Send => 3,
        Opcode::State => 4,
        Opcode::Quit => 5,
    }
}

/// The opcode carried by a message number, if any.
pub open spec fn opcode_from_number(n: nat) -> Option<Opcode> {
    if n == 1 {
        Some(Opcode::Close)
    } else if n == 2 {
        Some(Opcode::Open)
    } else if n == 3 {
        Some(Opcode::Send)
    } else if n == 4 {
        Some(Opcode::State)
    } else if n == 5 {
        Some(Opcode::Quit)
    } else {
        None
    }
}

impl Opcode {
    /// The message number that carries this opcode.
    pub fn to_usize(&self) -> (n: usize)
        ensures
            n == opcode_number(*self),
    {
        match self {
            Opcode::Close => 1,
            Opcode::Open => 2,
            Opcode::Send => 3,
            Opcode::State => 4,
            Opcode::Quit => 5,
        }
    }

    /// Decodes a message number; numbers that carry no opcode give `None`.
    pub fn from_usize(n: usize) -> (op: Option<Opcode>)
        ensures
            op == opcode_from_number(n as nat),
    {
        match n {
            1 => Some(Opcode::Close),
            2 => Some(Opcode::Open),
            3 => Some(Opcode::Send),
            4 => Some(Opcode::State),
            5 => Some(Opcode::Quit),
            _ => None,
        }
    }
}

/// Decoding an opcode's message number gives that opcode back, and a number
/// decodes to an opcode only if it is that opcode's number.
pub proof fn lemma_opcode_numbering_round_trip(op: Opcode, n: nat)
    ensures
        opcode_from_number(opcode_number(op)) == Some(op),
        opcode_from_number(n) == Some(op) ==> opcode_number(op) == n,
{
}

/// The opcodes are numbered in the order they are declared, from 1: `Close`
/// is 1, `Open` 2, `Send` 3, `State` 4 and `Quit` 5; no other number carries an
/// opcode.
pub proof fn lemma_opcode_numbers(n: nat)
    ensures
        opcode_number(Opcode::Close) == 1,
        opcode_number(Opcode::Open) == 2,
        opcode_number(Opcode::Send) == 3,
        opcode_number(Opcode::State) == 4,
        opcode_number(Opcode::Quit) == 5,
        opcode_from_number(1) == Some(Opcode::Close),
        opcode_from_number(2) == Some(Opcode::Open),
        opcode_from_number(3) == Some(Opcode::Send),
        opcode_from_number(4) == Some(Opcode::State),
        opcode_from_number(5) == Some(Opcode::Quit),
        (n == 0 || n > 5) ==> opcode_from_number(n) is None,
{
}

/// Errors of the websocket service.
#[derive(Clone, Copy, Debug, PartialEq, Eq, Structural)]
pub enum WsError {
    /// This opcode accepts scalar calls.
    Scalar,
    /// This opcode accepts blocking scalar calls.
    ScalarBlock,
    /// This opcode accepts memory calls.
    Memory,
    /// This opcode accepts blocking memory calls.
    MemoryBlock,
    /// Websocket assets corruption.
    AssetsFault,
    /// Error in the websocket protocol.
    ProtocolError,
}

/// The number of each error; numbering starts at 0 with `Scalar`.
pub open spec fn ws_error_number(e: WsError) -> nat {
    match e {
        WsError::Scalar => 0,
        WsError::ScalarBlock => 1,
        WsError::Memory => 2,
        WsError::MemoryBlock => 3,
        WsError::AssetsFault => 4,
        WsError::ProtocolError => 5,
    }
}

impl WsError {
    /// The number that carries this error.
    pub fn to_usize(&self) -> (n: usize)
        ensures
            n == ws_error_number(*self),
    {
        match self {
            WsError::Scalar => 0,
            WsError::ScalarBlock => 1,
            WsError::Memory => 2,
            WsError::MemoryBlock => 3,
            WsError::AssetsFault => 4,
            WsError::ProtocolError => 5,
        }
    }

    /// Decodes an error number; numbers that carry no error give `None`.
    pub fn from_usize(n: usize) -> (e: Option<WsError>)
        ensures
            match e {
                Some(x) => ws_error_number(x) == n,
                None => n > 5,
            },
    {
        match n {
            0 => Some(WsError::Scalar),
            1 => Some(WsError::ScalarBlock),
            2 => Some(WsError::Memory),
            3 => Some(WsError::MemoryBlock),
            4 => Some(WsError::AssetsFault),
            5 => Some(WsError::ProtocolError),
            _ => None,
        }
    }
}

/// The errors are numbered in the order they are declared, from 0:
/// `Scalar` 0, `ScalarBlock` 1, `Memory` 2, `MemoryBlock` 3, `AssetsFault` 4,
/// `ProtocolError` 5.
pub proof fn lemma_ws_error_numbers()
    ensures
        ws_error_number(WsError::Scalar) == 0,
        ws_error_number(WsError::ScalarBlock) == 1,
        ws_error_number(WsError::Memory) == 2,
        ws_error_number(WsError::MemoryBlock) == 3,
        ws_error_number(WsError::AssetsFault) == 4,
        ws_error_number(WsError::ProtocolError) == 5,
{
}

/// The answer to an `Open` request: the sub-protocol that the server chose
/// (at most `SUB_PROTOCOL_LEN` bytes), or a hint on why it failed (at most
/// `HINT_LEN` bytes).
pub enum Return {
    SubProtocol(String),
    Failure(String),
}

/// The setup of a websocket. Each string field is held in an IPC buffer of
/// the length limit named beside it.
pub struct WebsocketConfig {
    /// Optional certificate authority for a TLS connection (`CA_LEN`);
    /// without one the connection falls back to plain TCP.
    pub certificate_authority: Option<String>,
    /// The url of the target websocket server (`BASEURL_LEN`).
    pub base_url: String,
    /// A path to append to the url (`PATH_LEN`).
    pub path: String,
    /// Sub-protocols offered to the server (`SUB_PROTOCOL_LEN` each).
    pub sub_protocols: [String; 3],
    /// Whether to authenticate.
    pub use_credentials: bool,
    /// Authentication username (`LOGIN_LEN`).
    pub login: String,
    /// Authentication password (`PASSWORD_LEN`).
    pub password: String,
    /// The connection that receives inbound data frames.
    pub cid: u32,
    /// The opcode of inbound data frames.
    pub opcode: u32,
}

/// The length in bytes of a string's UTF-8 encoding.
pub open spec fn utf8_len(s: String) -> nat {
    vstd::utf8::encode_utf8(s@).len()
}

/// Every string of the answer fits the IPC buffer it travels in.
pub open spec fn return_within_limits(r: Return) -> bool {
    match r {
        Return::SubProtocol(s) => utf8_len(s) <= SUB_PROTOCOL_LEN,
        Return::Failure(s) => utf8_len(s) <= HINT_LEN,
    }
}

/// Every string of the configuration fits the IPC buffer it travels in.
pub open spec fn config_within_limits(c: WebsocketConfig) -> bool {
    &&& match c.certificate_authority {
        Some(ca) => utf8_len(ca) <= CA_LEN,
        None => true,
    }
    &&& utf8_len(c.base_url) <= BASEURL_LEN
    &&& utf8_len(c.path) <= PATH_LEN
    &&& forall|i: int| 0 <= i < 3 ==> utf8_len(#[trigger] c.sub_protocols[i]) <= SUB_PROTOCOL_LEN
    &&& utf8_len(c.login) <= LOGIN_LEN
    &&& utf8_len(c.password) <= PASSWORD_LEN
}

/// A configuration fits its IPC buffers exactly when each string does: the
/// certificate authority at most 1402 bytes, base url, path, login and
/// password at most 128 bytes each, and each sub-protocol at most 24 bytes.
pub proof fn lemma_config_limits(c: WebsocketConfig)
    ensures
        config_within_limits(c) <==> {
            &&& (c.certificate_authority matches Some(ca) ==> utf8_len(ca) <= 1402)
            &&& utf8_len(c.base_url) <= 128
            &&& utf8_len(c.path) <= 128
            &&& utf8_len(c.sub_protocols[0]) <= 24
            &&& utf8_len(c.sub_protocols[1]) <= 24
            &&& utf8_len(c.sub_protocols[2]) <= 24
            &&& utf8_len(c.login) <= 128
            &&& utf8_len(c.password) <= 128
        },
{
    if utf8_len(c.sub_protocols[0]) <= 24 && utf8_len(c.sub_protocols[1]) <= 24 && utf8_len(
        c.sub_protocols[2],
    ) <= 24 {
        assert forall|i: int| 0 <= i < 3 implies utf8_len(#[trigger] c.sub_protocols[i]) <= 24 by {
            if i == 0 {
            } else if i == 1 {
            } else {
            }
        }
    }
}

/// An answer fits its IPC buffer exactly when its sub-protocol is at most 24
/// bytes, or its failure hint at most 128 bytes.
pub proof fn lemma_return_limits(r: Return)
    ensures
        return_within_limits(r) <==> match r {
            Return::SubProtocol(p) => utf8_len(p) <= 24,
            Return::Failure(h) => utf8_len(h) <= 128,
        },
{
}

fn byte_len(s: &String) -> (n: usize)
    ensures
        n == utf8_len(*s),
{
    s.as_str().as_bytes().len()
}

impl Return {
    /// Whether the answer's string fits its IPC buffer.
    pub fn within_limits(&self) -> (ok: bool)
        ensures
            ok == return_within_limits(*self),
            ok <==> match self {
                Return::SubProtocol(p) => utf8_len(*p) <= 24,
                Return::Failure(h) => utf8_len(*h) <= 128,
            },
    {
        match self {
            Return::SubProtocol(s) => byte_len(s) <= SUB_PROTOCOL_LEN,
            Return::Failure(s) => byte_len(s) <= HINT_LEN,
        }
    }
}

impl WebsocketConfig {
    /// Whether every string of the configuration fits its IPC buffer.
    pub fn within_limits(&self) -> (ok: bool)
        ensures
            ok == config_within_limits(*self),
            ok <==> {
                &&& (self.certificate_authority matches Some(ca) ==> utf8_len(ca) <= 1402)
                &&& utf8_len(self.base_url) <= 128
                &&& utf8_len(self.path) <= 128
                &&& utf8_len(self.sub_protocols[0]) <= 24
                &&& utf8_len(self.sub_protocols[1]) <= 24
                &&& utf8_len(self.sub_protocols[2]) <= 24
                &&& utf8_len(self.login) <= 128
                &&& utf8_len(self.password) <= 128
            },
    {
        let ca_ok = match &self.certificate_authority {
            Some(ca) => byte_len(ca) <= CA_LEN,
            None => true,
        };
        let protocols_ok = byte_len(&self.sub_protocols[0]) <= SUB_PROTOCOL_LEN && byte_len(
            &self.sub_protocols[1],
        ) <= SUB_PROTOCOL_LEN && byte_len(&self.sub_protocols[2]) <= SUB_PROTOCOL_LEN;
        proof {
            if protocols_ok {
                assert forall|i: int| 0 <= i < 3 implies utf8_len(#[trigger] self.sub_protocols[i])
                    <= SUB_PROTOCOL_LEN by {
                    if i == 0 {
                    } else if i == 1 {
                    } else {
                    }
                }
            }
        }
        ca_ok && byte_len(&self.base_url) <= BASEURL_LEN && byte_len(&self.path) <= PATH_LEN && protocols_ok
            && byte_len(&self.login) <= LOGIN_LEN && byte_len(&self.password) <= PASSWORD_LEN
    }
}

} // verus!
