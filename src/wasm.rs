use vstd::prelude::*;
use vstd::utf8::{decode_utf8, encode_utf8, valid_utf8};

use crate::ids::{recipient_of_word, ClientId, MessageRecipient};
use crate::messages::{MessageFromServer, MessagePayload, ServiceEvent};

verus! {

/// The guest API version this host runs.
pub const SUPPORTED_API_VERSION: i32 = 1;

/// The guest protocol this host speaks.
pub const SUPPORTED_PROTOCOL_VERSION: i32 = 0;

/// An error met while loading a WebAssembly guest module.
#[derive(Clone, Copy, Debug, PartialEq, Eq, Structural)]
pub enum WasmRuntimeError {
    CouldNotImportMemory,
    CouldNotImportGlobal,
    InvalidApiVersion,
    InvalidProtocolVersion,
}

/// The variant's name, which is how the error displays itself.
pub open spec fn error_name(e: WasmRuntimeError) -> Seq<char> {
    match e {
        WasmRuntimeError::CouldNotImportMemory => "CouldNotImportMemory"@,
        WasmRuntimeError::CouldNotImportGlobal => "CouldNotImportGlobal"@,
        WasmRuntimeError::InvalidApiVersion => "InvalidApiVersion"@,
        WasmRuntimeError::InvalidProtocolVersion => "InvalidProtocolVersion"@,
    }
}

impl WasmRuntimeError {
    /// The variant's name.
    pub fn name(&self) -> (r: &'static str)
        ensures
            r@ == error_name(*self),
    {
        match self {
            WasmRuntimeError::CouldNotImportMemory => "CouldNotImportMemory",
            WasmRuntimeError::CouldNotImportGlobal => "CouldNotImportGlobal",
            WasmRuntimeError::InvalidApiVersion => "InvalidApiVersion",
            WasmRuntimeError::InvalidProtocolVersion => "InvalidProtocolVersion",
        }
    }

    /// The displayed form of the error: its variant's name.
    pub fn to_string(&self) -> (r: String)
        ensures
            r@ == error_name(*self),
    {
        self.name().to_owned()
    }

    /// A sentence that explains the error.
    pub fn description(&self) -> (r: &'static str)
        ensures
            r@ == match *self {
                WasmRuntimeError::CouldNotImportMemory => "Could not import memory from wasm instance."@,
                WasmRuntimeError::CouldNotImportGlobal => "Could not read global variable from wasm instance."@,
                WasmRuntimeError::InvalidApiVersion => "WebAssembly module has an incompatible Stateroom API version."@,
                WasmRuntimeError::InvalidProtocolVersion => "WebAssembly module has an incompatible Stateroom protocol version."@,
            },
    {
        match self {
            WasmRuntimeError::CouldNotImportMemory => "Could not import memory from wasm instance.",
            WasmRuntimeError::CouldNotImportGlobal => "Could not read global variable from wasm instance.",
            WasmRuntimeError::InvalidApiVersion => {
                "WebAssembly module has an incompatible Stateroom API version."
            },
            WasmRuntimeError::InvalidProtocolVersion => {
                "WebAssembly module has an incompatible Stateroom protocol version."
            },
        }
    }
}

/// The outcome of loading a module whose exports hold the given version
/// globals (`None` when absent) and whether it exports its memory. The
/// version globals are read and checked first, the API version before the
/// protocol version, then the memory.
pub open spec fn load_outcome(
    api_version: Option<i32>,
    protocol_version: Option<i32>,
    has_memory: bool,
) -> Result<(), WasmRuntimeError> {
    if api_version.is_none() {
        Err(WasmRuntimeError::CouldNotImportGlobal)
    } else if api_version.unwrap() != SUPPORTED_API_VERSION {
        Err(WasmRuntimeError::InvalidApiVersion)
    } else if protocol_version.is_none() {
        Err(WasmRuntimeError::CouldNotImportGlobal)
    } else if protocol_version.unwrap() != SUPPORTED_PROTOCOL_VERSION {
        Err(WasmRuntimeError::InvalidProtocolVersion)
    } else if !has_memory {
        Err(WasmRuntimeError::CouldNotImportMemory)
    } else {
        Ok(())
    }
}

/// Decides whether a guest module may be run; the host calls the guest's
/// `initialize` only after `Ok`.
pub fn check_module(
    api_version: Option<i32>,
    protocol_version: Option<i32>,
    has_memory: bool,
) -> (r: Result<(), WasmRuntimeError>)
    ensures
        r == load_outcome(api_version, protocol_version, has_memory),
{
    match api_version {
        None => return Err(WasmRuntimeError::CouldNotImportGlobal),
        Some(v) => if v != SUPPORTED_API_VERSION {
            return Err(WasmRuntimeError::InvalidApiVersion);
        },
    }
    match protocol_version {
        None => return Err(WasmRuntimeError::CouldNotImportGlobal),
        Some(v) => if v != SUPPORTED_PROTOCOL_VERSION {
            return Err(WasmRuntimeError::InvalidProtocolVersion);
        },
    }
    if !has_memory {
        return Err(WasmRuntimeError::CouldNotImportMemory);
    }
    Ok(())
}

/// Why a call from the guest was dropped.
#[derive(Clone, Copy, Debug, PartialEq, Eq, Structural)]
pub enum DecodeError {
    /// The recipient word carries the reserved tag.
    InvalidRecipient,
    /// The text is not UTF-8.
    InvalidUtf8,
}

/// Relies on `String::from_utf8`: it succeeds exactly on valid UTF-8, and
/// the string then holds the characters those bytes encode.
#[verifier::external_body]
fn text_from_utf8(bytes: Vec<u8>) -> (r: Option<String>)
    ensures
        r.is_some() == valid_utf8(bytes@),
        r.is_some() ==> r.unwrap()@ == decode_utf8(bytes@),
{
    String::from_utf8(bytes).ok()
}

/// The message for a guest's `send_message` call, given the recipient word
/// and the text its bytes decoded to (`None` when they were not UTF-8).
pub fn text_message_from(recipient: u32, text: Option<String>) -> (r: Result<
    MessageFromServer,
    DecodeError,
>)
    ensures
        recipient_of_word(recipient).is_none() ==> r == Err::<MessageFromServer, DecodeError>(
            DecodeError::InvalidRecipient,
        ),
        recipient_of_word(recipient).is_some() && text.is_none() ==> r == Err::<
            MessageFromServer,
            DecodeError,
        >(DecodeError::InvalidUtf8),
        recipient_of_word(recipient).is_some() && text.is_some() ==> r == Ok::<
            MessageFromServer,
            DecodeError,
        >(
            MessageFromServer {
                to_client: recipient_of_word(recipient).unwrap(),
                data: MessagePayload::Text(text.unwrap()),
            },
        ),
{
    match MessageRecipient::decode_u32(recipient) {
        None => Err(DecodeError::InvalidRecipient),
        Some(to) => match text {
            None => Err(DecodeError::InvalidUtf8),
            Some(t) => Ok(MessageFromServer::new(to, t)),
        },
    }
}

/// The message for a guest's `send_message` call with the bytes it pointed
/// at: dropped when the recipient word is reserved or the bytes are not
/// UTF-8.
pub fn guest_send_message(recipient: u32, bytes: Vec<u8>) -> (r: Result<
    MessageFromServer,
    DecodeError,
>)
    ensures
        recipient_of_word(recipient).is_none() ==> r == Err::<MessageFromServer, DecodeError>(
            DecodeError::InvalidRecipient,
        ),
        recipient_of_word(recipient).is_some() && !valid_utf8(bytes@) ==> r == Err::<
            MessageFromServer,
            DecodeError,
        >(DecodeError::InvalidUtf8),
        recipient_of_word(recipient).is_some() && valid_utf8(bytes@) ==> match r {
            Ok(m) => m.to_client == recipient_of_word(recipient).unwrap() && match m.data {
                MessagePayload::Text(t) => t@ == decode_utf8(bytes@),
                MessagePayload::Binary(_) => false,
            },
            Err(_) => false,
        },
{
    let text = text_from_utf8(bytes);
    text_message_from(recipient, text)
}

/// The message for a guest's `send_binary` call with the bytes it pointed
/// at: dropped when the recipient word is reserved.
pub fn guest_send_binary(recipient: u32, bytes: Vec<u8>) -> (r: Result<
    MessageFromServer,
    DecodeError,
>)
    ensures
        recipient_of_word(recipient).is_none() ==> r == Err::<MessageFromServer, DecodeError>(
            DecodeError::InvalidRecipient,
        ),
        recipient_of_word(recipient).is_some() ==> r == Ok::<MessageFromServer, DecodeError>(
            MessageFromServer {
                to_client: recipient_of_word(recipient).unwrap(),
                data: MessagePayload::Binary(bytes),
            },
        ),
{
    match MessageRecipient::decode_u32(recipient) {
        None => Err(DecodeError::InvalidRecipient),
        Some(to) => Ok(MessageFromServer::new_binary(to, bytes)),
    }
}

/// A function that the guest exports for the host to call.
#[derive(Clone, Copy, Debug, PartialEq, Eq, Structural)]
pub enum GuestExport {
    Connect,
    Disconnect,
    Message,
    Binary,
    Timer,
}

impl GuestExport {
    /// The export's symbol in the guest module.
    pub fn symbol(&self) -> (r: &'static str)
        ensures
            r@ == match *self {
                GuestExport::Connect => "connect"@,
                GuestExport::Disconnect => "disconnect"@,
                GuestExport::Message => "message"@,
                GuestExport::Binary => "binary"@,
                GuestExport::Timer => "timer"@,
            },
    {
        match self {
            GuestExport::Connect => "connect",
            GuestExport::Disconnect => "disconnect",
            GuestExport::Message => "message",
            GuestExport::Binary => "binary",
            GuestExport::Timer => "timer",
        }
    }
}

/// One call into the guest: the export, its client argument, and the bytes
/// the host must place in guest memory (with `malloc`, and release with
/// `free` after the call) and pass as pointer and length.
#[derive(Clone, Debug, PartialEq, Eq)]
pub struct GuestCall {
    pub export: GuestExport,
    pub client: Option<u32>,
    pub payload: Option<Vec<u8>>,
}

/// Whether `call` is how the host delivers `event` to a guest.
pub open spec fn delivers(call: GuestCall, event: ServiceEvent) -> bool {
    match event {
        ServiceEvent::Connect(c) => call.export == GuestExport::Connect && call.client == Some(c.0)
            && call.payload.is_none(),
        ServiceEvent::Disconnect(c) => call.export == GuestExport::Disconnect && call.client
            == Some(c.0) && call.payload.is_none(),
        ServiceEvent::Message(c, t) => call.export == GuestExport::Message && call.client == Some(
            c.0,
        ) && call.payload.is_some() && call.payload.unwrap()@ == encode_utf8(t@),
        ServiceEvent::Binary(c, b) => call.export == GuestExport::Binary && call.client == Some(c.0)
            && call.payload == Some(b),
        ServiceEvent::Timer => call.export == GuestExport::Timer && call.client.is_none()
            && call.payload.is_none(),
    }
}

/// The guest call that delivers a service event: text travels as its UTF-8
/// bytes, binary as it is.
pub fn guest_call(event: ServiceEvent) -> (r: GuestCall)
    ensures
        delivers(r, event),
{
    match event {
        ServiceEvent::Connect(ClientId(c)) => GuestCall {
            export: GuestExport::Connect,
            client: Some(c),
            payload: None,
        },
        ServiceEvent::Disconnect(ClientId(c)) => GuestCall {
            export: GuestExport::Disconnect,
            client: Some(c),
            payload: None,
        },
        ServiceEvent::Message(ClientId(c), text) => {
            let bytes = vstd::slice::slice_to_vec(text.as_str().as_bytes());
            GuestCall { export: GuestExport::Message, client: Some(c), payload: Some(bytes) }
        },
        ServiceEvent::Binary(ClientId(c), bytes) => GuestCall {
            export: GuestExport::Binary,
            client: Some(c),
            payload: Some(bytes),
        },
        ServiceEvent::Timer => GuestCall { export: GuestExport::Timer, client: None, payload: None },
    }
}

/// How a call into the guest ended.
#[derive(Clone, Copy, Debug, PartialEq, Eq, Structural)]
pub enum CallOutcome {
    Returned,
    Trapped,
}

/// Whether a loaded guest may still be called. A guest is initialized once,
/// after its module was accepted; after a trap it is quarantined, and every
/// later event is dropped until the room shuts down.
pub struct GuestState {
    initialized: bool,
    quarantined: bool,
}

impl GuestState {
    pub closed spec fn initialized_spec(&self) -> bool {
        self.initialized
    }

    pub closed spec fn quarantined_spec(&self) -> bool {
        self.quarantined
    }

    /// The state of a guest whose module check gave `loaded`: it must be
    /// initialized exactly when the module was accepted.
    pub fn new(loaded: Result<(), WasmRuntimeError>) -> (r: (GuestState, bool))
        ensures
            r.1 == loaded.is_ok(),
            r.0.initialized_spec() == loaded.is_ok(),
            !r.0.quarantined_spec(),
    {
        let ok = loaded.is_ok();
        (GuestState { initialized: ok, quarantined: false }, ok)
    }

    /// Whether an event may be handed to the guest now.
    pub fn accepts_events(&self) -> (r: bool)
        ensures
            r == (self.initialized_spec() && !self.quarantined_spec()),
    {
        self.initialized && !self.quarantined
    }

    /// Records how a call into the guest ended: a trap quarantines the guest
    /// for good.
    pub fn record(&mut self, outcome: CallOutcome)
        ensures
            final(self).initialized_spec() == old(self).initialized_spec(),
            final(self).quarantined_spec() == (old(self).quarantined_spec() || outcome
                == CallOutcome::Trapped),
    {
        if outcome == CallOutcome::Trapped {
            self.quarantined = true;
        }
    }
}

} // verus!
