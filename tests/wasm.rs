use stateroom_server::ids::{ClientId, MessageRecipient};
use stateroom_server::messages::{MessageFromServer, MessagePayload, ServiceEvent};
use stateroom_server::wasm::{
    check_module, guest_call, guest_send_binary, guest_send_message, text_message_from,
    CallOutcome, DecodeError, GuestExport, GuestState, WasmRuntimeError,
};

#[test]
fn api_version_mismatch_is_refused() {
    assert_eq!(check_module(Some(2), Some(0), true), Err(WasmRuntimeError::InvalidApiVersion));
}

#[test]
fn protocol_mismatch_is_refused() {
    assert_eq!(check_module(Some(1), Some(3), true), Err(WasmRuntimeError::InvalidProtocolVersion));
}

#[test]
fn missing_globals_are_refused() {
    assert_eq!(check_module(None, Some(0), true), Err(WasmRuntimeError::CouldNotImportGlobal));
    assert_eq!(check_module(Some(1), None, true), Err(WasmRuntimeError::CouldNotImportGlobal));
}

#[test]
fn missing_memory_is_refused() {
    assert_eq!(check_module(Some(1), Some(0), false), Err(WasmRuntimeError::CouldNotImportMemory));
}

#[test]
fn matching_module_loads() {
    assert_eq!(check_module(Some(1), Some(0), true), Ok(()));
}

#[test]
fn errors_describe_themselves() {
    assert_eq!(
        WasmRuntimeError::CouldNotImportMemory.description(),
        "Could not import memory from wasm instance."
    );
    assert_eq!(
        WasmRuntimeError::CouldNotImportGlobal.description(),
        "Could not read global variable from wasm instance."
    );
    assert_eq!(
        WasmRuntimeError::InvalidApiVersion.description(),
        "WebAssembly module has an incompatible Stateroom API version."
    );
    assert_eq!(
        WasmRuntimeError::InvalidProtocolVersion.description(),
        "WebAssembly module has an incompatible Stateroom protocol version."
    );
    assert_eq!(WasmRuntimeError::InvalidApiVersion.to_string(), "InvalidApiVersion");
    assert_eq!(WasmRuntimeError::CouldNotImportMemory.name(), "CouldNotImportMemory");
}

#[test]
fn guest_text_is_decoded() {
    let m = guest_send_message(0x8000_0002, "héllo".as_bytes().to_vec()).unwrap();
    assert_eq!(m.to_client, MessageRecipient::Client(ClientId(2)));
    assert_eq!(m.data, MessagePayload::Text("héllo".to_string()));
}

#[test]
fn guest_text_that_is_not_utf8_is_dropped() {
    assert_eq!(guest_send_message(0, vec![0xff, 0xfe]), Err(DecodeError::InvalidUtf8));
}

#[test]
fn guest_reserved_recipient_is_dropped() {
    assert_eq!(guest_send_message(0xC000_0000, b"hi".to_vec()), Err(DecodeError::InvalidRecipient));
    assert_eq!(guest_send_binary(0xC000_0000, vec![1]), Err(DecodeError::InvalidRecipient));
}

#[test]
fn decoded_text_becomes_a_message() {
    assert_eq!(
        text_message_from(0x4000_0003, Some("x".to_string())),
        Ok(MessageFromServer {
            to_client: MessageRecipient::EveryoneExcept(ClientId(3)),
            data: MessagePayload::Text("x".to_string()),
        })
    );
    assert_eq!(text_message_from(0, None), Err(DecodeError::InvalidUtf8));
}

#[test]
fn guest_binary_is_kept() {
    assert_eq!(
        guest_send_binary(0, vec![1, 2, 3]),
        Ok(MessageFromServer {
            to_client: MessageRecipient::Broadcast,
            data: MessagePayload::Binary(vec![1, 2, 3]),
        })
    );
}

#[test]
fn events_become_guest_calls() {
    let c = guest_call(ServiceEvent::Message(ClientId(4), "é".to_string()));
    assert_eq!(c.export, GuestExport::Message);
    assert_eq!(c.client, Some(4));
    assert_eq!(c.payload, Some(vec![0xc3, 0xa9]));
    let t = guest_call(ServiceEvent::Timer);
    assert_eq!(t.export.symbol(), "timer");
    assert_eq!(t.client, None);
    assert_eq!(t.payload, None);
    let b = guest_call(ServiceEvent::Binary(ClientId(1), vec![9]));
    assert_eq!(b.payload, Some(vec![9]));
    assert_eq!(guest_call(ServiceEvent::Connect(ClientId(2))).export.symbol(), "connect");
}

#[test]
fn rejected_module_is_never_initialized() {
    let (state, init) = GuestState::new(Err(WasmRuntimeError::InvalidApiVersion));
    assert!(!init);
    assert!(!state.accepts_events());
}

#[test]
fn trapped_guest_is_quarantined() {
    let (mut state, init) = GuestState::new(Ok(()));
    assert!(init);
    assert!(state.accepts_events());
    state.record(CallOutcome::Returned);
    assert!(state.accepts_events());
    state.record(CallOutcome::Trapped);
    assert!(!state.accepts_events());
    state.record(CallOutcome::Returned);
    assert!(!state.accepts_events());
}
