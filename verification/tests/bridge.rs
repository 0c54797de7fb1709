use action_bridge::codec::{decode_domain_and_type, encode_tag, tag_well_formed};
use action_bridge::dispatch::Dispatcher;
use action_bridge::envelope::{no_operation_envelope, DecodeError, Envelope, Payload};
use action_bridge::handler::ActionHandler;
use action_bridge::rename::{ClassifierService, EditNameDto, RenameAction};

fn rename_dispatcher() -> Dispatcher<ClassifierService> {
    let mut d = Dispatcher::new();
    assert!(d.register(ClassifierService {}));
    d
}

fn envelope(tag: &str, payload: Payload) -> Envelope {
    Envelope { tag: tag.to_string(), payload }
}

#[test]
fn decode_splits_well_formed_tag() {
    let (d, t) = decode_domain_and_type("rename/changeClassifierName");
    assert_eq!(d, "rename");
    assert_eq!(t, "changeClassifierName");
}

#[test]
fn decode_of_bare_delimiter_gives_two_empty_halves() {
    let (d, t) = decode_domain_and_type("/");
    assert_eq!(d, "");
    assert_eq!(t, "");
    assert!(tag_well_formed("/"));
}

#[test]
fn decode_without_delimiter_gives_empty_strings() {
    let (d, t) = decode_domain_and_type("nodelimiter");
    assert_eq!(d, "");
    assert_eq!(t, "");
}

#[test]
fn decode_with_two_delimiters_gives_empty_strings() {
    let (d, t) = decode_domain_and_type("a/b/c");
    assert_eq!(d, "");
    assert_eq!(t, "");
    assert!(!tag_well_formed("a/b/c"));
}

#[test]
fn decode_of_empty_string_gives_empty_strings() {
    let (d, t) = decode_domain_and_type("");
    assert_eq!(d, "");
    assert_eq!(t, "");
}

#[test]
fn encode_joins_domain_and_bare_type() {
    assert_eq!(encode_tag("rename", "nameChanged"), "rename/nameChanged");
}

#[test]
fn encode_after_decode_restores_well_formed_tag() {
    for tag in ["rename/changeClassifierName", "noOperation/noOperation", "/", "a/b"] {
        let (d, t) = decode_domain_and_type(tag);
        assert_eq!(encode_tag(&d, &t), tag);
    }
}

#[test]
fn decode_after_encode_restores_halves() {
    let tag = encode_tag("rename", "nameChanged");
    let (d, t) = decode_domain_and_type(&tag);
    assert_eq!(d, "rename");
    assert_eq!(t, "nameChanged");
}

#[test]
fn typed_action_decodes_every_variant_back() {
    let svc = ClassifierService {};
    let actions = vec![
        RenameAction::ChangeClassifierName(EditNameDto { new_name: "Invoice".to_string() }),
        RenameAction::CancelNameChange,
        RenameAction::NameChanged(EditNameDto { new_name: "Invoice".to_string() }),
        RenameAction::NameChangeCanceled(EditNameDto { new_name: "Order".to_string() }),
        RenameAction::NameChangedError,
    ];
    for action in actions {
        let (bare, payload) = svc.from_typed_action(action.clone());
        assert_eq!(svc.to_typed_action(&bare, &payload), Ok(action));
    }
}

#[test]
fn unknown_bare_type_fails_decoding() {
    let svc = ClassifierService {};
    assert_eq!(
        svc.to_typed_action("doStuff", &Payload::Absent),
        Err(DecodeError::UnknownType)
    );
}

#[test]
fn mismatched_payload_shape_fails_decoding() {
    let svc = ClassifierService {};
    assert_eq!(
        svc.to_typed_action("changeClassifierName", &Payload::Absent),
        Err(DecodeError::PayloadMismatch)
    );
    assert_eq!(
        svc.to_typed_action("changeClassifierName", &Payload::Other),
        Err(DecodeError::PayloadMismatch)
    );
    assert_eq!(
        svc.to_typed_action("cancelNameChange", &Payload::NewName("x".to_string())),
        Err(DecodeError::PayloadMismatch)
    );
}

#[test]
fn unit_variant_serializes_with_absent_payload() {
    let svc = ClassifierService {};
    let (bare, payload) = svc.from_typed_action(RenameAction::CancelNameChange);
    assert_eq!(bare, "cancelNameChange");
    assert_eq!(payload, Payload::Absent);
}

#[test]
fn handle_applies_name_change() {
    let svc = ClassifierService {};
    let dto = EditNameDto { new_name: "Invoice".to_string() };
    assert_eq!(
        svc.handle_action(RenameAction::ChangeClassifierName(dto.clone())),
        RenameAction::NameChanged(dto)
    );
}

#[test]
fn handle_cancels_with_default_name() {
    let svc = ClassifierService {};
    assert_eq!(
        svc.handle_action(RenameAction::CancelNameChange),
        RenameAction::NameChangeCanceled(EditNameDto { new_name: "Old Classname".to_string() })
    );
}

#[test]
fn handle_falls_through_to_error_variant() {
    let svc = ClassifierService {};
    let dto = EditNameDto { new_name: "Invoice".to_string() };
    assert_eq!(
        svc.handle_action(RenameAction::NameChanged(dto.clone())),
        RenameAction::NameChangedError
    );
    assert_eq!(
        svc.handle_action(RenameAction::NameChangeCanceled(dto)),
        RenameAction::NameChangedError
    );
    assert_eq!(
        svc.handle_action(RenameAction::NameChangedError),
        RenameAction::NameChangedError
    );
}

#[test]
fn receive_reports_decode_failure_as_none() {
    let svc = ClassifierService {};
    assert_eq!(svc.receive_action("doStuff", &Payload::Absent), None);
    assert_eq!(svc.receive_action("changeClassifierName", &Payload::Other), None);
}

#[test]
fn receive_handles_and_reencodes() {
    let svc = ClassifierService {};
    let r = svc.receive_action("changeClassifierName", &Payload::NewName("Invoice".to_string()));
    assert_eq!(
        r,
        Some(("nameChanged".to_string(), Payload::NewName("Invoice".to_string())))
    );
}

#[test]
fn duplicate_domain_registration_is_rejected() {
    let mut d = rename_dispatcher();
    assert!(!d.register(ClassifierService {}));
}

#[test]
fn dispatch_routes_name_change() {
    let d = rename_dispatcher();
    let r = d.dispatch(&envelope(
        "rename/changeClassifierName",
        Payload::NewName("Invoice".to_string()),
    ));
    assert_eq!(r.tag, "rename/nameChanged");
    assert_eq!(r.payload, Payload::NewName("Invoice".to_string()));
}

#[test]
fn dispatch_routes_cancellation() {
    let d = rename_dispatcher();
    let r = d.dispatch(&envelope("rename/cancelNameChange", Payload::Absent));
    assert_eq!(r.tag, "rename/nameChangeCanceled");
    assert_eq!(r.payload, Payload::NewName("Old Classname".to_string()));
}

#[test]
fn dispatch_to_unknown_domain_yields_no_op() {
    let d = rename_dispatcher();
    let r = d.dispatch(&envelope("unknownDomain/doStuff", Payload::Other));
    assert_eq!(r, no_operation_envelope());
    assert_eq!(r.tag, "noOperation/noOperation");
    assert_eq!(r.payload, Payload::Absent);
}

#[test]
fn dispatch_of_malformed_tag_yields_no_op() {
    let d = rename_dispatcher();
    let r = d.dispatch(&envelope("nodelimiter", Payload::Other));
    assert_eq!(r, no_operation_envelope());
}

#[test]
fn dispatch_of_undecodable_payload_yields_no_op() {
    let d = rename_dispatcher();
    let r = d.dispatch(&envelope("rename/doStuff", Payload::Other));
    assert_eq!(r, no_operation_envelope());
    let r = d.dispatch(&envelope("rename/changeClassifierName", Payload::Absent));
    assert_eq!(r, no_operation_envelope());
}

#[test]
fn dispatch_on_empty_registry_yields_no_op() {
    let d: Dispatcher<ClassifierService> = Dispatcher::new();
    let r = d.dispatch(&envelope("rename/cancelNameChange", Payload::Absent));
    assert_eq!(r, no_operation_envelope());
}

#[test]
fn repeated_failing_dispatch_is_identical() {
    let d = rename_dispatcher();
    let unknown = envelope("unknownDomain/doStuff", Payload::Other);
    let first = d.dispatch(&unknown);
    let second = d.dispatch(&unknown);
    assert_eq!(first, second);
    let malformed = envelope("nodelimiter", Payload::Other);
    let first = d.dispatch(&malformed);
    let second = d.dispatch(&malformed);
    assert_eq!(first, second);
}
