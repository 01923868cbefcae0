use sqlexec::RpcsrvError;

#[test]
fn invalid_id_message() {
    let e = RpcsrvError::InvalidId("session", "invalid length: expected 16 bytes, found 3".to_string());
    assert_eq!(e.message(), "Invalid session id: invalid length: expected 16 bytes, found 3");
}

#[test]
fn missing_session_message() {
    let e = RpcsrvError::MissingSession(0x67e55044_10b1_426f_9247_bb680e5fe0c8);
    assert_eq!(e.message(), "Missing session for id 67e55044-10b1-426f-9247-bb680e5fe0c8");
    let zero = RpcsrvError::MissingSession(0);
    assert_eq!(zero.message(), "Missing session for id 00000000-0000-0000-0000-000000000000");
}

#[test]
fn physical_plans_message() {
    assert_eq!(
        RpcsrvError::PhysicalPlansNotSupported.message(),
        "Executing physical plans is not currently supported"
    );
}

#[test]
fn transparent_messages() {
    assert_eq!(RpcsrvError::Datafusion("Plan error: x".to_string()).message(), "Plan error: x");
    assert_eq!(RpcsrvError::Arrow("Compute error: y".to_string()).message(), "Compute error: y");
    assert_eq!(RpcsrvError::ExecError("z".to_string()).message(), "z");
    assert_eq!(RpcsrvError::ProtoConvError("w".to_string()).message(), "w");
    assert_eq!(RpcsrvError::Internal("internal".to_string()).message(), "internal");
}
