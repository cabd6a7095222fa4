use rustdds::messages::protocol_id::ProtocolId;

#[test]
fn validity() {
    let protocol_id = ProtocolId::protocol_rtps();
    assert!(protocol_id.valid());
    let protocol_id = ProtocolId::new(['S', 'P', 'T', 'R']);
    assert!(!protocol_id.valid());
}

#[test]
fn protocol_id_minimum_bytes_needed() {
    assert_eq!(4, ProtocolId::minimum_bytes_needed());
}
