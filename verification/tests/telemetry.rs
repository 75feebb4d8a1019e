use zero2prod::telemetry::failure_message;

#[test]
fn failure_message_names_the_request_and_the_detail() {
    assert_eq!(
        failure_message(0xa1a2a3a4b1b2c1c2d1d2d3d4d5d6d7d8, "Database(duplicate key)"),
        "Request ID: a1a2a3a4-b1b2-c1c2-d1d2-d3d4d5d6d7d8 - Failed to execute query: Database(duplicate key)"
    );
    assert_eq!(
        failure_message(0, ""),
        "Request ID: 00000000-0000-0000-0000-000000000000 - Failed to execute query: "
    );
    assert_eq!(
        failure_message(u128::MAX, "x"),
        "Request ID: ffffffff-ffff-ffff-ffff-ffffffffffff - Failed to execute query: x"
    );
    assert_eq!(
        failure_message(0x0123456789abcdef0123456789abcdef, "x"),
        "Request ID: 01234567-89ab-cdef-0123-456789abcdef - Failed to execute query: x"
    );
}
