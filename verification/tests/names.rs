use burnt_sushi::command::{PAYLOAD_MODULE_NAME, START_CHANNEL_PROCEDURE, STOP_CHANNEL_PROCEDURE};

#[test]
fn well_known_names() {
    assert_eq!(PAYLOAD_MODULE_NAME, "BurntSushiBlocker_x86.dll");
    assert_eq!(START_CHANNEL_PROCEDURE, "start_rpc");
    assert_eq!(STOP_CHANNEL_PROCEDURE, "stop_rpc");
}
