use amqpiothub::config::{
    action_target, create_address, create_hostname, create_service_username, create_username,
    devicebound_address, events_address,
};

#[test]
fn names_and_addresses() {
    assert_eq!(create_username("airquality", "researchprojecthub"), "airquality@sas.researchprojecthub");
    assert_eq!(create_service_username("iothubowner", "hub"), "iothubowner@sas.root.hub");
    assert_eq!(create_address("hub"), "hub.azure-devices.net:5671");
    assert_eq!(create_hostname("hub"), "hub.azure-devices.net");
    assert_eq!(events_address("airquality"), "/devices/airquality/messages/events");
    assert_eq!(devicebound_address("airquality"), "devices/airquality/messages/devicebound");
}

#[test]
fn action_targets() {
    assert_eq!(action_target("airquality"), "/devices/airquality/messages/devicebound");
    assert_eq!(action_target("temperature"), "/devices/temperature/messages/devicebound");
    assert_eq!(action_target("other"), "/devices/rusttestingdevice/messages/devicebound");
}
