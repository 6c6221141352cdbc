//! The names and addresses a client connects with.
use vstd::prelude::*;

verus! {

/// The SASL user name of a device.
pub open spec fn username_of(device_id: Seq<char>, hub_name: Seq<char>) -> Seq<char> {
    device_id + "@sas."@ + hub_name
}

/// The SASL user name of a service policy.
pub open spec fn service_username_of(policy: Seq<char>, hub_name: Seq<char>) -> Seq<char> {
    policy + "@sas.root."@ + hub_name
}

/// The network address of a hub's AMQP endpoint.
pub open spec fn address_of(hub_name: Seq<char>) -> Seq<char> {
    hub_name + ".azure-devices.net:5671"@
}

/// The host name a hub's TLS certificate is checked against.
pub open spec fn hostname_of(hub_name: Seq<char>) -> Seq<char> {
    hub_name + ".azure-devices.net"@
}

/// The target of a device's telemetry sender.
pub open spec fn events_address_of(device_id: Seq<char>) -> Seq<char> {
    "/devices/"@ + device_id + "/messages/events"@
}

/// The source of a device's cloud-to-device receiver.
pub open spec fn devicebound_address_of(device_id: Seq<char>) -> Seq<char> {
    "devices/"@ + device_id + "/messages/devicebound"@
}

/// The queue that an action for a device is directed to: the device's own for the
/// two known devices, the test device's for any other.
pub open spec fn action_target_of(device_id: Seq<char>) -> Seq<char> {
    let target = if device_id == "airquality"@ || device_id == "temperature"@ {
        device_id
    } else {
        "rusttestingdevice"@
    };
    "/devices/"@ + target + "/messages/devicebound"@
}

pub fn action_target(device_id: &str) -> (r: String)
    ensures
        r@ == action_target_of(device_id@),
{
    let id = String::from_str(device_id);
    let known = id == String::from_str("airquality") || id == String::from_str("temperature");
    let mut r = String::from_str("/devices/");
    if known {
        r.append(device_id);
    } else {
        r.append("rusttestingdevice");
    }
    r.append("/messages/devicebound");
    assert(r@ =~= action_target_of(device_id@));
    r
}

pub fn create_username(device_id: &str, iot_hub_name: &str) -> (r: String)
    ensures
        r@ == username_of(device_id@, iot_hub_name@),
{
    let mut r = String::from_str(device_id);
    r.append("@sas.");
    r.append(iot_hub_name);
    assert(r@ =~= username_of(device_id@, iot_hub_name@));
    r
}

pub fn create_service_username(policy: &str, iot_hub_name: &str) -> (r: String)
    ensures
        r@ == service_username_of(policy@, iot_hub_name@),
{
    let mut r = String::from_str(policy);
    r.append("@sas.root.");
    r.append(iot_hub_name);
    assert(r@ =~= service_username_of(policy@, iot_hub_name@));
    r
}

pub fn create_address(hub_name: &str) -> (r: String)
    ensures
        r@ == address_of(hub_name@),
{
    let mut r = String::from_str(hub_name);
    r.append(".azure-devices.net:5671");
    r
}

pub fn create_hostname(hub_name: &str) -> (r: String)
    ensures
        r@ == hostname_of(hub_name@),
{
    let mut r = String::from_str(hub_name);
    r.append(".azure-devices.net");
    r
}

pub fn events_address(device_id: &str) -> (r: String)
    ensures
        r@ == events_address_of(device_id@),
{
    let mut r = String::from_str("/devices/");
    r.append(device_id);
    r.append("/messages/events");
    assert(r@ =~= events_address_of(device_id@));
    r
}

pub fn devicebound_address(device_id: &str) -> (r: String)
    ensures
        r@ == devicebound_address_of(device_id@),
{
    let mut r = String::from_str("devices/");
    r.append(device_id);
    r.append("/messages/devicebound");
    assert(r@ =~= devicebound_address_of(device_id@));
    r
}

} // verus!
