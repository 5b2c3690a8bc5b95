//! The decisions of the desktop interface: which model the user chose,
//! which settings it may send, and which udev rule a mouse needs.

use vstd::prelude::*;

use crate::config::Config;
use crate::device::{ConnectionMode, DetectedDevice, DeviceModel};
use crate::text::{contains_text, same_text};

verus! {

/// The message for a model selection that is not `auto`, `r1` or `x11`.
pub open spec fn unsupported_selection_message() -> Seq<char> {
    "unsupported mouse model selection"@
}

/// The model that the user selected: none for automatic detection.
pub open spec fn model_selection(selection: Option<Seq<char>>) -> core::result::Result<Option<DeviceModel>, Seq<char>> {
    if selection is None || selection->0 == "auto"@ {
        Ok(None)
    } else if selection->0 == "r1"@ {
        Ok(Some(DeviceModel::R1))
    } else if selection->0 == "x11"@ {
        Ok(Some(DeviceModel::X11))
    } else {
        Err(unsupported_selection_message())
    }
}

/// The text of an optional string.
pub open spec fn text_of(s: Option<&str>) -> Option<Seq<char>> {
    match s {
        Some(t) => Some(t@),
        None => None,
    }
}

/// Reads the model that the user selected.
pub fn selected_model(model_override: Option<&str>) -> (r: core::result::Result<Option<DeviceModel>, String>)
    ensures
        r matches Ok(m) ==> model_selection(text_of(model_override)) == Ok::<Option<DeviceModel>, Seq<char>>(m),
        r matches Err(e) ==> model_selection(text_of(model_override)) == Err::<Option<DeviceModel>, Seq<char>>(e@),
{
    match model_override {
        None => Ok(None),
        Some(name) => if same_text(name, "auto") {
            Ok(None)
        } else if same_text(name, "r1") {
            Ok(Some(DeviceModel::R1))
        } else if same_text(name, "x11") {
            Ok(Some(DeviceModel::X11))
        } else {
            Err(String::from_str("unsupported mouse model selection"))
        },
    }
}

/// The message for a receiver whose model detection cannot tell.
pub open spec fn ambiguous_adapter_message() -> Seq<char> {
    "the wireless adapter model is ambiguous; select R1 or X11 in Settings, or connect the mouse by cable once"@
}

/// The model to configure: the selected one, or else the detected one, which
/// must not be an unknown receiver.
pub open spec fn model_resolution(detected: DeviceModel, selection: Option<Seq<char>>) -> core::result::Result<DeviceModel, Seq<char>> {
    match model_selection(selection) {
        Ok(Some(model)) => Ok(model),
        Ok(None) => if detected == DeviceModel::UnknownAdapter {
            Err(ambiguous_adapter_message())
        } else {
            Ok(detected)
        },
        Err(message) => Err(message),
    }
}

/// Decides the model to configure from the detected one and the selection.
pub fn resolve_model(detected: DeviceModel, model_override: Option<&str>) -> (r: core::result::Result<DeviceModel, String>)
    ensures
        r matches Ok(m) ==> model_resolution(detected, text_of(model_override)) == Ok::<DeviceModel, Seq<char>>(m),
        r matches Err(e) ==> model_resolution(detected, text_of(model_override)) == Err::<DeviceModel, Seq<char>>(e@),
{
    match selected_model(model_override) {
        Ok(Some(model)) => Ok(model),
        Ok(None) => match detected {
            DeviceModel::UnknownAdapter => Err(
                String::from_str(
                    "the wireless adapter model is ambiguous; select R1 or X11 in Settings, or connect the mouse by cable once",
                ),
            ),
            model => Ok(model),
        },
        Err(message) => Err(message),
    }
}

/// The message of the first shared setting that is out of range, in the order
/// they are checked.
pub open spec fn shared_config_error(config: Config) -> Option<Seq<char>> {
    if !crate::config::valid_active_dpi(config.active_dpi) {
        Some("active DPI must be between 1 and 6"@)
    } else if !config.sleep_time.in_range() {
        Some("sleep time must be between 0.5 and 30 minutes"@)
    } else if !crate::config::valid_deep_sleep_time(config.deep_sleep_time) {
        Some("deep sleep time must be between 1 and 60 minutes"@)
    } else if !crate::config::valid_key_response_time(config.key_response_time) {
        Some("key response time must be an even value between 4 and 50 ms"@)
    } else {
        None
    }
}

/// Checks the settings that both models share.
pub fn validate_shared_config(config: &Config) -> (r: core::result::Result<(), String>)
    ensures
        r is Ok <==> shared_config_error(*config) is None,
        r matches Err(e) ==> shared_config_error(*config) == Some(e@),
{
    if !(1 <= config.active_dpi && config.active_dpi <= 6) {
        return Err(String::from_str("active DPI must be between 1 and 6"));
    }
    if !config.sleep_time.is_in_range() {
        return Err(String::from_str("sleep time must be between 0.5 and 30 minutes"));
    }
    if !(1 <= config.deep_sleep_time && config.deep_sleep_time <= 60) {
        return Err(String::from_str("deep sleep time must be between 1 and 60 minutes"));
    }
    if !(4 <= config.key_response_time && config.key_response_time <= 50) || config.key_response_time % 2 != 0 {
        return Err(String::from_str("key response time must be an even value between 4 and 50 ms"));
    }
    Ok(())
}

/// The line of a udev rule that matches a product of the Attack Shark vendor.
pub open spec fn product_attribute(product_id: Seq<char>) -> Seq<char> {
    "ATTRS{idProduct}==\""@ + product_id + "\""@
}

/// A udev rule file that grants access to the hidraw node of a product.
pub open spec fn grants_hidraw(contents: Seq<char>, product_id: Seq<char>) -> bool {
    &&& crate::text::occurs_in(contents, "KERNEL==\"hidraw*\""@)
    &&& crate::text::occurs_in(contents, "ATTRS{idVendor}==\"1d57\""@)
    &&& crate::text::occurs_in(contents, product_attribute(product_id))
}

/// Whether a udev rule file grants access to the hidraw node of a product.
pub fn has_hidraw_rule(contents: &str, product_id: &str) -> (b: bool)
    ensures
        b == grants_hidraw(contents@, product_id@),
{
    let mut attribute = String::from_str("ATTRS{idProduct}==\"");
    attribute.append(product_id);
    attribute.append("\"");
    contains_text(contents, "KERNEL==\"hidraw*\"") && contains_text(contents, "ATTRS{idVendor}==\"1d57\"")
        && contains_text(contents, attribute.as_str())
}

/// A rule file that satisfies the check for a mouse: for a known product,
/// any file that grants its hidraw node; otherwise the file of the expected
/// name, when it mentions hidraw nodes.
pub open spec fn satisfies_rule(
    file_name: Seq<char>,
    contents: Seq<char>,
    rule_name: Seq<char>,
    product_id: Option<Seq<char>>,
) -> bool {
    match product_id {
        Some(product) => grants_hidraw(contents, product),
        None => file_name == rule_name && crate::text::occurs_in(contents, "KERNEL==\"hidraw*\""@),
    }
}

/// Whether a rule file satisfies the check for a mouse.
pub fn rule_file_satisfies(file_name: &str, contents: &str, rule_name: &str, product_id: Option<&str>) -> (b: bool)
    ensures
        b == satisfies_rule(file_name@, contents@, rule_name@, text_of(product_id)),
{
    match product_id {
        Some(product) => has_hidraw_rule(contents, product),
        None => same_text(file_name, rule_name) && contains_text(contents, "KERNEL==\"hidraw*\""),
    }
}

/// The udev rule that a mouse needs, and the product its hidraw node has
/// when the connection is known.
pub fn udev_rule_for(model: DeviceModel, connection: Option<ConnectionMode>) -> (r: (&'static str, Option<&'static str>))
    ensures
        model == DeviceModel::R1 ==> r.0@ == "99-attack-shark-r1.rules"@,
        model != DeviceModel::R1 ==> r.0@ == "99-attack-shark-x11.rules"@,
        connection is None && model != DeviceModel::UnknownAdapter ==> r.1 is None,
        model == DeviceModel::UnknownAdapter ==> r.1 is Some && r.1->0@ == "fa60"@,
        connection == Some(ConnectionMode::Wireless) ==> r.1 is Some && r.1->0@ == "fa60"@,
        connection == Some(ConnectionMode::Wired) && model == DeviceModel::R1 ==> r.1 is Some && r.1->0@ == "fa61"@,
        connection == Some(ConnectionMode::Wired) && model == DeviceModel::X11 ==> r.1 is Some && r.1->0@ == "fa55"@,
{
    match model {
        DeviceModel::R1 => (
            "99-attack-shark-r1.rules",
            match connection {
                Some(ConnectionMode::Wired) => Some("fa61"),
                Some(ConnectionMode::Wireless) => Some("fa60"),
                None => None,
            },
        ),
        DeviceModel::X11 => (
            "99-attack-shark-x11.rules",
            match connection {
                Some(ConnectionMode::Wired) => Some("fa55"),
                Some(ConnectionMode::Wireless) => Some("fa60"),
                None => None,
            },
        ),
        DeviceModel::UnknownAdapter => ("99-attack-shark-x11.rules", Some("fa60")),
    }
}

/// The shell command that installs a udev rule and reloads the rules.
pub open spec fn install_command(rule_name: Seq<char>) -> Seq<char> {
    "sudo install -Dm644 "@ + rule_name + " /etc/udev/rules.d/"@ + rule_name
        + " && sudo udevadm control --reload-rules && sudo udevadm trigger --subsystem-match=usb --attr-match=idVendor=1d57 && sudo udevadm trigger --subsystem-match=hidraw"@
}

/// Builds the shell command that installs a udev rule and reloads the rules.
pub fn udev_install_command(rule_name: &str) -> (command: String)
    ensures
        command@ == install_command(rule_name@),
{
    let mut command = String::from_str("sudo install -Dm644 ");
    command.append(rule_name);
    command.append(" /etc/udev/rules.d/");
    command.append(rule_name);
    command.append(
        " && sudo udevadm control --reload-rules && sudo udevadm trigger --subsystem-match=usb --attr-match=idVendor=1d57 && sudo udevadm trigger --subsystem-match=hidraw",
    );
    command
}

/// The model that the device status shows: the detected one, or else the
/// one the user selected.
pub fn status_model(detected: Option<DetectedDevice>, selected: Option<DeviceModel>) -> (m: Option<DeviceModel>)
    ensures
        detected is Some ==> m == Some(detected->0.model),
        detected is None ==> m == selected,
{
    match detected {
        Some(d) => Some(d.model),
        None => selected,
    }
}

/// The name under which the interface shows a model.
pub fn model_name(model: DeviceModel) -> (name: &'static str)
    ensures
        model == DeviceModel::R1 ==> name@ == "r1"@,
        model == DeviceModel::X11 ==> name@ == "x11"@,
        model == DeviceModel::UnknownAdapter ==> name@ == "adapter"@,
{
    match model {
        DeviceModel::R1 => "r1",
        DeviceModel::X11 => "x11",
        DeviceModel::UnknownAdapter => "adapter",
    }
}

/// The name under which the interface shows how a mouse is connected.
pub fn connection_name(detected: Option<DetectedDevice>) -> (name: &'static str)
    ensures
        detected is None ==> name@ == "unknown"@,
        detected matches Some(d) && d.connection == ConnectionMode::Wired ==> name@ == "wired"@,
        detected matches Some(d) && d.connection == ConnectionMode::Wireless ==> name@ == "wireless"@,
{
    match detected {
        None => "unknown",
        Some(d) => match d.connection {
            ConnectionMode::Wired => "wired",
            ConnectionMode::Wireless => "wireless",
        },
    }
}

} // verus!
