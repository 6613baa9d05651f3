//! The devices of the configuration, as the device command keeps them.

use vstd::prelude::*;
use vstd::string::StringExecFns;
use crate::config::{
    default_retries, default_timeout, entries_view, is_default, lemma_without_name, with_device,
    without, Config, DeviceConfig, DeviceConfigView,
};

verus! {

/// Why a device of the configuration could not be settled on.
#[derive(Debug)]
pub enum DeviceError {
    /// Nothing is configured under the name given; the payload is the
    /// name.
    NotFound(String),
    /// No name was given, and the configuration has no default.
    NoDefault,
    /// No name was given, and nothing is configured under the default;
    /// the payload is the default.
    DefaultNotFound(String),
}

/// `DeviceError` with its texts as sequences of characters.
pub enum DeviceFailure {
    NotFound(Seq<char>),
    NoDefault,
    DefaultNotFound(Seq<char>),
}

impl View for DeviceError {
    type V = DeviceFailure;

    open spec fn view(&self) -> DeviceFailure {
        match self {
            DeviceError::NotFound(n) => DeviceFailure::NotFound(n@),
            DeviceError::NoDefault => DeviceFailure::NoDefault,
            DeviceError::DefaultNotFound(n) => DeviceFailure::DefaultNotFound(n@),
        }
    }
}

/// What `DeviceError::message` says of each failure.
pub open spec fn device_failure_message(f: DeviceFailure) -> Seq<char> {
    match f {
        DeviceFailure::NotFound(n) => "Device '"@ + n + "' not found in configuration"@,
        DeviceFailure::NoDefault => "No default device configured"@,
        DeviceFailure::DefaultNotFound(n) => "Default device '"@ + n
            + "' not found in configuration"@,
    }
}

impl DeviceError {
    /// The failure in words.
    pub fn message(&self) -> (m: String)
        ensures
            m@ == device_failure_message(self@),
    {
        match self {
            DeviceError::NotFound(n) => String::from_str("Device '").concat(n.as_str()).concat(
                "' not found in configuration",
            ),
            DeviceError::NoDefault => String::from_str("No default device configured"),
            DeviceError::DefaultNotFound(n) => String::from_str("Default device '").concat(
                n.as_str(),
            ).concat("' not found in configuration"),
        }
    }
}

/// The device that the device command configures for a host.
pub open spec fn added_device(name: Seq<char>, host: Seq<char>) -> DeviceConfigView {
    DeviceConfigView { host, name: "AWTRIX3 "@ + name, timeout: 30, retries: 3 }
}

/// Configures the device at `host` under `name`, in place of any that
/// was there. It becomes the default only if that is asked for.
pub fn add(config: Config, name: String, host: String, make_default: bool) -> (r: Config)
    ensures
        r@.devices == config@.devices.insert(name@, added_device(name@, host@)),
        r@.default_device == (if make_default {
            Some(name@)
        } else {
            config@.default_device
        }),
        r@.preferences == config@.preferences,
        config.well_formed() ==> r.well_formed(),
{
    let Config { default_device, devices, preferences } = config;
    let device = DeviceConfig {
        host,
        name: String::from_str("AWTRIX3 ").concat(name.as_str()),
        timeout: default_timeout(),
        retries: default_retries(),
    };
    let default_device = if make_default {
        Some(name.clone())
    } else {
        default_device
    };
    let devices = with_device(devices, name, device);
    Config { default_device, devices, preferences }
}

/// Takes the device called `name` out of the configuration, which must
/// hold it. If it was the default, one of the devices that are left
/// becomes the default: the one whose entry comes first. If none is
/// left, there is no default any more.
pub fn remove(config: Config, name: &str) -> (r: Result<Config, DeviceError>)
    ensures
        !config@.devices.contains_key(name@) ==> r is Err && r->Err_0@ == DeviceFailure::NotFound(
            name@,
        ),
        config@.devices.contains_key(name@) ==> r is Ok && ({
            let after = r->Ok_0;
            &&& after@.devices == config@.devices.remove(name@)
            &&& after@.preferences == config@.preferences
            &&& config.well_formed() ==> after.well_formed()
            &&& config@.default_device != Some(name@) ==> after@.default_device
                == config@.default_device
            &&& config@.default_device == Some(name@) ==> after@.default_device == (
            if after.devices@.len() == 0 {
                None
            } else {
                Some(after.devices@[0].0@)
            })
        }),
{
    if config.device(name).is_none() {
        return Err(DeviceError::NotFound(String::from_str(name)));
    }
    let Config { default_device, devices, preferences } = config;
    proof {
        lemma_without_name(entries_view(devices@), name@);
    }
    let devices = without(devices, name);
    let default_device = if is_default(&default_device, name) {
        if devices.len() == 0 {
            None
        } else {
            Some(devices[0].0.clone())
        }
    } else {
        default_device
    };
    Ok(Config { default_device, devices, preferences })
}

/// The device to test: the one configured under the name given, or,
/// where none is given, the default.
pub fn device_to_test<'a>(config: &'a Config, device: Option<&str>) -> (r: Result<
    &'a DeviceConfig,
    DeviceError,
>)
    ensures
        match device {
            Some(name) => if config@.devices.contains_key(name@) {
                r is Ok && r->Ok_0@ == config@.devices[name@]
            } else {
                r is Err && r->Err_0@ == DeviceFailure::NotFound(name@)
            },
            None => match config@.default_device {
                None => r is Err && r->Err_0@ == DeviceFailure::NoDefault,
                Some(name) => if config@.devices.contains_key(name) {
                    r is Ok && r->Ok_0@ == config@.devices[name]
                } else {
                    r is Err && r->Err_0@ == DeviceFailure::DefaultNotFound(name)
                },
            },
        },
{
    match device {
        Some(name) => match config.device(name) {
            Some(found) => Ok(found),
            None => Err(DeviceError::NotFound(String::from_str(name))),
        },
        None => match &config.default_device {
            None => Err(DeviceError::NoDefault),
            Some(name) => match config.device(name.as_str()) {
                Some(found) => Ok(found),
                None => Err(DeviceError::DefaultNotFound(name.clone())),
            },
        },
    }
}

} // verus!
