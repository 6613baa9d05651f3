//! What the command line decides before any command runs: which device
//! to talk to.

pub mod args;

pub use args::{IndicatorArgs, NotifyArgs, PowerArgs, PowerState, SleepArgs};

use vstd::prelude::*;
use vstd::string::StringExecFns;
use crate::config::{Config, ConfigView};

verus! {

/// Why no device could be settled on.
#[derive(Debug)]
pub enum ResolveError {
    /// The configuration names a default that it does not configure; the
    /// payload is that name.
    DefaultNotFound(String),
    /// No device was given, none is set in the environment and none is
    /// the default.
    NoDevice,
}

/// `ResolveError` with its text as a sequence of characters.
pub enum ResolveFailure {
    DefaultNotFound(Seq<char>),
    NoDevice,
}

impl View for ResolveError {
    type V = ResolveFailure;

    open spec fn view(&self) -> ResolveFailure {
        match self {
            ResolveError::DefaultNotFound(name) => ResolveFailure::DefaultNotFound(name@),
            ResolveError::NoDevice => ResolveFailure::NoDevice,
        }
    }
}

/// What `ResolveError::message` says of each failure. The second names
/// the three ways to settle on a device.
pub open spec fn resolve_failure_message(f: ResolveFailure) -> Seq<char> {
    match f {
        ResolveFailure::DefaultNotFound(name) => "Default device '"@ + name
            + "' not found in config"@,
        ResolveFailure::NoDevice =>
            "No device specified. Use --device, set AWTRIX_DEVICE env var, or configure a default device"@,
    }
}

impl ResolveError {
    /// The failure in words.
    pub fn message(&self) -> (m: String)
        ensures
            m@ == resolve_failure_message(self@),
    {
        match self {
            ResolveError::DefaultNotFound(name) => String::from_str("Default device '").concat(
                name.as_str(),
            ).concat("' not found in config"),
            ResolveError::NoDevice => String::from_str(
                "No device specified. Use --device, set AWTRIX_DEVICE env var, or configure a default device",
            ),
        }
    }
}

/// The host to talk to. A device that was given comes first: it stands
/// for the host configured under it, or, where nothing is configured
/// under it, for itself. Then comes the device set in the environment,
/// taken as a host. Last comes the default of the configuration, which
/// must be configured.
pub open spec fn device_host(
    device: Option<Seq<char>>,
    from_environment: Option<Seq<char>>,
    config: ConfigView,
) -> Result<Seq<char>, ResolveFailure> {
    match device {
        Some(d) => if config.devices.contains_key(d) {
            Ok(config.devices[d].host)
        } else {
            Ok(d)
        },
        None => match from_environment {
            Some(host) => Ok(host),
            None => match config.default_device {
                Some(name) => if config.devices.contains_key(name) {
                    Ok(config.devices[name].host)
                } else {
                    Err(ResolveFailure::DefaultNotFound(name))
                },
                None => Err(ResolveFailure::NoDevice),
            },
        },
    }
}

/// Settles on the host to talk to, from the device given on the command
/// line, the device set in the environment and the configuration.
pub fn get_device_host(device: Option<&str>, from_environment: Option<&str>, config: &Config) -> (r:
    Result<String, ResolveError>)
    ensures
        match device_host(
            match device {
                Some(d) => Some(d@),
                None => None,
            },
            match from_environment {
                Some(e) => Some(e@),
                None => None,
            },
            config@,
        ) {
            Ok(host) => r is Ok && r->Ok_0@ == host,
            Err(f) => r is Err && r->Err_0@ == f,
        },
{
    match device {
        Some(d) => match config.device(d) {
            Some(found) => Ok(found.host.clone()),
            None => Ok(String::from_str(d)),
        },
        None => match from_environment {
            Some(host) => Ok(String::from_str(host)),
            None => match &config.default_device {
                Some(name) => match config.device(name.as_str()) {
                    Some(found) => Ok(found.host.clone()),
                    None => Err(ResolveError::DefaultNotFound(name.clone())),
                },
                None => Err(ResolveError::NoDevice),
            },
        },
    }
}

} // verus!
