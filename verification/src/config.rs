//! The local configuration: the devices known by name, the default
//! among them, and the preferences. Reading and writing the file is left
//! to whoever owns it; here the configuration is a value.

use vstd::prelude::*;
use vstd::string::StringExecFns;
use crate::text::{same_text, text_of};

verus! {

/// How one device is reached.
#[derive(Debug, Clone)]
pub struct DeviceConfig {
    /// The host name or address of the device.
    pub host: String,
    /// A name for people to read.
    pub name: String,
    /// The time limit of a request, in seconds.
    pub timeout: u64,
    /// The number of retries.
    pub retries: u32,
}

/// `DeviceConfig` with its texts as sequences of characters.
pub struct DeviceConfigView {
    pub host: Seq<char>,
    pub name: Seq<char>,
    pub timeout: u64,
    pub retries: u32,
}

impl View for DeviceConfig {
    type V = DeviceConfigView;

    open spec fn view(&self) -> DeviceConfigView {
        DeviceConfigView {
            host: self.host@,
            name: self.name@,
            timeout: self.timeout,
            retries: self.retries,
        }
    }
}

/// The preferences of the command line.
#[derive(Debug, Clone)]
pub struct Preferences {
    /// The format of the output.
    pub default_format: String,
    /// Whether the output is colored.
    pub colored_output: bool,
    /// The level from which events are logged.
    pub log_level: String,
}

/// `Preferences` with its texts as sequences of characters.
pub struct PreferencesView {
    pub default_format: Seq<char>,
    pub colored_output: bool,
    pub log_level: Seq<char>,
}

impl View for Preferences {
    type V = PreferencesView;

    open spec fn view(&self) -> PreferencesView {
        PreferencesView {
            default_format: self.default_format@,
            colored_output: self.colored_output,
            log_level: self.log_level@,
        }
    }
}

/// The time limit of a request where none is configured, in seconds.
pub fn default_timeout() -> (t: u64)
    ensures
        t == 30,
{
    30
}

/// The number of retries where none is configured.
pub fn default_retries() -> (n: u32)
    ensures
        n == 3,
{
    3
}

/// The format of the output where none is configured.
pub fn default_format() -> (s: String)
    ensures
        s@ == "table"@,
{
    String::from_str("table")
}

/// Whether the output is colored where nothing is configured.
pub fn default_color() -> (b: bool)
    ensures
        b,
{
    true
}

/// The log level where none is configured.
pub fn default_log_level() -> (s: String)
    ensures
        s@ == "info"@,
{
    String::from_str("info")
}

impl Default for Preferences {
    fn default() -> (p: Preferences)
        ensures
            p@ == (PreferencesView {
                default_format: "table"@,
                colored_output: true,
                log_level: "info"@,
            }),
    {
        Preferences {
            default_format: default_format(),
            colored_output: default_color(),
            log_level: default_log_level(),
        }
    }
}

/// The configuration. The devices are held as entries, each a name and
/// what is configured under it; in a well-formed configuration no name
/// occurs twice.
#[derive(Debug, Clone)]
pub struct Config {
    /// The name of the device to use where none is given.
    pub default_device: Option<String>,
    /// The devices, each under its name.
    pub devices: Vec<(String, DeviceConfig)>,
    /// The preferences of the command line.
    pub preferences: Preferences,
}

/// The entries of a configuration, as sequences.
pub open spec fn entries_view(devices: Seq<(String, DeviceConfig)>) -> Seq<
    (Seq<char>, DeviceConfigView),
> {
    Seq::new(devices.len(), |i: int| (devices[i].0@, devices[i].1@))
}

/// The devices that the entries configure, by name. Where a name occurs
/// twice, its last entry counts.
pub open spec fn devices_of(entries: Seq<(Seq<char>, DeviceConfigView)>) -> Map<
    Seq<char>,
    DeviceConfigView,
>
    decreases entries.len(),
{
    if entries.len() == 0 {
        Map::empty()
    } else {
        devices_of(entries.drop_last()).insert(entries.last().0, entries.last().1)
    }
}

/// Whether no name occurs twice among the entries.
pub open spec fn distinct_names(entries: Seq<(Seq<char>, DeviceConfigView)>) -> bool {
    forall|i: int, j: int| 0 <= i < j < entries.len() ==> entries[i].0 != entries[j].0
}

/// `Config` as the default, the devices by name, and the preferences.
pub struct ConfigView {
    pub default_device: Option<Seq<char>>,
    pub devices: Map<Seq<char>, DeviceConfigView>,
    pub preferences: PreferencesView,
}

impl View for Config {
    type V = ConfigView;

    open spec fn view(&self) -> ConfigView {
        ConfigView {
            default_device: text_of(self.default_device),
            devices: devices_of(entries_view(self.devices@)),
            preferences: self.preferences@,
        }
    }
}

impl Config {
    /// Whether no device is configured twice.
    pub open spec fn well_formed(&self) -> bool {
        distinct_names(entries_view(self.devices@))
    }

    /// The device configured under `name`, if there is one.
    pub fn device(&self, name: &str) -> (r: Option<&DeviceConfig>)
        ensures
            match r {
                Some(d) => self@.devices.contains_key(name@) && self@.devices[name@] == d@,
                None => !self@.devices.contains_key(name@),
            },
    {
        let ghost all = entries_view(self.devices@);
        let mut i: usize = self.devices.len();
        assert(all.take(i as int) =~= all);
        while i > 0
            invariant
                i <= self.devices.len(),
                all == entries_view(self.devices@),
                devices_of(all).contains_key(name@) == devices_of(all.take(i as int)).contains_key(
                    name@,
                ),
                devices_of(all).contains_key(name@) ==> devices_of(all)[name@] == devices_of(
                    all.take(i as int),
                )[name@],
            decreases i,
        {
            assert(all.take(i as int).drop_last() =~= all.take(i - 1));
            i -= 1;
            if same_text(self.devices[i].0.as_str(), name) {
                return Some(&self.devices[i].1);
            }
        }
        None
    }
}

impl Default for Config {
    fn default() -> (c: Config)
        ensures
            c@.default_device is None,
            c@.devices == Map::<Seq<char>, DeviceConfigView>::empty(),
            c@.preferences == (PreferencesView {
                default_format: "table"@,
                colored_output: true,
                log_level: "info"@,
            }),
            c.devices@.len() == 0,
            c.well_formed(),
    {
        Config { default_device: None, devices: Vec::new(), preferences: Preferences::default() }
    }
}

/// The entries that are left when those under `name` are taken out.
pub open spec fn without_name(
    entries: Seq<(Seq<char>, DeviceConfigView)>,
    name: Seq<char>,
) -> Seq<(Seq<char>, DeviceConfigView)>
    decreases entries.len(),
{
    if entries.len() == 0 {
        Seq::empty()
    } else if entries.last().0 == name {
        without_name(entries.drop_last(), name)
    } else {
        without_name(entries.drop_last(), name).push(entries.last())
    }
}

/// Taking the entries under a name out removes the device of that name
/// and no other; what is left are entries that were there, and none of
/// them goes under the name.
pub proof fn lemma_without_name(entries: Seq<(Seq<char>, DeviceConfigView)>, name: Seq<char>)
    ensures
        devices_of(without_name(entries, name)) == devices_of(entries).remove(name),
        forall|i: int|
            0 <= i < without_name(entries, name).len() ==> {
                &&& (#[trigger] without_name(entries, name)[i]).0 != name
                &&& entries.contains(without_name(entries, name)[i])
            },
        distinct_names(entries) ==> distinct_names(without_name(entries, name)),
    decreases entries.len(),
{
    if entries.len() > 0 {
        let before = entries.drop_last();
        let left = without_name(entries, name);
        let left_before = without_name(before, name);
        lemma_without_name(before, name);
        assert forall|i: int| 0 <= i < left_before.len() implies entries.contains(
            left_before[i],
        ) by {
            let k = choose|k: int| 0 <= k < before.len() && before[k] == left_before[i];
            assert(entries[k] == left_before[i]);
        }
        if entries.last().0 != name {
            assert(left.drop_last() =~= left_before);
            assert(entries[entries.len() - 1] == left.last());
        }
        if distinct_names(entries) {
            assert(distinct_names(before)) by {
                assert forall|i: int, j: int| 0 <= i < j < before.len() implies before[i].0
                    != before[j].0 by {
                    assert(before[i] == entries[i] && before[j] == entries[j]);
                }
            }
            if entries.last().0 != name {
                assert forall|i: int| 0 <= i < left_before.len() implies left_before[i].0
                    != entries.last().0 by {
                    let k = choose|k: int| 0 <= k < before.len() && before[k] == left_before[i];
                    assert(entries[k] == left_before[i]);
                }
            }
        }
    }
}

/// Takes the entries under `name` out.
pub fn without(entries: Vec<(String, DeviceConfig)>, name: &str) -> (left: Vec<
    (String, DeviceConfig),
>)
    ensures
        entries_view(left@) == without_name(entries_view(entries@), name@),
{
    let ghost all = entries_view(entries@);
    let mut left: Vec<(String, DeviceConfig)> = Vec::new();
    for entry in it: entries
        invariant
            all == entries_view(it.seq()),
            entries_view(left@) == without_name(all.take(it.index() as int), name@),
    {
        assert(all.take(it.index() + 1).drop_last() =~= all.take(it.index() as int));
        if !same_text(entry.0.as_str(), name) {
            left.push(entry);
        }
    }
    assert(all.take(all.len() as int) =~= all);
    left
}

/// Puts `device` under `name`, in place of what was there.
pub fn with_device(
    entries: Vec<(String, DeviceConfig)>,
    name: String,
    device: DeviceConfig,
) -> (r: Vec<(String, DeviceConfig)>)
    ensures
        devices_of(entries_view(r@)) == devices_of(entries_view(entries@)).insert(
            name@,
            device@,
        ),
        distinct_names(entries_view(entries@)) ==> distinct_names(entries_view(r@)),
{
    let ghost before = entries_view(entries@);
    let ghost added = (name@, device@);
    let mut r = without(entries, name.as_str());
    let ghost left = entries_view(r@);
    proof {
        lemma_without_name(before, name@);
    }
    r.push((name, device));
    assert(entries_view(r@) =~= left.push(added));
    assert(entries_view(r@).drop_last() =~= left);
    r
}

/// The device that `add_device` configures for a host.
pub open spec fn new_device(host: Seq<char>, device_name: Seq<char>) -> DeviceConfigView {
    DeviceConfigView { host, name: device_name, timeout: 30, retries: 3 }
}

/// Configures a device under `name`, in place of any that was there,
/// with the time limit and the retries that are the defaults. The device
/// becomes the default if that is asked for, or if there is no default.
pub fn add_device(
    config: Config,
    name: String,
    host: String,
    device_name: String,
    set_default: bool,
) -> (r: Config)
    ensures
        r@.devices == config@.devices.insert(name@, new_device(host@, device_name@)),
        r@.default_device == (if set_default || config@.default_device is None {
            Some(name@)
        } else {
            config@.default_device
        }),
        r@.preferences == config@.preferences,
        config.well_formed() ==> r.well_formed(),
{
    let Config { default_device, devices, preferences } = config;
    let device = DeviceConfig {
        host,
        name: device_name,
        timeout: default_timeout(),
        retries: default_retries(),
    };
    let default_device = if set_default || default_device.is_none() {
        Some(name.clone())
    } else {
        default_device
    };
    let devices = with_device(devices, name, device);
    Config { default_device, devices, preferences }
}

/// Whether the default is the device called `name`.
pub fn is_default(default_device: &Option<String>, name: &str) -> (b: bool)
    ensures
        b == (text_of(*default_device) == Some(name@)),
{
    match default_device {
        Some(d) => same_text(d.as_str(), name),
        None => false,
    }
}

/// Takes the device called `name` out of the configuration. If it was
/// the default, there is no default any more.
pub fn remove_device(config: Config, name: &str) -> (r: Config)
    ensures
        r@.devices == config@.devices.remove(name@),
        r@.default_device == (if config@.default_device == Some(name@) {
            None
        } else {
            config@.default_device
        }),
        r@.preferences == config@.preferences,
        config.well_formed() ==> r.well_formed(),
{
    let Config { default_device, devices, preferences } = config;
    proof {
        lemma_without_name(entries_view(devices@), name@);
    }
    let devices = without(devices, name);
    let default_device = if is_default(&default_device, name) {
        None
    } else {
        default_device
    };
    Config { default_device, devices, preferences }
}

} // verus!
