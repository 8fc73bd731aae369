//! The controller's configuration: which devices exist, how to reach
//! them, and what they can boot.
//!
//! Reading the configuration file off disk and decoding its syntax is
//! the caller's affair; this module takes the decoded plain values,
//! validates them, and answers lookups.

use vstd::prelude::*;
use crate::errors::Error;
use crate::id::DeviceId;
use crate::id::TargetId;
use crate::id::valid_device_id;
use crate::id::valid_target_id;
use crate::mac::Mac;
use crate::mac::mac_parse;
use crate::mac::mac_render;
use crate::mac::lemma_mac_round_trip;

verus! {

/// What one bootable target needs: the bootloader menu entry that
/// starts it.
#[derive(Debug, PartialEq, Eq)]
pub struct TargetConfiguration {
    menu_entry: String,
}

impl Clone for TargetConfiguration {
    fn clone(&self) -> (r: Self)
        ensures
            r == *self,
    {
        TargetConfiguration { menu_entry: self.menu_entry.clone() }
    }
}

impl TargetConfiguration {
    /// The bootloader menu entry that boots this target.
    pub closed spec fn menu_entry_spec(&self) -> Seq<char> {
        self.menu_entry@
    }

    /// Wraps a menu entry.
    pub fn new(menu_entry: String) -> (r: TargetConfiguration)
        ensures
            r.menu_entry_spec() == menu_entry@,
    {
        TargetConfiguration { menu_entry }
    }

    /// The bootloader menu entry that boots this target.
    pub fn menu_entry(&self) -> (r: &String)
        ensures
            r@ == self.menu_entry_spec(),
    {
        &self.menu_entry
    }
}

/// Configuration of one device.
#[derive(Debug, PartialEq, Eq)]
pub struct DeviceConfiguration {
    /// URI of the agent service running on the device.
    pub agent: String,
    /// Name of the network interface the device is reached on; the
    /// configuration-wide default applies when absent.
    pub interface: Option<String>,
    /// The device's hardware address, for Wake-on-LAN.
    pub mac_address: Mac,
    /// Path of the device's bootloader config file, relative to the
    /// TFTP directory.
    pub grub_config: String,
    /// The targets the device can boot, each with its menu entry.
    pub targets: Vec<(TargetId, TargetConfiguration)>,
}

/// The first target of the given name, if any.
pub open spec fn lookup_target(
    ts: Seq<(TargetId, TargetConfiguration)>,
    name: Seq<char>,
) -> Option<TargetConfiguration>
    decreases ts.len(),
{
    if ts.len() == 0 {
        None
    } else if ts[0].0@ == name {
        Some(ts[0].1)
    } else {
        lookup_target(ts.drop_first(), name)
    }
}

impl DeviceConfiguration {
    /// No two targets share a name.
    pub open spec fn wf(&self) -> bool {
        forall|i: int, j: int|
            0 <= i < j < self.targets@.len() ==> #[trigger] self.targets@[i].0@ != #[trigger] self.targets@[j].0@
    }

    /// URI of the agent service running on the device.
    pub fn agent(&self) -> (r: &String)
        ensures
            r@ == self.agent@,
    {
        &self.agent
    }

    /// The configured interface name, if the device overrides the
    /// default.
    pub fn interface(&self) -> (r: &Option<String>)
        ensures
            r == &self.interface,
    {
        &self.interface
    }

    /// The device's hardware address.
    pub fn mac_address(&self) -> (r: Mac)
        ensures
            r == self.mac_address,
    {
        self.mac_address
    }

    /// Path of the bootloader config file, relative to the TFTP
    /// directory.
    pub fn grub_config(&self) -> (r: &String)
        ensures
            r@ == self.grub_config@,
    {
        &self.grub_config
    }

    /// The device's target map.
    pub fn targets(&self) -> (r: &Vec<(TargetId, TargetConfiguration)>)
        ensures
            r == &self.targets,
    {
        &self.targets
    }

    /// The menu entry configured for a target, if the target exists.
    pub fn menu_entry_of(&self, target: &TargetId) -> (r: Option<String>)
        ensures
            match lookup_target(self.targets@, target@) {
                Some(tc) => r matches Some(s) && s@ == tc.menu_entry_spec(),
                None => r is None,
            },
    {
        find_menu_entry(&self.targets, target)
    }
}

/// The menu entry the first target of the given name carries, if any
/// target of that name is in the map.
pub fn find_menu_entry(
    targets: &Vec<(TargetId, TargetConfiguration)>,
    target: &TargetId,
) -> (r: Option<String>)
    ensures
        match lookup_target(targets@, target@) {
            Some(tc) => r matches Some(s) && s@ == tc.menu_entry_spec(),
            None => r is None,
        },
{
    let n = targets.len();
    let mut i: usize = 0;
    proof {
        assert(targets@.skip(0) =~= targets@);
    }
    while i < n
        invariant
            n == targets@.len(),
            i <= n,
            lookup_target(targets@, target@) == lookup_target(targets@.skip(i as int), target@),
        decreases n - i,
    {
        let pair = &targets[i];
        proof {
            assert(targets@.skip(i as int)[0] == targets@[i as int]);
        }
        if pair.0.as_string().eq(target.as_string()) {
            return Some(pair.1.menu_entry.clone());
        }
        proof {
            assert(targets@.skip(i as int).drop_first() =~= targets@.skip(i as int + 1));
        }
        i += 1;
    }
    proof {
        assert(targets@.skip(i as int).len() == 0);
    }
    None
}

/// The whole controller configuration.
#[derive(Debug, PartialEq, Eq)]
pub struct Configuration {
    /// The configured devices, each with its configuration.
    pub devices: Vec<(DeviceId, DeviceConfiguration)>,
    /// The directory the TFTP server serves bootloader files from.
    pub tftp_directory: String,
    /// The interface to wake devices on when they name none.
    pub default_interface: String,
}

/// The first device of the given name, if any.
pub open spec fn lookup_device(
    ds: Seq<(DeviceId, DeviceConfiguration)>,
    name: Seq<char>,
) -> Option<DeviceConfiguration>
    decreases ds.len(),
{
    if ds.len() == 0 {
        None
    } else if ds[0].0@ == name {
        Some(ds[0].1)
    } else {
        lookup_device(ds.drop_first(), name)
    }
}

impl Configuration {
    /// No two devices share an identifier, and each device is well
    /// formed.
    pub open spec fn wf(&self) -> bool {
        &&& forall|i: int, j: int|
            0 <= i < j < self.devices@.len() ==> #[trigger] self.devices@[i].0@ != #[trigger] self.devices@[j].0@
        &&& forall|i: int| 0 <= i < self.devices@.len() ==> (#[trigger] self.devices@[i].1).wf()
    }

    /// The identifiers of all configured devices, in configuration
    /// order.
    pub fn devices(&self) -> (r: Vec<DeviceId>)
        ensures
            r@.len() == self.devices@.len(),
            forall|i: int| 0 <= i < r@.len() ==> r@[i] == self.devices@[i].0,
    {
        let n = self.devices.len();
        let mut out: Vec<DeviceId> = Vec::new();
        let mut i: usize = 0;
        while i < n
            invariant
                n == self.devices@.len(),
                i <= n,
                out@.len() == i,
                forall|j: int| 0 <= j < i ==> out@[j] == self.devices@[j].0,
            decreases n - i,
        {
            out.push(self.devices[i].0.clone());
            i += 1;
        }
        out
    }

    /// The configured devices with their configurations.
    pub fn device_configs(&self) -> (r: &Vec<(DeviceId, DeviceConfiguration)>)
        ensures
            r == &self.devices,
    {
        &self.devices
    }

    /// The configuration of the named device, if it is configured.
    pub fn device_config(&self, id: &DeviceId) -> (r: Option<&DeviceConfiguration>)
        ensures
            match lookup_device(self.devices@, id@) {
                Some(dc) => r matches Some(c) && *c == dc,
                None => r is None,
            },
    {
        let n = self.devices.len();
        let mut i: usize = 0;
        proof {
            assert(self.devices@.skip(0) =~= self.devices@);
        }
        while i < n
            invariant
                n == self.devices@.len(),
                i <= n,
                lookup_device(self.devices@, id@) == lookup_device(
                    self.devices@.skip(i as int),
                    id@,
                ),
            decreases n - i,
        {
            let pair = &self.devices[i];
            proof {
                assert(self.devices@.skip(i as int)[0] == self.devices@[i as int]);
            }
            if pair.0.as_string().eq(id.as_string()) {
                return Some(&pair.1);
            }
            proof {
                assert(self.devices@.skip(i as int).drop_first() =~= self.devices@.skip(
                    i as int + 1,
                ));
            }
            i += 1;
        }
        proof {
            assert(self.devices@.skip(i as int).len() == 0);
        }
        None
    }

    /// Name of the interface used for devices that do not name one.
    pub fn default_interface(&self) -> (r: &String)
        ensures
            r@ == self.default_interface@,
    {
        &self.default_interface
    }

    /// The directory bootloader config files are written under.
    pub fn tftp_directory(&self) -> (r: &String)
        ensures
            r@ == self.tftp_directory@,
    {
        &self.tftp_directory
    }
}


// ---------------------------------------------------------------------------
// The semantic content of a configuration, and of its plain decoded
// form, as mathematical values. The decoded form is what a
// configuration file holds once its syntax is out of the way: names
// and addresses still as text. Parsing validates that text; rendering
// writes it back. The round-trip law at the end says rendering loses
// nothing.
// ---------------------------------------------------------------------------

/// The semantic content of one target entry.
#[verifier::ext_equal]
pub struct TargetV {
    pub name: Seq<char>,
    pub menu_entry: Seq<char>,
}

/// The semantic content of one device entry.
#[verifier::ext_equal]
pub struct DeviceV {
    pub name: Seq<char>,
    pub agent: Seq<char>,
    pub interface: Option<Seq<char>>,
    pub mac: Mac,
    pub grub_config: Seq<char>,
    pub targets: Seq<TargetV>,
}

/// The semantic content of a whole configuration.
#[verifier::ext_equal]
pub struct ConfigV {
    pub devices: Seq<DeviceV>,
    pub tftp_directory: Seq<char>,
    pub default_interface: Seq<char>,
}

/// One decoded target entry, the hardware address still text.
#[verifier::ext_equal]
pub struct RawTargetV {
    pub name: Seq<char>,
    pub menu_entry: Seq<char>,
}

/// One decoded device entry.
#[verifier::ext_equal]
pub struct RawDeviceV {
    pub name: Seq<char>,
    pub agent: Seq<char>,
    pub interface: Option<Seq<char>>,
    pub mac_address: Seq<char>,
    pub grub_config: Seq<char>,
    pub targets: Seq<RawTargetV>,
}

/// A whole decoded configuration.
#[verifier::ext_equal]
pub struct RawConfigV {
    pub devices: Seq<RawDeviceV>,
    pub tftp_directory: Seq<char>,
    pub default_interface: Seq<char>,
}

/// The semantic content of one Configuration target pair.
pub open spec fn target_entry_v(p: (TargetId, TargetConfiguration)) -> TargetV {
    TargetV { name: p.0@, menu_entry: p.1.menu_entry_spec() }
}

/// The semantic content of one Configuration device pair.
pub open spec fn device_entry_v(p: (DeviceId, DeviceConfiguration)) -> DeviceV {
    DeviceV {
        name: p.0@,
        agent: p.1.agent@,
        interface: match p.1.interface {
            Some(s) => Some(s@),
            None => None,
        },
        mac: p.1.mac_address,
        grub_config: p.1.grub_config@,
        targets: p.1.targets@.map_values(|t: (TargetId, TargetConfiguration)| target_entry_v(t)),
    }
}

/// The semantic content of a Configuration value.
pub open spec fn config_v(c: Configuration) -> ConfigV {
    ConfigV {
        devices: c.devices@.map_values(|d: (DeviceId, DeviceConfiguration)| device_entry_v(d)),
        tftp_directory: c.tftp_directory@,
        default_interface: c.default_interface@,
    }
}

/// Whether a parsed target list already holds this name.
pub open spec fn target_names_contain(ts: Seq<TargetV>, n: Seq<char>) -> bool {
    exists|i: int| 0 <= i < ts.len() && #[trigger] ts[i].name == n
}

/// Whether a parsed device list already holds this name.
pub open spec fn device_names_contain(ds: Seq<DeviceV>, n: Seq<char>) -> bool {
    exists|i: int| 0 <= i < ds.len() && #[trigger] ds[i].name == n
}

/// Parses one target entry: the name must be a well-formed target
/// identifier.
pub open spec fn parse_target_v(rt: RawTargetV) -> Option<TargetV> {
    if valid_target_id(rt.name) {
        Some(TargetV { name: rt.name, menu_entry: rt.menu_entry })
    } else {
        None
    }
}

/// Parses a target list, left to right, refusing a repeated name.
pub open spec fn parse_targets_v(rs: Seq<RawTargetV>) -> Option<Seq<TargetV>>
    decreases rs.len(),
{
    if rs.len() == 0 {
        Some(Seq::empty())
    } else {
        match parse_targets_v(rs.drop_last()) {
            None => None,
            Some(acc) => match parse_target_v(rs.last()) {
                None => None,
                Some(tv) => {
                    if target_names_contain(acc, tv.name) {
                        None
                    } else {
                        Some(acc.push(tv))
                    }
                },
            },
        }
    }
}

/// Parses one device entry: the name must be alphanumeric, the
/// hardware address must parse, the targets must parse.
pub open spec fn parse_device_v(rd: RawDeviceV) -> Option<DeviceV> {
    if !valid_device_id(rd.name) {
        None
    } else {
        match mac_parse(rd.mac_address) {
            None => None,
            Some(m) => match parse_targets_v(rd.targets) {
                None => None,
                Some(ts) => Some(
                    DeviceV {
                        name: rd.name,
                        agent: rd.agent,
                        interface: rd.interface,
                        mac: m,
                        grub_config: rd.grub_config,
                        targets: ts,
                    },
                ),
            },
        }
    }
}

/// Parses a device list, left to right, refusing a repeated name.
pub open spec fn parse_devices_v(rs: Seq<RawDeviceV>) -> Option<Seq<DeviceV>>
    decreases rs.len(),
{
    if rs.len() == 0 {
        Some(Seq::empty())
    } else {
        match parse_devices_v(rs.drop_last()) {
            None => None,
            Some(acc) => match parse_device_v(rs.last()) {
                None => None,
                Some(dv) => {
                    if device_names_contain(acc, dv.name) {
                        None
                    } else {
                        Some(acc.push(dv))
                    }
                },
            },
        }
    }
}

/// Parses a whole decoded configuration.
pub open spec fn parse_config_v(rc: RawConfigV) -> Option<ConfigV> {
    match parse_devices_v(rc.devices) {
        None => None,
        Some(ds) => Some(
            ConfigV {
                devices: ds,
                tftp_directory: rc.tftp_directory,
                default_interface: rc.default_interface,
            },
        ),
    }
}

/// Renders one target entry back to its decoded form.
pub open spec fn render_target_v(tv: TargetV) -> RawTargetV {
    RawTargetV { name: tv.name, menu_entry: tv.menu_entry }
}

/// Renders one device entry back to its decoded form; the hardware
/// address becomes its canonical text.
pub open spec fn render_device_v(dv: DeviceV) -> RawDeviceV {
    RawDeviceV {
        name: dv.name,
        agent: dv.agent,
        interface: dv.interface,
        mac_address: mac_render(dv.mac),
        grub_config: dv.grub_config,
        targets: dv.targets.map_values(|t: TargetV| render_target_v(t)),
    }
}

/// Renders a whole configuration back to its decoded form.
pub open spec fn render_config_v(cv: ConfigV) -> RawConfigV {
    RawConfigV {
        devices: cv.devices.map_values(|d: DeviceV| render_device_v(d)),
        tftp_directory: cv.tftp_directory,
        default_interface: cv.default_interface,
    }
}

/// A well-formed device content: a proper name, proper target names,
/// no target name twice.
pub open spec fn device_v_wf(dv: DeviceV) -> bool {
    &&& valid_device_id(dv.name)
    &&& forall|i: int| 0 <= i < dv.targets.len() ==> valid_target_id(#[trigger] dv.targets[i].name)
    &&& forall|i: int, j: int|
        0 <= i < j < dv.targets.len() ==> #[trigger] dv.targets[i].name != #[trigger] dv.targets[j].name
}

/// A well-formed configuration content: well-formed devices, no device
/// name twice.
pub open spec fn config_v_wf(cv: ConfigV) -> bool {
    &&& forall|i: int| 0 <= i < cv.devices.len() ==> device_v_wf(#[trigger] cv.devices[i])
    &&& forall|i: int, j: int|
        0 <= i < j < cv.devices.len() ==> #[trigger] cv.devices[i].name != #[trigger] cv.devices[j].name
}

proof fn lemma_targets_round_trip(ts: Seq<TargetV>)
    requires
        forall|i: int| 0 <= i < ts.len() ==> valid_target_id(#[trigger] ts[i].name),
        forall|i: int, j: int|
            0 <= i < j < ts.len() ==> #[trigger] ts[i].name != #[trigger] ts[j].name,
    ensures
        parse_targets_v(ts.map_values(|t: TargetV| render_target_v(t))) == Some(ts),
    decreases ts.len(),
{
    let rs = ts.map_values(|t: TargetV| render_target_v(t));
    if ts.len() == 0 {
        assert(rs.len() == 0);
    } else {
        let init = ts.drop_last();
        lemma_targets_round_trip(init);
        assert(rs.drop_last() =~= init.map_values(|t: TargetV| render_target_v(t)));
        assert(rs.last() == render_target_v(ts.last()));
        assert(parse_target_v(rs.last()) == Some(ts.last()));
        assert(!target_names_contain(init, ts.last().name));
        assert(init.push(ts.last()) =~= ts);
    }
}

proof fn lemma_devices_round_trip(ds: Seq<DeviceV>)
    requires
        forall|i: int| 0 <= i < ds.len() ==> device_v_wf(#[trigger] ds[i]),
        forall|i: int, j: int|
            0 <= i < j < ds.len() ==> #[trigger] ds[i].name != #[trigger] ds[j].name,
    ensures
        parse_devices_v(ds.map_values(|d: DeviceV| render_device_v(d))) == Some(ds),
    decreases ds.len(),
{
    let rs = ds.map_values(|d: DeviceV| render_device_v(d));
    if ds.len() == 0 {
        assert(rs.len() == 0);
    } else {
        let init = ds.drop_last();
        lemma_devices_round_trip(init);
        assert(rs.drop_last() =~= init.map_values(|d: DeviceV| render_device_v(d)));
        assert(rs.last() == render_device_v(ds.last()));
        let dv = ds.last();
        lemma_mac_round_trip(dv.mac);
        lemma_targets_round_trip(dv.targets);
        assert(parse_device_v(render_device_v(dv)) == Some(dv)) by {
            assert(parse_targets_v(render_device_v(dv).targets) == Some(dv.targets));
        }
        assert(!device_names_contain(init, dv.name));
        assert(init.push(dv) =~= ds);
    }
}

/// Law: any configuration content that parses round-trips — rendering
/// it back to its decoded form and parsing that form again changes
/// nothing of its semantic content.
pub proof fn lemma_config_round_trip(cv: ConfigV)
    requires
        config_v_wf(cv),
    ensures
        parse_config_v(render_config_v(cv)) == Some(cv),
{
    lemma_devices_round_trip(cv.devices);
    assert(parse_config_v(render_config_v(cv)) matches Some(c2) && c2 =~= cv);
}


/// The decoded form of one target entry, as the file syntax delivers
/// it.
#[derive(Debug)]
pub struct RawTargetEntry {
    pub name: String,
    pub menu_entry: String,
}

impl View for RawTargetEntry {
    type V = RawTargetV;

    open spec fn view(&self) -> RawTargetV {
        RawTargetV { name: self.name@, menu_entry: self.menu_entry@ }
    }
}

/// The decoded form of one device entry.
#[derive(Debug)]
pub struct RawDeviceEntry {
    pub name: String,
    pub agent: String,
    pub interface: Option<String>,
    pub mac_address: String,
    pub grub_config: String,
    pub targets: Vec<RawTargetEntry>,
}

impl View for RawDeviceEntry {
    type V = RawDeviceV;

    open spec fn view(&self) -> RawDeviceV {
        RawDeviceV {
            name: self.name@,
            agent: self.agent@,
            interface: match self.interface {
                Some(s) => Some(s@),
                None => None,
            },
            mac_address: self.mac_address@,
            grub_config: self.grub_config@,
            targets: self.targets@.map_values(|t: RawTargetEntry| t@),
        }
    }
}

/// The decoded form of a whole configuration file.
#[derive(Debug)]
pub struct RawConfiguration {
    pub devices: Vec<RawDeviceEntry>,
    pub tftp_directory: String,
    pub default_interface: String,
}

impl View for RawConfiguration {
    type V = RawConfigV;

    open spec fn view(&self) -> RawConfigV {
        RawConfigV {
            devices: self.devices@.map_values(|d: RawDeviceEntry| d@),
            tftp_directory: self.tftp_directory@,
            default_interface: self.default_interface@,
        }
    }
}

/// The semantic content of an owned target list.
pub open spec fn targets_v(s: Seq<(TargetId, TargetConfiguration)>) -> Seq<TargetV> {
    s.map_values(|t: (TargetId, TargetConfiguration)| target_entry_v(t))
}

proof fn lemma_parse_targets_prefix_none(rs: Seq<RawTargetV>, k: int)
    requires
        0 <= k <= rs.len(),
        parse_targets_v(rs.take(k)) is None,
    ensures
        parse_targets_v(rs) is None,
    decreases rs.len() - k,
{
    if k == rs.len() {
        assert(rs.take(k) =~= rs);
    } else {
        assert(rs.take(k + 1).drop_last() =~= rs.take(k));
        lemma_parse_targets_prefix_none(rs, k + 1);
    }
}

proof fn lemma_parse_devices_prefix_none(rs: Seq<RawDeviceV>, k: int)
    requires
        0 <= k <= rs.len(),
        parse_devices_v(rs.take(k)) is None,
    ensures
        parse_devices_v(rs) is None,
    decreases rs.len() - k,
{
    if k == rs.len() {
        assert(rs.take(k) =~= rs);
    } else {
        assert(rs.take(k + 1).drop_last() =~= rs.take(k));
        lemma_parse_devices_prefix_none(rs, k + 1);
    }
}

fn contains_target_name(acc: &Vec<(TargetId, TargetConfiguration)>, name: &TargetId) -> (r: bool)
    ensures
        r == target_names_contain(targets_v(acc@), name@),
{
    let n = acc.len();
    let mut i: usize = 0;
    while i < n
        invariant
            n == acc@.len(),
            i <= n,
            forall|j: int| 0 <= j < i ==> #[trigger] targets_v(acc@)[j].name != name@,
        decreases n - i,
    {
        if acc[i].0.as_string().eq(name.as_string()) {
            proof {
                assert(targets_v(acc@)[i as int].name == name@);
            }
            return true;
        }
        proof {
            assert(targets_v(acc@)[i as int].name == acc@[i as int].0@);
        }
        i += 1;
    }
    false
}

fn contains_device_name(acc: &Vec<(DeviceId, DeviceConfiguration)>, name: &DeviceId) -> (r: bool)
    ensures
        r == device_names_contain(acc@.map_values(|d: (DeviceId, DeviceConfiguration)| device_entry_v(d)), name@),
    {
    let ghost dv = acc@.map_values(|d: (DeviceId, DeviceConfiguration)| device_entry_v(d));
    let n = acc.len();
    let mut i: usize = 0;
    while i < n
        invariant
            n == acc@.len(),
            dv == acc@.map_values(|d: (DeviceId, DeviceConfiguration)| device_entry_v(d)),
            i <= n,
            forall|j: int| 0 <= j < i ==> #[trigger] dv[j].name != name@,
        decreases n - i,
    {
        if acc[i].0.as_string().eq(name.as_string()) {
            proof {
                assert(dv[i as int].name == name@);
            }
            return true;
        }
        proof {
            assert(dv[i as int].name == acc@[i as int].0@);
        }
        i += 1;
    }
    false
}

fn load_targets(raw: &Vec<RawTargetEntry>) -> (r: Result<Vec<(TargetId, TargetConfiguration)>, Error>)
    ensures
        match parse_targets_v(raw@.map_values(|t: RawTargetEntry| t@)) {
            Some(ts) => r matches Ok(v) && targets_v(v@) == ts,
            None => r matches Err(e) && e is ConfigInvalid,
        },
{
    let ghost rv = raw@.map_values(|t: RawTargetEntry| t@);
    let n = raw.len();
    let mut acc: Vec<(TargetId, TargetConfiguration)> = Vec::new();
    let mut i: usize = 0;
    while i < n
        invariant
            n == raw@.len(),
            rv == raw@.map_values(|t: RawTargetEntry| t@),
            rv.len() == n,
            i <= n,
            parse_targets_v(rv.take(i as int)) == Some(targets_v(acc@)),
        decreases n - i,
    {
        let entry = &raw[i];
        proof {
            assert(rv[i as int] == entry@);
            assert(rv.take(i + 1 as int).drop_last() =~= rv.take(i as int));
            assert(rv.take(i + 1 as int).last() == entry@);
        }
        let tid = match TargetId::new(entry.name.clone()) {
            Some(t) => t,
            None => {
                proof {
                    lemma_parse_targets_prefix_none(rv, i + 1 as int);
                }
                return Err(Error::ConfigInvalid(String::from_str("target name must not be empty")));
            },
        };
        if contains_target_name(&acc, &tid) {
            proof {
                lemma_parse_targets_prefix_none(rv, i + 1 as int);
            }
            return Err(Error::ConfigInvalid(String::from_str("target configured twice")));
        }
        let ghost prev = acc@;
        acc.push((tid, TargetConfiguration::new(entry.menu_entry.clone())));
        proof {
            assert(acc@.drop_last() =~= prev);
            assert(targets_v(acc@) =~= targets_v(prev).push(target_entry_v(acc@.last())));
        }
        i += 1;
    }
    proof {
        assert(rv.take(n as int) =~= rv);
    }
    Ok(acc)
}


/// The semantic content of an owned device list.
pub open spec fn devices_v(s: Seq<(DeviceId, DeviceConfiguration)>) -> Seq<DeviceV> {
    s.map_values(|d: (DeviceId, DeviceConfiguration)| device_entry_v(d))
}

fn load_device_body(raw: &RawDeviceEntry) -> (r: Result<DeviceConfiguration, Error>)
    ensures
        match (mac_parse(raw.mac_address@), parse_targets_v(
            raw.targets@.map_values(|t: RawTargetEntry| t@),
        )) {
            (Some(m), Some(ts)) => r matches Ok(dc) && dc.agent@ == raw.agent@ && (match dc
                .interface {
                Some(s) => Some(s@),
                None => None,
            }) == (match raw.interface {
                Some(s) => Some(s@),
                None => None,
            }) && dc.mac_address == m && dc.grub_config@ == raw.grub_config@ && targets_v(
                dc.targets@,
            ) == ts,
            _ => r matches Err(e) && e is ConfigInvalid,
        },
{
    let mac = match Mac::parse(raw.mac_address.as_str()) {
        Some(m) => m,
        None => {
            return Err(
                Error::ConfigInvalid(
                    String::from_str("hardware address must be six colon-separated octets"),
                ),
            );
        },
    };
    let targets = match load_targets(&raw.targets) {
        Ok(ts) => ts,
        Err(e) => {
            return Err(e);
        },
    };
    let interface = match &raw.interface {
        Some(s) => Some(s.clone()),
        None => None,
    };
    Ok(
        DeviceConfiguration {
            agent: raw.agent.clone(),
            interface,
            mac_address: mac,
            grub_config: raw.grub_config.clone(),
            targets,
        },
    )
}

impl Configuration {
    /// Validates a decoded configuration file: every device name must
    /// be a well-formed identifier and appear once, every hardware
    /// address must parse, every target name must be non-empty and
    /// appear once within its device. Exactly the decoded
    /// configurations whose content parses are accepted, and the
    /// accepted value carries exactly that content.
    pub fn load(raw: &RawConfiguration) -> (r: Result<Configuration, Error>)
        ensures
            match parse_config_v(raw@) {
                Some(cv) => r matches Ok(c) && config_v(c) == cv,
                None => r matches Err(e) && e is ConfigInvalid,
            },
    {
        let ghost rv = raw@.devices;
        let n = raw.devices.len();
        let mut acc: Vec<(DeviceId, DeviceConfiguration)> = Vec::new();
        let mut i: usize = 0;
        while i < n
            invariant
                n == raw.devices@.len(),
                rv == raw@.devices,
                rv.len() == n,
                i <= n,
                parse_devices_v(rv.take(i as int)) == Some(devices_v(acc@)),
            decreases n - i,
        {
            let entry = &raw.devices[i];
            proof {
                assert(rv[i as int] == entry@);
                assert(rv.take(i + 1 as int).drop_last() =~= rv.take(i as int));
                assert(rv.take(i + 1 as int).last() == entry@);
            }
            let did = match DeviceId::new(entry.name.clone()) {
                Some(d) => d,
                None => {
                    proof {
                        lemma_parse_devices_prefix_none(rv, i + 1 as int);
                    }
                    return Err(
                        Error::ConfigInvalid(
                            String::from_str("device name must be non-empty and alphanumeric"),
                        ),
                    );
                },
            };
            if contains_device_name(&acc, &did) {
                proof {
                    lemma_parse_devices_prefix_none(rv, i + 1 as int);
                }
                return Err(Error::ConfigInvalid(String::from_str("device configured twice")));
            }
            let dc = match load_device_body(entry) {
                Ok(dc) => dc,
                Err(e) => {
                    proof {
                        lemma_parse_devices_prefix_none(rv, i + 1 as int);
                    }
                    return Err(e);
                },
            };
            let ghost prev = acc@;
            proof {
                assert(parse_device_v(entry@) == Some(device_entry_v((did, dc)))) by {
                    assert(device_entry_v((did, dc)) =~= parse_device_v(entry@)->0);
                }
            }
            acc.push((did, dc));
            proof {
                assert(acc@.drop_last() =~= prev);
                assert(devices_v(acc@) =~= devices_v(prev).push(device_entry_v(acc@.last())));
            }
            i += 1;
        }
        proof {
            assert(rv.take(n as int) =~= rv);
        }
        Ok(
            Configuration {
                devices: acc,
                tftp_directory: raw.tftp_directory.clone(),
                default_interface: raw.default_interface.clone(),
            },
        )
    }
}

proof fn lemma_parse_targets_wf(rs: Seq<RawTargetV>)
    requires
        parse_targets_v(rs) is Some,
    ensures
        forall|i: int|
            0 <= i < parse_targets_v(rs)->0.len() ==> valid_target_id(
                #[trigger] parse_targets_v(rs)->0[i].name,
            ),
        forall|i: int, j: int|
            0 <= i < j < parse_targets_v(rs)->0.len() ==> #[trigger] parse_targets_v(rs)->0[i].name
                != #[trigger] parse_targets_v(rs)->0[j].name,
    decreases rs.len(),
{
    if rs.len() > 0 {
        lemma_parse_targets_wf(rs.drop_last());
        let acc = parse_targets_v(rs.drop_last())->0;
        let ts = parse_targets_v(rs)->0;
        assert(forall|i: int| 0 <= i < acc.len() ==> #[trigger] ts[i] == acc[i]);
    }
}

proof fn lemma_parse_device_wf(rd: RawDeviceV)
    requires
        parse_device_v(rd) is Some,
    ensures
        device_v_wf(parse_device_v(rd)->0),
{
    lemma_parse_targets_wf(rd.targets);
}

proof fn lemma_parse_devices_wf(rs: Seq<RawDeviceV>)
    requires
        parse_devices_v(rs) is Some,
    ensures
        forall|i: int|
            0 <= i < parse_devices_v(rs)->0.len() ==> device_v_wf(
                #[trigger] parse_devices_v(rs)->0[i],
            ),
        forall|i: int, j: int|
            0 <= i < j < parse_devices_v(rs)->0.len() ==> #[trigger] parse_devices_v(rs)->0[i].name
                != #[trigger] parse_devices_v(rs)->0[j].name,
    decreases rs.len(),
{
    if rs.len() > 0 {
        lemma_parse_devices_wf(rs.drop_last());
        lemma_parse_device_wf(rs.last());
        let acc = parse_devices_v(rs.drop_last())->0;
        let ds = parse_devices_v(rs)->0;
        assert(forall|i: int| 0 <= i < acc.len() ==> #[trigger] ds[i] == acc[i]);
    }
}

/// Law: whatever parses is well formed — proper identifiers, no
/// device twice, no target twice within a device. With the round-trip
/// law, any accepted configuration renders back to a form that parses
/// to the same content.
pub proof fn lemma_parse_config_wf(rc: RawConfigV)
    requires
        parse_config_v(rc) is Some,
    ensures
        config_v_wf(parse_config_v(rc)->0),
{
    lemma_parse_devices_wf(rc.devices);
}


fn render_targets_raw(ts: &Vec<(TargetId, TargetConfiguration)>) -> (r: Vec<RawTargetEntry>)
    ensures
        r@.map_values(|t: RawTargetEntry| t@) == targets_v(ts@).map_values(
            |t: TargetV| render_target_v(t),
        ),
{
    let n = ts.len();
    let mut out: Vec<RawTargetEntry> = Vec::new();
    let mut i: usize = 0;
    while i < n
        invariant
            n == ts@.len(),
            i <= n,
            out@.len() == i,
            forall|j: int|
                0 <= j < i ==> (#[trigger] out@[j])@ == render_target_v(target_entry_v(ts@[j])),
        decreases n - i,
    {
        let pair = &ts[i];
        out.push(
            RawTargetEntry {
                name: pair.0.as_string().clone(),
                menu_entry: pair.1.menu_entry().clone(),
            },
        );
        proof {
            assert(out@[i as int]@ =~= render_target_v(target_entry_v(ts@[i as int])));
        }
        i += 1;
    }
    proof {
        assert(out@.map_values(|t: RawTargetEntry| t@) =~= targets_v(ts@).map_values(
            |t: TargetV| render_target_v(t),
        ));
    }
    out
}

impl Configuration {
    /// Renders this configuration back to its decoded form: names and
    /// menu entries as they are, each hardware address in its
    /// canonical text. Nothing of the semantic content is lost.
    pub fn to_raw(&self) -> (r: RawConfiguration)
        ensures
            r@ == render_config_v(config_v(*self)),
    {
        let n = self.devices.len();
        let mut out: Vec<RawDeviceEntry> = Vec::new();
        let mut i: usize = 0;
        while i < n
            invariant
                n == self.devices@.len(),
                i <= n,
                out@.len() == i,
                forall|j: int|
                    0 <= j < i ==> (#[trigger] out@[j])@ == render_device_v(
                        device_entry_v(self.devices@[j]),
                    ),
            decreases n - i,
        {
            let pair = &self.devices[i];
            let interface = match &pair.1.interface {
                Some(s) => Some(s.clone()),
                None => None,
            };
            out.push(
                RawDeviceEntry {
                    name: pair.0.as_string().clone(),
                    agent: pair.1.agent.clone(),
                    interface,
                    mac_address: pair.1.mac_address.render(),
                    grub_config: pair.1.grub_config.clone(),
                    targets: render_targets_raw(&pair.1.targets),
                },
            );
            proof {
                assert(out@[i as int]@ =~= render_device_v(device_entry_v(self.devices@[i as int])));
            }
            i += 1;
        }
        let r = RawConfiguration {
            devices: out,
            tftp_directory: self.tftp_directory.clone(),
            default_interface: self.default_interface.clone(),
        };
        proof {
            assert(r@.devices =~= render_config_v(config_v(*self)).devices);
            assert(r@ =~= render_config_v(config_v(*self)));
        }
        r
    }
}

} // verus!
