use vstd::prelude::*;

verus! {

use crate::errors::{Error, SettingsError};

/// Connection settings of the register reader: the serial port, its baud
/// rate, the unit to address, the request timeout, and where the two
/// boundary registers sit.
#[derive(Debug)]
pub struct ModbusSettings {
    pub usb_port: String,
    pub baudrate: u32,
    pub initial_address: u16,
    pub count: u16,
    pub timeout: u64,
    pub unit_id: u8,
}

/// Two register-reader settings that say the same thing.
pub open spec fn modbus_settings_eq(a: ModbusSettings, b: ModbusSettings) -> bool {
    &&& a.usb_port@ == b.usb_port@
    &&& a.baudrate == b.baudrate
    &&& a.initial_address == b.initial_address
    &&& a.count == b.count
    &&& a.timeout == b.timeout
    &&& a.unit_id == b.unit_id
}

impl Default for ModbusSettings {
    /// The stock connection: 9600 baud, unit 10, one second timeout, two
    /// boundary registers from address 100, no port chosen yet.
    fn default() -> (r: Self)
        ensures
            r.usb_port@.len() == 0,
            r.baudrate == 9600,
            r.initial_address == 100,
            r.count == 2,
            r.timeout == 1000,
            r.unit_id == 10,
    {
        ModbusSettings {
            usb_port: String::new(),
            baudrate: 9600,
            initial_address: 100,
            count: 2,
            timeout: 1000,
            unit_id: 10,
        }
    }
}

impl Clone for ModbusSettings {
    /// A clone says the same thing.
    fn clone(&self) -> (r: Self)
        ensures
            modbus_settings_eq(r, *self),
    {
        ModbusSettings {
            usb_port: self.usb_port.clone(),
            baudrate: self.baudrate,
            initial_address: self.initial_address,
            count: self.count,
            timeout: self.timeout,
            unit_id: self.unit_id,
        }
    }
}

/// Everything the application persists between sessions.
#[derive(Debug)]
pub struct Settings {
    pub modbus: ModbusSettings,
}

/// Two settings that say the same thing.
pub open spec fn settings_eq(a: Settings, b: Settings) -> bool {
    modbus_settings_eq(a.modbus, b.modbus)
}

impl Default for Settings {
    /// Stock settings throughout.
    fn default() -> (r: Self)
        ensures
            r.modbus.usb_port@.len() == 0,
            r.modbus.baudrate == 9600,
            r.modbus.initial_address == 100,
            r.modbus.count == 2,
            r.modbus.timeout == 1000,
            r.modbus.unit_id == 10,
    {
        Settings { modbus: ModbusSettings::default() }
    }
}

impl Clone for Settings {
    /// A clone says the same thing.
    fn clone(&self) -> (r: Self)
        ensures
            settings_eq(r, *self),
    {
        Settings { modbus: self.modbus.clone() }
    }
}

/// Keeps the settings of the running session. Reading and writing the
/// settings file is the surrounding application's concern; this store
/// holds what was last loaded or saved.
#[derive(Debug)]
pub struct SettingsService {
    pub settings: Option<Settings>,
}

impl SettingsService {
    /// A store with nothing loaded yet.
    pub fn new() -> (r: Self)
        ensures
            r.settings is None,
    {
        SettingsService { settings: None }
    }

    /// The stored settings; a load error when none have been stored.
    pub fn get_settings(&self) -> (r: Result<Settings, Error>)
        ensures
            self.settings matches Some(s) ==> (r matches Ok(out) && settings_eq(out, s)),
            self.settings is None ==> r matches Err(Error::SettingsError(SettingsError::LoadError(
                m,
            ))),
    {
        match &self.settings {
            Some(s) => Ok(s.clone()),
            None => Err(
                Error::SettingsError(
                    SettingsError::LoadError(String::from_str("no settings have been stored")),
                ),
            ),
        }
    }

    /// Store new settings and hand back what was stored.
    pub fn update_settings(&mut self, settings: &Settings) -> (r: Result<Settings, Error>)
        ensures
            final(self).settings matches Some(s) && settings_eq(s, *settings),
            r matches Ok(out) && settings_eq(out, *settings),
    {
        self.settings = Some(settings.clone());
        Ok(settings.clone())
    }
}

} // verus!

verus! {

use crate::data::{starts_with_spec, str_starts_with};

/// Whether a discovered serial port is offered to the user: only USB
/// ports, and not the duplicate `/dev/tty.` aliases.
pub open spec fn keep_port(name: Seq<char>, is_usb: bool) -> bool {
    is_usb && !starts_with_spec(name, "/dev/tty."@)
}

/// The names kept from a discovery list of `(name, is USB)` pairs, in
/// order.
pub open spec fn kept_ports(ports: Seq<(Seq<char>, bool)>) -> Seq<Seq<char>>
    decreases ports.len(),
{
    if ports.len() == 0 {
        Seq::empty()
    } else {
        let prefix = kept_ports(ports.drop_last());
        let last = ports.last();
        if keep_port(last.0, last.1) {
            prefix.push(last.0)
        } else {
            prefix
        }
    }
}

/// The port-name views of a discovery list.
pub open spec fn ports_view(ports: Seq<(String, bool)>) -> Seq<(Seq<char>, bool)> {
    ports.map_values(|p: (String, bool)| (p.0@, p.1))
}

/// Filter a serial-port discovery list down to the names offered to the
/// user: USB ports only, without the `/dev/tty.` aliases.
pub fn filter_usb_ports(ports: &Vec<(String, bool)>) -> (r: Vec<String>)
    ensures
        r@.map_values(|s: String| s@) == kept_ports(ports_view(ports@)),
{
    let mut r: Vec<String> = Vec::new();
    let mut i: usize = 0;
    while i < ports.len()
        invariant
            i <= ports@.len(),
            r@.map_values(|s: String| s@) == kept_ports(ports_view(ports@).subrange(0, i as int)),
        decreases ports@.len() - i,
    {
        let ghost pv = ports_view(ports@);
        let (name, is_usb) = &ports[i];
        if *is_usb && !str_starts_with(name.as_str(), "/dev/tty.") {
            r.push(name.clone());
        }
        proof {
            assert(pv.subrange(0, i + 1).drop_last() =~= pv.subrange(0, i as int));
            assert(pv.subrange(0, i + 1).last() == pv[i as int]);
            if keep_port(pv[i as int].0, pv[i as int].1) {
                assert(r@.map_values(|s: String| s@) =~= kept_ports(
                    pv.subrange(0, i as int),
                ).push(pv[i as int].0));
            }
        }
        i = i + 1;
    }
    proof {
        assert(ports_view(ports@).subrange(0, ports@.len() as int) =~= ports_view(ports@));
    }
    r
}

} // verus!
