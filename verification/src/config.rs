//! The settings a server is started with.

use vstd::prelude::*;

verus! {

/// What the service is told at startup. It is fixed from then on.
#[derive(Clone, Debug, PartialEq, Eq)]
pub struct Config {
    machine: String,
    usb_file: String,
    port: u16,
}

/// A [`Config`] as plain values.
pub struct ConfigView {
    /// Identifier of the virtual machine.
    pub machine: Seq<char>,
    /// Path of the file that describes the USB device.
    pub usb_file: Seq<char>,
    /// TCP port to listen on.
    pub port: u16,
}

impl View for Config {
    type V = ConfigView;

    closed spec fn view(&self) -> ConfigView {
        ConfigView { machine: self.machine@, usb_file: self.usb_file@, port: self.port }
    }
}

impl Config {
    /// Settings for the machine `machine`, the device descriptor `usb_file` and the port `port`.
    pub fn new(machine: String, usb_file: String, port: u16) -> (config: Config)
        ensures
            config@ == (ConfigView { machine: machine@, usb_file: usb_file@, port }),
    {
        Config { machine, usb_file, port }
    }

    /// Identifier of the virtual machine.
    pub fn machine(&self) -> (machine: &str)
        ensures
            machine@ == self@.machine,
    {
        self.machine.as_str()
    }

    /// Path of the file that describes the USB device.
    pub fn usb_file(&self) -> (usb_file: &str)
        ensures
            usb_file@ == self@.usb_file,
    {
        self.usb_file.as_str()
    }

    /// TCP port to listen on.
    pub fn port(&self) -> (port: u16)
        ensures
            port == self@.port,
    {
        self.port
    }
}

} // verus!
