//! The port resolver: a live enumeration of the system's serial ports
//! behind a trusted wrapper, and a verified match of a user-chosen port
//! name against the USB-class entries of that list. Non-USB ports are
//! deliberately excluded: the flashing protocol needs direct USB
//! control-line access to enter bootloader mode.

use vstd::prelude::*;

use crate::errors::FlashError;
use crate::strings::str_eq;

verus! {

/// The USB metadata of an enumerated port.
#[derive(Debug, PartialEq, Eq)]
pub struct UsbPortMeta {
    pub vid: u16,
    pub pid: u16,
    pub serial_number: Option<String>,
    pub manufacturer: Option<String>,
    pub product: Option<String>,
}

impl Clone for UsbPortMeta {
    fn clone(&self) -> (r: Self)
        ensures
            r == *self,
    {
        UsbPortMeta {
            vid: self.vid,
            pid: self.pid,
            serial_number: clone_opt_string(&self.serial_number),
            manufacturer: clone_opt_string(&self.manufacturer),
            product: clone_opt_string(&self.product),
        }
    }
}

fn clone_opt_string(s: &Option<String>) -> (r: Option<String>)
    ensures
        r == *s,
{
    match s {
        Some(v) => Some(v.clone()),
        None => None,
    }
}

/// One enumerated serial port: its platform name, and its USB metadata
/// exactly when the operating system reports it as a USB port.
#[derive(Debug, PartialEq, Eq)]
pub struct PortDescriptor {
    pub port_name: String,
    pub usb: Option<UsbPortMeta>,
}

impl Clone for PortDescriptor {
    fn clone(&self) -> (r: Self)
        ensures
            r == *self,
    {
        PortDescriptor {
            port_name: self.port_name.clone(),
            usb: match &self.usb {
                Some(m) => Some(m.clone()),
                None => None,
            },
        }
    }
}

/// Relies on `serialport::available_ports`: a live enumeration of the
/// serial ports the operating system reports right now. Which ports come
/// back depends on the machine's state at the moment of the call, so
/// nothing is promised of the list itself; a returned descriptor carries
/// USB metadata exactly when the system reported the port as a USB one.
#[verifier::external_body]
fn enumerate_ports() -> (r: Result<Vec<PortDescriptor>, FlashError>)
    ensures
        r matches Err(e) ==> e == FlashError::PortEnumerationFailed,
{
    match serialport::available_ports() {
        Ok(ports) => Ok(ports.into_iter().map(|p| PortDescriptor {
            usb: match p.port_type {
                serialport::SerialPortType::UsbPort(u) => Some(UsbPortMeta {
                    vid: u.vid, pid: u.pid, serial_number: u.serial_number,
                    manufacturer: u.manufacturer, product: u.product,
                }),
                _ => None,
            },
            port_name: p.port_name,
        }).collect()),
        Err(_) => Err(FlashError::PortEnumerationFailed),
    }
}

/// List the serial ports attached right now; re-enumerated on every call,
/// never cached.
pub fn get_available_serial_ports() -> (r: Result<Vec<PortDescriptor>, FlashError>)
    ensures
        r matches Err(e) ==> e == FlashError::PortEnumerationFailed,
{
    enumerate_ports()
}

/// What matching a port name against an enumerated list must yield: the
/// first USB-class port whose platform name equals the argument, or
/// `PortNotFound` when no USB port carries that name — a non-USB port is
/// never returned, even on a textual name match.
pub open spec fn find_port_spec(
    ports: Seq<PortDescriptor>,
    name: Seq<char>,
    r: Result<PortDescriptor, FlashError>,
) -> bool {
    match r {
        Ok(p) => {
            &&& p.usb is Some
            &&& p.port_name@ == name
            &&& exists|i: int|
                {
                    &&& 0 <= i < ports.len()
                    &&& ports[i] == p
                    &&& forall|j: int|
                        0 <= j < i ==> !(ports[j].usb is Some && ports[j].port_name@ == name)
                }
        },
        Err(e) => {
            &&& e matches FlashError::PortNotFound { name: n } && n@ == name
            &&& forall|i: int|
                0 <= i < ports.len() ==> !(ports[i].usb is Some && ports[i].port_name@ == name)
        },
    }
}

/// Match a port name against an enumerated list, USB-class ports only.
pub fn find_usb_port_by_name(ports: &Vec<PortDescriptor>, port: &String) -> (r: Result<
    PortDescriptor,
    FlashError,
>)
    ensures
        find_port_spec(ports@, port@, r),
{
    let mut i: usize = 0;
    while i < ports.len()
        invariant
            i <= ports@.len(),
            forall|j: int|
                0 <= j < i ==> !(ports@[j].usb is Some && ports@[j].port_name@ == port@),
        decreases ports@.len() - i,
    {
        let candidate = &ports[i];
        if candidate.usb.is_some() && str_eq(candidate.port_name.as_str(), port.as_str()) {
            return Ok(candidate.clone());
        }
        i = i + 1;
    }
    Err(FlashError::PortNotFound { name: port.clone() })
}

/// A name carried only by non-USB ports is not found: any result meeting
/// the matcher's contract on a list without a USB port of that name is the
/// `PortNotFound` error.
pub proof fn lemma_no_usb_match_fails(
    ports: Seq<PortDescriptor>,
    name: Seq<char>,
    r: Result<PortDescriptor, FlashError>,
)
    requires
        find_port_spec(ports, name, r),
        forall|i: int|
            0 <= i < ports.len() ==> !(ports[i].usb is Some && ports[i].port_name@ == name),
    ensures
        r matches Err(e) && (e matches FlashError::PortNotFound { name: n } && n@ == name),
{
}

/// Enumerate the live ports and match a port name against them.
pub fn get_port_by_name(port: &String) -> (r: Result<PortDescriptor, FlashError>)
    ensures
        r matches Ok(p) ==> p.usb is Some && p.port_name@ == port@,
        r matches Err(e) ==> e == FlashError::PortEnumerationFailed || (
        e matches FlashError::PortNotFound { name } && name@ == port@),
{
    let ports = match enumerate_ports() {
        Ok(ports) => ports,
        Err(e) => {
            return Err(e);
        },
    };
    find_usb_port_by_name(&ports, port)
}

/// The USB metadata of the named port, enumerated live.
pub fn get_serial_port_info(upload_port: &String) -> (r: Result<UsbPortMeta, FlashError>)
    ensures
        r matches Err(e) ==> e == FlashError::PortEnumerationFailed || (
        e matches FlashError::PortNotFound { name } && name@ == upload_port@),
{
    let p = match get_port_by_name(upload_port) {
        Ok(p) => p,
        Err(e) => {
            return Err(e);
        },
    };
    match p.usb {
        Some(m) => Ok(m),
        None => vstd::pervasive::unreached(),
    }
}

} // verus!
