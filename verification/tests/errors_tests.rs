use meshflash::errors::FlashError;
use meshflash::menu::MenuItemId;
use meshflash::ports::{find_usb_port_by_name, PortDescriptor, UsbPortMeta};

#[test]
fn messages_carry_their_context() {
    assert_eq!(
        FlashError::BoardNotFound { hw_model: 255 }.message(),
        "Board with hardware model 255 not found"
    );
    assert_eq!(
        FlashError::MalformedVersion { input: "nope".to_string() }.message(),
        "Found malformed firmware version nope"
    );
    assert_eq!(
        FlashError::UnsupportedArchitecture { architecture: "avr".to_string() }.message(),
        "Unsupported architecture: avr"
    );
    assert_eq!(
        FlashError::PortNotFound { name: "/dev/ttyS0".to_string() }.message(),
        "Port /dev/ttyS0 not found"
    );
    assert_eq!(
        FlashError::DeviceWriteFailed { offset: 1048576 }.message(),
        "Error while writing data buffer to board at offset 1048576"
    );
    assert_eq!(
        FlashError::EntryNotFound { name: "bleota.bin".to_string() }.message(),
        "File bleota.bin not found in archive"
    );
    assert_eq!(
        FlashError::CatalogFetchFailed.message(),
        "Error while fetching from the catalog service"
    );
    assert_eq!(
        FlashError::CatalogParseFailed.message(),
        "Error while parsing the catalog response"
    );
    assert_eq!(
        FlashError::ReleaseNotFound { id: "2.9.9.none".to_string() }.message(),
        "Firmware release 2.9.9.none not found in stable or alpha channels"
    );
}

#[test]
fn menu_item_ids_round_trip() {
    let items = [
        MenuItemId::RefreshSerialPorts,
        MenuItemId::ShowWelcomeScreen,
        MenuItemId::ToggleFullscreen,
        MenuItemId::RakWirelessDiscount,
        MenuItemId::SupportMyWork,
        MenuItemId::CopyVersionNumber,
        MenuItemId::CopyLogDirectory,
        MenuItemId::OpenLogFile,
        MenuItemId::ReportBug,
    ];
    for item in items {
        let id = item.id();
        assert_eq!(MenuItemId::from_id(id.as_str()), Some(item));
    }
    assert_eq!(MenuItemId::from_id("refresh_serial_ports"), Some(MenuItemId::RefreshSerialPorts));
    assert_eq!(MenuItemId::from_id("quit"), None);
}

fn usb_port(name: &str) -> PortDescriptor {
    PortDescriptor {
        port_name: name.to_string(),
        usb: Some(UsbPortMeta {
            vid: 0x303A,
            pid: 0x1001,
            serial_number: Some("serial".to_string()),
            manufacturer: None,
            product: Some("radio".to_string()),
        }),
    }
}

fn plain_port(name: &str) -> PortDescriptor {
    PortDescriptor { port_name: name.to_string(), usb: None }
}

#[test]
fn port_match_skips_non_usb_ports_even_on_a_name_match() {
    let ports = vec![plain_port("/dev/ttyS0"), plain_port("/dev/ttyACM0")];
    assert_eq!(
        find_usb_port_by_name(&ports, &"/dev/ttyACM0".to_string()),
        Err(FlashError::PortNotFound { name: "/dev/ttyACM0".to_string() })
    );
}

#[test]
fn port_match_returns_the_first_usb_port_with_the_name() {
    let ports = vec![
        plain_port("/dev/ttyACM0"),
        usb_port("/dev/ttyACM0"),
        usb_port("/dev/ttyACM1"),
    ];
    let p = find_usb_port_by_name(&ports, &"/dev/ttyACM0".to_string()).unwrap();
    assert_eq!(p.port_name, "/dev/ttyACM0");
    assert!(p.usb.is_some());
    assert_eq!(p.usb.unwrap().vid, 0x303A);
}

#[test]
fn absent_port_name_is_not_found() {
    let ports = vec![usb_port("/dev/ttyACM1")];
    assert_eq!(
        find_usb_port_by_name(&ports, &"/dev/ttyACM9".to_string()),
        Err(FlashError::PortNotFound { name: "/dev/ttyACM9".to_string() })
    );
}
