use serial_ext::port_info::{EntryKey, FieldValue, PortDescriptor, PortKind, UsbInfo};
use serial_ext::serial::{DeviceErrorKind, Operation, Serial, SerialError};

fn text(v: &FieldValue) -> String {
    match v {
        FieldValue::Text(s) => s.clone(),
        FieldValue::Number(n) => panic!("expected text, found number {}", n),
    }
}

fn number(v: &FieldValue) -> u16 {
    match v {
        FieldValue::Number(n) => *n,
        FieldValue::Text(s) => panic!("expected number, found text {}", s),
    }
}

#[test]
fn other_port_renders_name_only() {
    let d = PortDescriptor { name: "/dev/ttyS0".to_string(), kind: PortKind::Other };
    let es = d.to_entries();
    assert_eq!(es.len(), 1);
    assert_eq!(es[0].key, EntryKey::Name);
    assert_eq!(text(&es[0].value), "/dev/ttyS0");
}

#[test]
fn usb_port_renders_all_fields_in_order() {
    let d = PortDescriptor {
        name: "/dev/ttyUSB0".to_string(),
        kind: PortKind::Usb(UsbInfo {
            vid: 0x2341,
            pid: 0x0043,
            serial_number: Some("A1B2".to_string()),
            manufacturer: Some("Arduino".to_string()),
            product: Some("Uno".to_string()),
        }),
    };
    let es = d.to_entries();
    let keys: Vec<&str> = es.iter().map(|e| e.key.as_str()).collect();
    assert_eq!(keys, vec!["name", "type", "vid", "pid", "sn", "manufacture", "product"]);
    assert_eq!(text(&es[0].value), "/dev/ttyUSB0");
    assert_eq!(text(&es[1].value), "usb");
    assert_eq!(number(&es[2].value), 0x2341);
    assert_eq!(number(&es[3].value), 0x0043);
    assert_eq!(text(&es[4].value), "A1B2");
    assert_eq!(text(&es[5].value), "Arduino");
    assert_eq!(text(&es[6].value), "Uno");
}

#[test]
fn usb_port_missing_texts_render_empty() {
    let d = PortDescriptor {
        name: "COM3".to_string(),
        kind: PortKind::Usb(UsbInfo {
            vid: 1,
            pid: 2,
            serial_number: None,
            manufacturer: None,
            product: Some("Bridge".to_string()),
        }),
    };
    let es = d.to_entries();
    assert_eq!(es.len(), 7);
    assert_eq!(text(&es[4].value), "");
    assert_eq!(text(&es[5].value), "");
    assert_eq!(text(&es[6].value), "Bridge");
}

fn other(name: &str) -> PortDescriptor {
    PortDescriptor { name: name.to_string(), kind: PortKind::Other }
}

#[test]
fn listed_ports_keep_every_entry_in_order() {
    let mut diagnostics = Vec::new();
    let listing = vec![other("/dev/ttyS1"), other(""), other("/dev/ttyACM0")];
    let ports = Serial::list_ports(Ok(listing), &mut diagnostics);
    let names: Vec<&str> = ports.iter().map(|p| p.name.as_str()).collect();
    assert_eq!(names, vec!["/dev/ttyS1", "", "/dev/ttyACM0"]);
    assert!(diagnostics.is_empty());
}

#[test]
fn failed_listing_gives_no_ports_and_one_diagnostic() {
    let mut diagnostics = Vec::new();
    let e = SerialError::Device { kind: DeviceErrorKind::Unknown, description: "no sysfs".to_string() };
    let ports = Serial::list_ports(Err(e), &mut diagnostics);
    assert!(ports.is_empty());
    assert_eq!(diagnostics.len(), 1);
    assert_eq!(diagnostics[0].operation, Operation::ListPorts);
}

#[test]
fn listed_ports_are_well_formed() {
    let mut diagnostics = Vec::new();
    let listing = vec![
        other("/dev/ttyS0"),
        PortDescriptor {
            name: "/dev/ttyUSB0".to_string(),
            kind: PortKind::Usb(UsbInfo { vid: 4, pid: 5, serial_number: None, manufacturer: None, product: None }),
        },
    ];
    let ports = Serial::list_ports(Ok(listing), &mut diagnostics);
    assert_eq!(ports.len(), 2);
    for p in &ports {
        assert!(!p.name.is_empty());
        let es = p.to_entries();
        assert_eq!(es[0].key, EntryKey::Name);
        if let Some(i) = es.iter().position(|e| e.key == EntryKey::Type) {
            assert_eq!(text(&es[i].value), "usb");
            assert!(es.iter().any(|e| e.key == EntryKey::Vid));
            assert!(es.iter().any(|e| e.key == EntryKey::Pid));
        }
    }
}
