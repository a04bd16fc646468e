use hid_console::{list_devices, DeviceInfo, HidDescriptor};

fn desc(vid: u16, pid: u16, page: u16, usage: u16, path: &str) -> HidDescriptor {
    HidDescriptor {
        vendor_id: vid,
        product_id: pid,
        usage_page: page,
        usage,
        path: Some(path.to_string()),
        product_string: None,
    }
}

fn paths(list: &[DeviceInfo]) -> Vec<String> {
    list.iter().map(|d| d.path.clone()).collect()
}

#[test]
fn keyboards_and_mice_are_never_listed() {
    let devices = vec![
        desc(0x1234, 0x0001, 0x01, 0x01, "kbd"),
        desc(0x1234, 0x0002, 0x01, 0x02, "mouse"),
        desc(0x1234, 0x0003, 0xFF00, 0x01, "vendor"),
    ];
    for filter in [None, Some(false), Some(true)] {
        let out = list_devices(&devices, filter);
        assert_eq!(paths(&out), vec!["vendor".to_string()]);
    }
}

#[test]
fn other_generic_desktop_usages_are_kept() {
    let devices = vec![
        desc(0x1234, 0x0001, 0x01, 0x06, "keypad"),
        desc(0x1234, 0x0002, 0x01, 0x05, "gamepad"),
        desc(0x1234, 0x0003, 0x0C, 0x02, "consumer"),
    ];
    let out = list_devices(&devices, None);
    assert_eq!(paths(&out), vec!["keypad", "gamepad", "consumer"]);
}

#[test]
fn zero_ids_hidden_only_when_asked() {
    let devices = vec![
        desc(0, 0x0001, 0xFF00, 0x01, "zero-vid"),
        desc(0x1234, 0, 0xFF00, 0x01, "zero-pid"),
        desc(0x1234, 0x5678, 0xFF00, 0x01, "real"),
    ];
    let hidden = list_devices(&devices, Some(true));
    assert_eq!(paths(&hidden), vec!["real"]);
    for d in &hidden {
        assert!(d.vendor_id != 0 && d.product_id != 0);
    }
    assert_eq!(paths(&list_devices(&devices, Some(false))), vec!["zero-vid", "zero-pid", "real"]);
    assert_eq!(paths(&list_devices(&devices, None)), vec!["zero-vid", "zero-pid", "real"]);
}

#[test]
fn listing_keeps_enumeration_order_and_fields() {
    let mut a = desc(0x0483, 0x5750, 0xFF00, 0x01, "/dev/hidraw3");
    a.product_string = Some("Console".to_string());
    let b = desc(0x1209, 0x0001, 0xFF60, 0x61, "/dev/hidraw1");
    let out = list_devices(&vec![a, b], None);
    assert_eq!(out.len(), 2);
    assert_eq!(out[0].vendor_id, 0x0483);
    assert_eq!(out[0].product_id, 0x5750);
    assert_eq!(out[0].path, "/dev/hidraw3");
    assert_eq!(out[0].product_string, Some("Console".to_string()));
    assert_eq!(out[1].vendor_id, 0x1209);
    assert_eq!(out[1].path, "/dev/hidraw1");
    assert_eq!(out[1].product_string, None);
}

#[test]
fn path_that_is_not_text_lists_as_empty() {
    let mut d = desc(0x1234, 0x5678, 0xFF00, 0x01, "");
    d.path = None;
    let out = list_devices(&vec![d], None);
    assert_eq!(out.len(), 1);
    assert_eq!(out[0].path, "");
}

#[test]
fn empty_enumeration_lists_nothing() {
    assert!(list_devices(&Vec::new(), Some(true)).is_empty());
}
