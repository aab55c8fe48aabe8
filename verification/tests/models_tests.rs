use holos_config::models::{BlockDeviceProbe, FeatureFlags, Model};

fn flags(
    led: bool,
    hdd: bool,
    plus_ssd: bool,
    fpr: bool,
    smi: bool,
    virtio: bool,
) -> FeatureFlags {
    FeatureFlags {
        has_holoport_led: led,
        has_holoport_hdd: hdd,
        has_holoport_plus_ssd: plus_ssd,
        has_dell_xps_fpr: fpr,
        has_dell_xps_smi: smi,
        has_virtio_drive: virtio,
    }
}

#[test]
fn test_holoport_flags_detect_holoport() {
    let m = Model::detect_model_from_flags(&flags(true, true, false, false, false, false));
    assert_eq!(m, Model::Holoport);
}

#[test]
fn test_holoport_plus_flags_detect_holoport_plus() {
    let m = Model::detect_model_from_flags(&flags(true, true, true, false, false, false));
    assert_eq!(m, Model::HoloportPlus);
}

#[test]
fn test_empty_flags_detect_unknown() {
    let m = Model::detect_model_from_flags(&FeatureFlags::empty());
    assert_eq!(m, Model::Unknown);
}

#[test]
fn test_virtio_alone_detects_virtio_vm() {
    let m = Model::detect_model_from_flags(&flags(false, false, false, false, false, true));
    assert_eq!(m, Model::VirtioVM);
}

#[test]
fn test_dell_flags_detect_dell() {
    let m = Model::detect_model_from_flags(&flags(false, false, false, true, true, false));
    assert_eq!(m, Model::DellXPS13);
}

#[test]
fn test_virtio_beside_holoport_flags_is_not_holoport() {
    // The loose virtio check never overrides an exact match, and an exact
    // match never swallows extra evidence: led+hdd+virtio matches no exact
    // set, so the containment rule classifies it as a VM.
    let m = Model::detect_model_from_flags(&flags(true, true, false, false, false, true));
    assert_eq!(m, Model::VirtioVM);
}

#[test]
fn test_detect_model_holoport_from_probes() {
    let usb = vec![
        Some("usb:v1A86p7523d0264dcFF\n".to_string()),
        Some("usb:v1D6Bp0002d0515\n".to_string()),
    ];
    let blocks = vec![BlockDeviceProbe {
        name: "sda".to_string(),
        rotational: Some("1\n".to_string()),
        removable: Some("0\n".to_string()),
    }];
    let m = Model::detect_model(&usb, &blocks, &None);
    assert_eq!(m, Model::Holoport);
}

#[test]
fn test_detect_model_dell_from_probes() {
    let usb = vec![Some("usb:v27C6p533Cd0100\n".to_string())];
    let blocks: Vec<BlockDeviceProbe> = vec![];
    let product = Some("XPS 13 9310\n".to_string());
    let m = Model::detect_model(&usb, &blocks, &product);
    assert_eq!(m, Model::DellXPS13);
}

#[test]
fn test_detect_model_virtio_vm_from_probes() {
    let blocks = vec![BlockDeviceProbe {
        name: "vda".to_string(),
        rotational: Some("0\n".to_string()),
        removable: Some("0\n".to_string()),
    }];
    let m = Model::detect_model(&vec![], &blocks, &None);
    assert_eq!(m, Model::VirtioVM);
}

#[test]
fn test_detect_model_nothing_found_is_unknown() {
    let m = Model::detect_model(&vec![], &vec![], &None);
    assert_eq!(m, Model::Unknown);
}

#[test]
fn test_unreadable_probes_degrade_and_continue() {
    // An unreadable modalias contributes nothing; a drive with unreadable
    // indicators counts as removable and must not look like a fixed disk.
    let usb = vec![None, Some("usb:v1A86p7523d0264\n".to_string())];
    let blocks = vec![
        BlockDeviceProbe { name: "sda".to_string(), rotational: None, removable: None },
        BlockDeviceProbe {
            name: "sdb".to_string(),
            rotational: Some("1\n".to_string()),
            removable: Some("0\n".to_string()),
        },
    ];
    let m = Model::detect_model(&usb, &blocks, &None);
    assert_eq!(m, Model::Holoport);
}

#[test]
fn test_string_attr_strips_one_trailing_newline() {
    let r = Model::string_attr(&Some("XPS 13 9310\n".to_string()));
    assert_eq!(r, Some("XPS 13 9310".to_string()));
}

#[test]
fn test_string_attr_without_newline_is_empty() {
    let r = Model::string_attr(&Some("XPS 13 9310".to_string()));
    assert_eq!(r, Some("".to_string()));
}

#[test]
fn test_string_attr_unreadable_is_none() {
    assert_eq!(Model::string_attr(&None), None);
}

#[test]
fn test_integer_attr_reads_decimal() {
    assert_eq!(Model::integer_attr(&Some("1\n".to_string())), Some(1));
    assert_eq!(Model::integer_attr(&Some("0\n".to_string())), Some(0));
}

#[test]
fn test_integer_attr_rejects_junk() {
    assert_eq!(Model::integer_attr(&Some("one\n".to_string())), None);
    assert_eq!(Model::integer_attr(&Some("\n".to_string())), None);
    assert_eq!(Model::integer_attr(&None), None);
}

#[test]
fn test_integer_attr_bounds() {
    assert_eq!(
        Model::integer_attr(&Some("18446744073709551615\n".to_string())),
        Some(u64::MAX)
    );
    assert_eq!(
        Model::integer_attr(&Some("18446744073709551616\n".to_string())),
        None
    );
    assert_eq!(Model::integer_attr(&Some("+7\n".to_string())), Some(7));
}

#[test]
fn test_display_name() {
    assert_eq!(Model::Unknown.display_name(), "Unknown Model");
    assert_eq!(Model::Holoport.display_name(), "Holoport");
    assert_eq!(Model::HoloportPlus.display_name(), "Holoport Plus");
    assert_eq!(Model::VirtioVM.display_name(), "VM with VirtIO");
    assert_eq!(Model::DellXPS13.display_name(), "Dell XPS 13 9310");
}
