use holos_config::config::{CidrAddress, DeviceIdentifier, IpAddress};
use holos_config::interface::{
    resolve_interface, resolve_interfaces, ActivationMode, ResolveFailure,
};
use holos_config::{InterfaceAddress, NetworkInterface};

fn pci(address: &str) -> NetworkInterface {
    NetworkInterface {
        identifier: DeviceIdentifier::PciAddress {
            address: address.to_string(),
        },
        static_addresses: vec![],
    }
}

#[test]
fn test_pci_single_child_resolves_to_its_name() {
    let iface = pci("0000:00:14.1");
    let children = vec!["enp0s14".to_string()];
    let r = resolve_interface(&iface, &children);
    assert_eq!(r.os_name, Some("enp0s14".to_string()));
    assert_eq!(r.failure, None);
    assert_eq!(r.mode, ActivationMode::Dhcp);
}

#[test]
fn test_pci_no_children_resolves_to_none() {
    let iface = pci("0000:00:14.1");
    let r = resolve_interface(&iface, &vec![]);
    assert_eq!(r.os_name, None);
    assert_eq!(r.failure, Some(ResolveFailure::NoneFound));
}

#[test]
fn test_pci_multiple_children_surfaced_not_guessed() {
    let iface = pci("0000:00:14.1");
    let children = vec!["eth0".to_string(), "eth1".to_string()];
    let r = resolve_interface(&iface, &children);
    assert_eq!(r.os_name, None);
    assert_eq!(r.failure, Some(ResolveFailure::MultipleFound));
}

#[test]
fn test_virtio_is_unimplemented() {
    let iface = NetworkInterface {
        identifier: DeviceIdentifier::Virtio {
            address: "0000:00:03.0".to_string(),
        },
        static_addresses: vec![],
    };
    let r = resolve_interface(&iface, &vec!["eth0".to_string()]);
    assert_eq!(r.os_name, None);
    assert_eq!(r.failure, Some(ResolveFailure::Unimplemented));
}

#[test]
fn test_usb_is_unimplemented() {
    let iface = NetworkInterface {
        identifier: DeviceIdentifier::Usb {
            address: "1-1.2".to_string(),
        },
        static_addresses: vec![],
    };
    let r = resolve_interface(&iface, &vec![]);
    assert_eq!(r.os_name, None);
    assert_eq!(r.failure, Some(ResolveFailure::Unimplemented));
}

#[test]
fn test_static_addresses_degrade_to_dhcp_with_warning() {
    let mut iface = pci("0000:00:14.1");
    iface.static_addresses = vec![InterfaceAddress {
        address: CidrAddress {
            address: IpAddress::V4 {
                octets: [10, 0, 0, 100],
            },
            prefix_len: 24,
        },
        gateway: Some(IpAddress::V4 {
            octets: [10, 0, 0, 1],
        }),
    }];
    let r = resolve_interface(&iface, &vec!["eth0".to_string()]);
    assert_eq!(r.mode, ActivationMode::Dhcp);
    assert!(r.static_requested);
    assert_eq!(r.os_name, Some("eth0".to_string()));
}

#[test]
fn test_one_failing_entry_does_not_block_the_rest() {
    let ifaces = vec![
        NetworkInterface {
            identifier: DeviceIdentifier::Virtio {
                address: "0000:00:03.0".to_string(),
            },
            static_addresses: vec![],
        },
        pci("0000:00:19.0"),
        pci("0000:00:14.1"),
    ];
    let listings = vec![
        vec![],
        vec![],
        vec!["enp0s14".to_string()],
    ];
    let rs = resolve_interfaces(&ifaces, &listings);
    assert_eq!(rs.len(), 3);
    assert_eq!(rs[0].failure, Some(ResolveFailure::Unimplemented));
    assert_eq!(rs[1].failure, Some(ResolveFailure::NoneFound));
    assert_eq!(rs[2].os_name, Some("enp0s14".to_string()));
    assert_eq!(rs[2].failure, None);
}
