//! Resolving configured network devices to live interface names.
//!
//! Each configured interface entry names a device (by PCI address, virtio
//! slot or USB address); resolution maps that identifier to the operating
//! system's name for the interface, given the network-class children the bus
//! exposes under the device. Resolution never fails a run: an entry that
//! cannot be resolved degrades to "no name, skip" with a distinguishable
//! reason, and entries are resolved independently and in configuration
//! order, so one bad entry never blocks the rest.

use vstd::prelude::*;

use crate::config::{DeviceIdentifierView, NetworkInterface, NetworkInterfaceView};

verus! {

/// How a resolved interface is to be activated.
#[derive(Clone, Copy, Debug, PartialEq, Eq, Structural)]
pub enum ActivationMode {
    Dhcp,
    Static,
}

/// Why an interface entry resolved to no name. Distinguishable on purpose:
/// the caller can report "not found" and "not yet implemented" differently.
#[derive(Clone, Copy, Debug, PartialEq, Eq, Structural)]
pub enum ResolveFailure {
    /// The PCI device exposes no network-class child.
    NoneFound,
    /// The PCI device exposes more than one network-class child, so picking
    /// one silently would be a guess; surfaced instead of resolved.
    MultipleFound,
    /// Virtio and USB identifiers are not implemented yet.
    Unimplemented,
}

/// The outcome of resolving one interface entry. `os_name` of `None` signals
/// "could not resolve; skip", with `failure` saying why. A requested static
/// address assignment is surfaced in `static_requested` but degrades to DHCP:
/// static activation is a declared but unimplemented policy path.
#[derive(Debug)]
pub struct ResolvedInterface {
    /// The operating system's name for the interface, when resolved.
    pub os_name: Option<String>,
    /// The activation mode to request downstream.
    pub mode: ActivationMode,
    /// Why no name was resolved; absent exactly when a name was.
    pub failure: Option<ResolveFailure>,
    /// Whether the entry asked for static addresses, for the caller to warn
    /// about the DHCP degradation.
    pub static_requested: bool,
}

/// The mathematical value of a [`ResolvedInterface`].
pub struct ResolvedInterfaceView {
    pub os_name: Option<Seq<char>>,
    pub mode: ActivationMode,
    pub failure: Option<ResolveFailure>,
    pub static_requested: bool,
}

impl View for ResolvedInterface {
    type V = ResolvedInterfaceView;

    open spec fn view(&self) -> ResolvedInterfaceView {
        ResolvedInterfaceView {
            os_name: self.os_name.deep_view(),
            mode: self.mode,
            failure: self.failure,
            static_requested: self.static_requested,
        }
    }
}

impl DeepView for ResolvedInterface {
    type V = ResolvedInterfaceView;

    open spec fn deep_view(&self) -> ResolvedInterfaceView {
        self.view()
    }
}

impl ResolvedInterfaceView {
    /// A name is resolved exactly when no failure is reported.
    pub open spec fn well_formed(self) -> bool {
        self.os_name is Some <==> self.failure is None
    }
}

/// What one entry resolves to, given the network-class children listed under
/// its device. A PCI address resolves to the single child's name; zero
/// children is "none found", several are surfaced rather than guessed at.
/// Virtio and USB identifiers always resolve to "unimplemented". The mode
/// degrades to DHCP unconditionally, with a requested static assignment
/// surfaced for the caller to warn about.
pub open spec fn spec_resolve_interface(
    iface: NetworkInterfaceView,
    net_children: Seq<Seq<char>>,
) -> ResolvedInterfaceView {
    let static_requested = iface.static_addresses.len() > 0;
    match iface.identifier {
        DeviceIdentifierView::PciAddress { .. } => if net_children.len() == 1 {
            ResolvedInterfaceView {
                os_name: Some(net_children[0]),
                mode: ActivationMode::Dhcp,
                failure: None,
                static_requested,
            }
        } else if net_children.len() == 0 {
            ResolvedInterfaceView {
                os_name: None,
                mode: ActivationMode::Dhcp,
                failure: Some(ResolveFailure::NoneFound),
                static_requested,
            }
        } else {
            ResolvedInterfaceView {
                os_name: None,
                mode: ActivationMode::Dhcp,
                failure: Some(ResolveFailure::MultipleFound),
                static_requested,
            }
        },
        DeviceIdentifierView::Virtio { .. } => ResolvedInterfaceView {
            os_name: None,
            mode: ActivationMode::Dhcp,
            failure: Some(ResolveFailure::Unimplemented),
            static_requested,
        },
        DeviceIdentifierView::Usb { .. } => ResolvedInterfaceView {
            os_name: None,
            mode: ActivationMode::Dhcp,
            failure: Some(ResolveFailure::Unimplemented),
            static_requested,
        },
    }
}

/// Resolves one interface entry against the network-class children its
/// device exposes. Never fails: every entry resolves to a name or to a
/// distinguishable reason to skip it.
pub fn resolve_interface(iface: &NetworkInterface, net_children: &Vec<String>) -> (r:
    ResolvedInterface)
    ensures
        r@ == spec_resolve_interface(iface@, net_children.deep_view()),
        r@.well_formed(),
{
    let static_requested = iface.static_addresses.len() > 0;
    match &iface.identifier {
        crate::config::DeviceIdentifier::PciAddress { .. } => {
            if net_children.len() == 1 {
                ResolvedInterface {
                    os_name: Some(net_children[0].clone()),
                    mode: ActivationMode::Dhcp,
                    failure: None,
                    static_requested,
                }
            } else if net_children.len() == 0 {
                ResolvedInterface {
                    os_name: None,
                    mode: ActivationMode::Dhcp,
                    failure: Some(ResolveFailure::NoneFound),
                    static_requested,
                }
            } else {
                ResolvedInterface {
                    os_name: None,
                    mode: ActivationMode::Dhcp,
                    failure: Some(ResolveFailure::MultipleFound),
                    static_requested,
                }
            }
        },
        crate::config::DeviceIdentifier::Virtio { .. } => ResolvedInterface {
            os_name: None,
            mode: ActivationMode::Dhcp,
            failure: Some(ResolveFailure::Unimplemented),
            static_requested,
        },
        crate::config::DeviceIdentifier::Usb { .. } => ResolvedInterface {
            os_name: None,
            mode: ActivationMode::Dhcp,
            failure: Some(ResolveFailure::Unimplemented),
            static_requested,
        },
    }
}

/// Every entry resolved, in configuration order, each against its own
/// device's child listing.
pub open spec fn spec_resolve_all(
    ifaces: Seq<NetworkInterfaceView>,
    listings: Seq<Seq<Seq<char>>>,
) -> Seq<ResolvedInterfaceView> {
    Seq::new(ifaces.len(), |i: int| spec_resolve_interface(ifaces[i], listings[i]))
}

/// Resolves every configured interface entry, in order. `listings[i]` holds
/// the network-class children listed under the device of `ifaces[i]`. Each
/// entry is resolved independently: a failing entry yields its skip marker
/// and the pass continues with the rest.
pub fn resolve_interfaces(ifaces: &Vec<NetworkInterface>, listings: &Vec<Vec<String>>) -> (rs: Vec<
    ResolvedInterface,
>)
    requires
        listings@.len() == ifaces@.len(),
    ensures
        rs.deep_view() == spec_resolve_all(ifaces.deep_view(), listings.deep_view()),
{
    let mut rs: Vec<ResolvedInterface> = Vec::new();
    let mut k: usize = 0;
    while k < ifaces.len()
        invariant
            0 <= k <= ifaces.len(),
            listings@.len() == ifaces@.len(),
            rs.deep_view().len() == k,
            forall|i: int|
                0 <= i < k ==> rs.deep_view()[i] == spec_resolve_interface(
                    ifaces.deep_view()[i],
                    listings.deep_view()[i],
                ),
        decreases ifaces.len() - k,
    {
        let r = resolve_interface(&ifaces[k], &listings[k]);
        let ghost prev = rs.deep_view();
        rs.push(r);
        proof {
            assert(rs.deep_view() =~= prev.push(r@));
            assert(ifaces.deep_view()[k as int] == ifaces@[k as int]@);
            assert(listings.deep_view()[k as int] == listings@[k as int].deep_view());
        }
        k = k + 1;
    }
    proof {
        assert(rs.deep_view() =~= spec_resolve_all(ifaces.deep_view(), listings.deep_view()));
    }
    rs
}

/// Entries are isolated from one another: what an entry resolves to depends
/// only on that entry and its own listing, so one entry failing to resolve
/// cannot change what any other entry resolves to.
pub proof fn lemma_resolution_isolated(
    ifaces_a: Seq<NetworkInterfaceView>,
    listings_a: Seq<Seq<Seq<char>>>,
    ifaces_b: Seq<NetworkInterfaceView>,
    listings_b: Seq<Seq<Seq<char>>>,
    j: int,
)
    requires
        ifaces_a.len() == listings_a.len(),
        ifaces_b.len() == listings_b.len(),
        0 <= j < ifaces_a.len(),
        0 <= j < ifaces_b.len(),
        ifaces_a[j] == ifaces_b[j],
        listings_a[j] == listings_b[j],
    ensures
        spec_resolve_all(ifaces_a, listings_a)[j] == spec_resolve_all(ifaces_b, listings_b)[j],
{
}

} // verus!
