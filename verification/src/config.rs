//! The configuration document and its resolution.
//!
//! A run loads exactly one configuration file. The source is chosen by a
//! fixed precedence — an explicit boot-time override path first, then the
//! detected model's default path, then the global default — and the parsed
//! document is then layered with the boot-time overrides to produce the
//! effective configuration. Reading and deserialising the file happen
//! outside this crate; the choices are made here.

use vstd::prelude::*;

use crate::cmdline::CmdLine;
use crate::models::Model;

verus! {

/// An IP address (IPv4 or IPv6) as plain values.
#[derive(Clone, Copy, Debug, PartialEq, Eq)]
pub enum IpAddress {
    V4 { octets: [u8; 4] },
    V6 { segments: [u16; 8] },
}

impl IpAddress {
    /// The number of bits in the address, which bounds a network prefix
    /// length over it.
    pub open spec fn spec_bits(self) -> int {
        match self {
            IpAddress::V4 { .. } => 32,
            IpAddress::V6 { .. } => 128,
        }
    }
}

/// A CIDR-syntax address and netmask: an address together with the length of
/// its network prefix. Well-formed when the prefix length does not exceed
/// the address's width.
#[derive(Clone, Copy, Debug, PartialEq, Eq)]
pub struct CidrAddress {
    pub address: IpAddress,
    pub prefix_len: u8,
}

impl CidrAddress {
    pub open spec fn well_formed(self) -> bool {
        self.prefix_len <= self.address.spec_bits()
    }
}

/// Addresses and gateways to assign to a network interface statically.
#[derive(Clone, Copy, Debug, PartialEq, Eq)]
pub struct InterfaceAddress {
    /// An IPv6 or IPv4 CIDR-syntax address/netmask to assign.
    pub address: CidrAddress,
    /// The optional IPv6 or IPv4 address of the gateway.
    pub gateway: Option<IpAddress>,
}

impl InterfaceAddress {
    pub open spec fn well_formed(self) -> bool {
        self.address.well_formed()
    }
}

/// Identifies the network device an interface entry configures. The variants
/// are a closed set; resolution dispatches on the variant and nothing else.
#[derive(Debug)]
pub enum DeviceIdentifier {
    /// The device's PCI address, the stable way to name a device.
    PciAddress { address: String },
    /// An address on the virtio bus.
    Virtio { address: String },
    /// A USB device address.
    Usb { address: String },
}

/// The mathematical value of a [`DeviceIdentifier`].
pub enum DeviceIdentifierView {
    PciAddress { address: Seq<char> },
    Virtio { address: Seq<char> },
    Usb { address: Seq<char> },
}

impl View for DeviceIdentifier {
    type V = DeviceIdentifierView;

    open spec fn view(&self) -> DeviceIdentifierView {
        match self {
            DeviceIdentifier::PciAddress { address } => DeviceIdentifierView::PciAddress {
                address: address@,
            },
            DeviceIdentifier::Virtio { address } => DeviceIdentifierView::Virtio {
                address: address@,
            },
            DeviceIdentifier::Usb { address } => DeviceIdentifierView::Usb { address: address@ },
        }
    }
}

impl DeepView for DeviceIdentifier {
    type V = DeviceIdentifierView;

    open spec fn deep_view(&self) -> DeviceIdentifierView {
        self.view()
    }
}

/// One network interface to bring up on boot. Listing an interface brings it
/// up with DHCP by default; addresses can be given statically instead.
#[derive(Debug)]
pub struct NetworkInterface {
    /// Which device this entry configures.
    pub identifier: DeviceIdentifier,
    /// Static addresses to assign where DHCP is not desired.
    pub static_addresses: Vec<InterfaceAddress>,
}

/// The mathematical value of a [`NetworkInterface`].
pub struct NetworkInterfaceView {
    pub identifier: DeviceIdentifierView,
    pub static_addresses: Seq<InterfaceAddress>,
}

impl View for NetworkInterface {
    type V = NetworkInterfaceView;

    open spec fn view(&self) -> NetworkInterfaceView {
        NetworkInterfaceView { identifier: self.identifier@, static_addresses: self.static_addresses@ }
    }
}

impl DeepView for NetworkInterface {
    type V = NetworkInterfaceView;

    open spec fn deep_view(&self) -> NetworkInterfaceView {
        self.view()
    }
}

/// Configuration for data and system persistence.
#[derive(Debug)]
pub struct StorageConfig {
    /// Partition to install the operating system to.
    pub install_partition: Option<String>,
    /// Partition to persist application data to.
    pub persist_partition: Option<String>,
}

/// The mathematical value of a [`StorageConfig`].
pub struct StorageConfigView {
    pub install_partition: Option<Seq<char>>,
    pub persist_partition: Option<Seq<char>>,
}

impl View for StorageConfig {
    type V = StorageConfigView;

    open spec fn view(&self) -> StorageConfigView {
        StorageConfigView {
            install_partition: self.install_partition.deep_view(),
            persist_partition: self.persist_partition.deep_view(),
        }
    }
}

/// Network interface and nameserver configuration.
#[derive(Debug)]
pub struct NetworkConfig {
    /// IP addresses to use as DNS nameservers, in order.
    pub nameservers: Vec<IpAddress>,
    /// The network interfaces to bring up on boot, resolved in this order.
    pub interfaces: Vec<NetworkInterface>,
}

/// The mathematical value of a [`NetworkConfig`].
pub struct NetworkConfigView {
    pub nameservers: Seq<IpAddress>,
    pub interfaces: Seq<NetworkInterfaceView>,
}

impl View for NetworkConfig {
    type V = NetworkConfigView;

    open spec fn view(&self) -> NetworkConfigView {
        NetworkConfigView {
            nameservers: self.nameservers@,
            interfaces: self.interfaces.deep_view(),
        }
    }
}

/// Security-related configuration.
#[derive(Debug)]
pub struct SecurityConfig {
    /// Usernames of github users to trust: each user's published public ssh
    /// keys become authorized keys for the local root user.
    pub github_usernames: Vec<String>,
    /// Explicit trusted keys, where github keys are unavailable or undesired.
    pub ssh_keys: Vec<String>,
    /// The root password is disabled unless its hash is given here.
    pub rootpw_hash: Option<String>,
}

/// The mathematical value of a [`SecurityConfig`].
pub struct SecurityConfigView {
    pub github_usernames: Seq<Seq<char>>,
    pub ssh_keys: Seq<Seq<char>>,
    pub rootpw_hash: Option<Seq<char>>,
}

impl View for SecurityConfig {
    type V = SecurityConfigView;

    open spec fn view(&self) -> SecurityConfigView {
        SecurityConfigView {
            github_usernames: self.github_usernames.deep_view(),
            ssh_keys: self.ssh_keys.deep_view(),
            rootpw_hash: self.rootpw_hash.deep_view(),
        }
    }
}

/// The whole configuration document: how the system runs, where it persists
/// itself, and the network and security concerns around that.
#[derive(Debug)]
pub struct HolosConfig {
    /// Persistence of data and of the system itself.
    pub storage: StorageConfig,
    /// Network interfaces and nameservers.
    pub network: NetworkConfig,
    /// Security-related content.
    pub security: SecurityConfig,
}

/// The mathematical value of a [`HolosConfig`].
pub struct HolosConfigView {
    pub storage: StorageConfigView,
    pub network: NetworkConfigView,
    pub security: SecurityConfigView,
}

impl View for HolosConfig {
    type V = HolosConfigView;

    open spec fn view(&self) -> HolosConfigView {
        HolosConfigView { storage: self.storage@, network: self.network@, security: self.security@ }
    }
}

/// One public key published on github, as the key-listing endpoint returns
/// it.
#[derive(Debug)]
pub struct GithubKeys {
    pub id: i32,
    pub key: String,
    pub created_at: String,
}

/// The per-model default configuration paths.
pub struct ModelConfig {}

impl ModelConfig {
    /// The default configuration path for a detected model, where one exists:
    /// the two physical holoport models and the known test machines each have
    /// a profile; unknown hardware has none and falls back to the global
    /// default.
    pub open spec fn spec_config_file(model: Model) -> Option<Seq<char>> {
        match model {
            Model::Holoport => Some("/etc/holos/configs/holoport.yaml"@),
            Model::HoloportPlus => Some("/etc/holos/configs/holoport_plus.yaml"@),
            Model::VirtioVM => Some("/etc/holos/configs/virtio_vm.yaml"@),
            Model::DellXPS13 => Some("/etc/holos/configs/dell_xps13.yaml"@),
            Model::Unknown => None,
        }
    }

    /// An explicit mapping from the detected model to its default
    /// configuration path, if one exists for the model.
    pub fn config_file(model: &Model) -> (r: Option<String>)
        ensures
            r.deep_view() == Self::spec_config_file(*model),
    {
        match model {
            Model::Holoport => Some(String::from_str("/etc/holos/configs/holoport.yaml")),
            Model::HoloportPlus => Some(String::from_str("/etc/holos/configs/holoport_plus.yaml")),
            Model::VirtioVM => Some(String::from_str("/etc/holos/configs/virtio_vm.yaml")),
            Model::DellXPS13 => Some(String::from_str("/etc/holos/configs/dell_xps13.yaml")),
            Model::Unknown => None,
        }
    }
}

/// The fixed global default configuration path, used when nothing better is
/// known.
pub open spec fn spec_default_config_path() -> Seq<char> {
    "/etc/holos/configs/default.yaml"@
}

pub fn default_config_path() -> (r: String)
    ensures
        r@ == spec_default_config_path(),
{
    String::from_str("/etc/holos/configs/default.yaml")
}

/// Which configuration file a run loads, first applicable wins: the explicit
/// boot-time override path if present — even where a model default exists and
/// differs — then the detected model's default path if one exists, then the
/// global default. Exactly one file is loaded.
pub open spec fn spec_select_config_path(
    override_path: Option<Seq<char>>,
    model: Model,
) -> Seq<char> {
    match override_path {
        Some(p) => p,
        None => match ModelConfig::spec_config_file(model) {
            Some(p) => p,
            None => spec_default_config_path(),
        },
    }
}

/// Chooses the configuration source for this run by the fixed precedence.
pub fn select_config_path(override_path: &Option<String>, model: &Model) -> (r: String)
    ensures
        r@ == spec_select_config_path(override_path.deep_view(), *model),
        override_path is Some ==> r@ == override_path.deep_view().unwrap(),
        override_path is None && ModelConfig::spec_config_file(*model) is Some ==> r@
            == ModelConfig::spec_config_file(*model).unwrap(),
        override_path is None && ModelConfig::spec_config_file(*model) is None ==> r@
            == spec_default_config_path(),
{
    match override_path {
        Some(p) => p.clone(),
        None => match ModelConfig::config_file(model) {
            Some(p) => p,
            None => default_config_path(),
        },
    }
}

fn clone_strings(v: &Vec<String>) -> (r: Vec<String>)
    ensures
        r@ == v@,
{
    let mut r: Vec<String> = Vec::new();
    let mut k: usize = 0;
    while k < v.len()
        invariant
            0 <= k <= v.len(),
            r@ == v@.take(k as int),
        decreases v.len() - k,
    {
        r.push(v[k].clone());
        proof {
            assert(r@ =~= v@.take(k as int + 1));
        }
        k = k + 1;
    }
    proof {
        assert(v@.take(v.len() as int) =~= v@);
    }
    r
}

impl HolosConfig {
    /// Layers the boot-time overrides over the loaded document. Only the
    /// github username list is override-eligible, and a non-empty override
    /// replaces the file-sourced list outright — no merge. Every other field
    /// is file-sourced only and left untouched; the install and live flags
    /// are not configuration and are carried separately by the caller.
    pub fn apply_overrides(&mut self, overrides: &CmdLine)
        ensures
            final (self)@.security.github_usernames == (if overrides@.github_usernames.len() > 0 {
                overrides@.github_usernames
            } else {
                old(self)@.security.github_usernames
            }),
            final (self)@.security.ssh_keys == old(self)@.security.ssh_keys,
            final (self)@.security.rootpw_hash == old(self)@.security.rootpw_hash,
            final (self)@.storage == old(self)@.storage,
            final (self)@.network == old(self)@.network,
    {
        if overrides.github_usernames.len() > 0 {
            self.security.github_usernames = clone_strings(&overrides.github_usernames);
        }
    }
}

/// The override replaces rather than merges: whatever username list the file
/// supplied, a non-empty override list is the effective list, exactly.
pub proof fn lemma_override_replaces(
    before: HolosConfigView,
    after: HolosConfigView,
    overrides: crate::cmdline::CmdLineView,
)
    requires
        overrides.github_usernames.len() > 0,
        after.security.github_usernames == (if overrides.github_usernames.len() > 0 {
            overrides.github_usernames
        } else {
            before.security.github_usernames
        }),
    ensures
        after.security.github_usernames == overrides.github_usernames,
{
}

} // verus!
