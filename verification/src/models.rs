//! Hardware model detection.
//!
//! A detection pass gathers independent boolean observations about the
//! machine (a [`FeatureFlags`] value) from bus and block-device evidence and
//! then reduces the accumulated flag set to a [`Model`] through a fixed rule
//! table: exact-set checks for the well-known physical machines first, then a
//! loose containment check for virtual machines, then `Unknown`.

use vstd::prelude::*;

use crate::text::{has_prefix, parse_u64, spec_parse_u64, str_eq};

verus! {

/// One detection pass's accumulated evidence: each field is one independent
/// boolean observation about the machine. Flags only ever accumulate during
/// a pass (union, never removal); the whole set is then consumed once by
/// [`Model::detect_model_from_flags`].
#[derive(Clone, Copy, Debug, PartialEq, Eq, Structural)]
pub struct FeatureFlags {
    /// The USB-serial LED device that holoports carry was found.
    pub has_holoport_led: bool,
    /// A rotational, non-removable drive was found.
    pub has_holoport_hdd: bool,
    /// A non-rotational, non-removable drive was found.
    pub has_holoport_plus_ssd: bool,
    /// The USB fingerprint reader of the Dell XPS 13 was found.
    pub has_dell_xps_fpr: bool,
    /// The system identity string names the Dell XPS 13.
    pub has_dell_xps_smi: bool,
    /// A drive on the virtio bus was found.
    pub has_virtio_drive: bool,
}

impl FeatureFlags {
    /// The empty flag set: no evidence gathered yet.
    pub open spec fn spec_empty() -> FeatureFlags {
        FeatureFlags {
            has_holoport_led: false,
            has_holoport_hdd: false,
            has_holoport_plus_ssd: false,
            has_dell_xps_fpr: false,
            has_dell_xps_smi: false,
            has_virtio_drive: false,
        }
    }

    pub fn empty() -> (r: FeatureFlags)
        ensures
            r == Self::spec_empty(),
    {
        FeatureFlags {
            has_holoport_led: false,
            has_holoport_hdd: false,
            has_holoport_plus_ssd: false,
            has_dell_xps_fpr: false,
            has_dell_xps_smi: false,
            has_virtio_drive: false,
        }
    }

    /// Field-wise disjunction: the evidence of both sets together.
    pub open spec fn spec_union(self, other: FeatureFlags) -> FeatureFlags {
        FeatureFlags {
            has_holoport_led: self.has_holoport_led || other.has_holoport_led,
            has_holoport_hdd: self.has_holoport_hdd || other.has_holoport_hdd,
            has_holoport_plus_ssd: self.has_holoport_plus_ssd || other.has_holoport_plus_ssd,
            has_dell_xps_fpr: self.has_dell_xps_fpr || other.has_dell_xps_fpr,
            has_dell_xps_smi: self.has_dell_xps_smi || other.has_dell_xps_smi,
            has_virtio_drive: self.has_virtio_drive || other.has_virtio_drive,
        }
    }

    pub fn union(self, other: FeatureFlags) -> (r: FeatureFlags)
        ensures
            r == self.spec_union(other),
    {
        FeatureFlags {
            has_holoport_led: self.has_holoport_led || other.has_holoport_led,
            has_holoport_hdd: self.has_holoport_hdd || other.has_holoport_hdd,
            has_holoport_plus_ssd: self.has_holoport_plus_ssd || other.has_holoport_plus_ssd,
            has_dell_xps_fpr: self.has_dell_xps_fpr || other.has_dell_xps_fpr,
            has_dell_xps_smi: self.has_dell_xps_smi || other.has_dell_xps_smi,
            has_virtio_drive: self.has_virtio_drive || other.has_virtio_drive,
        }
    }

    /// Every flag set in `other` is also set in `self`.
    pub open spec fn spec_contains(self, other: FeatureFlags) -> bool {
        &&& (other.has_holoport_led ==> self.has_holoport_led)
        &&& (other.has_holoport_hdd ==> self.has_holoport_hdd)
        &&& (other.has_holoport_plus_ssd ==> self.has_holoport_plus_ssd)
        &&& (other.has_dell_xps_fpr ==> self.has_dell_xps_fpr)
        &&& (other.has_dell_xps_smi ==> self.has_dell_xps_smi)
        &&& (other.has_virtio_drive ==> self.has_virtio_drive)
    }
}

/// Accumulation is monotone: a union contains both of its operands, so a
/// detection pass that only unions flags never loses evidence it gathered.
pub proof fn lemma_union_monotone(a: FeatureFlags, b: FeatureFlags)
    ensures
        a.spec_union(b).spec_contains(a),
        a.spec_union(b).spec_contains(b),
{
}

/// The flag set whose exact presence identifies a Dell XPS 13.
pub open spec fn dell_xps13_flags() -> FeatureFlags {
    FeatureFlags {
        has_dell_xps_smi: true,
        has_dell_xps_fpr: true,
        ..FeatureFlags::spec_empty()
    }
}

/// The flag set whose exact presence identifies a Holoport Plus.
pub open spec fn holoport_plus_flags() -> FeatureFlags {
    FeatureFlags {
        has_holoport_plus_ssd: true,
        has_holoport_led: true,
        has_holoport_hdd: true,
        ..FeatureFlags::spec_empty()
    }
}

/// The flag set whose exact presence identifies an original Holoport.
pub open spec fn holoport_flags() -> FeatureFlags {
    FeatureFlags {
        has_holoport_led: true,
        has_holoport_hdd: true,
        ..FeatureFlags::spec_empty()
    }
}

/// The hardware models this system knows how to recognise. A derived value:
/// recomputed on every invocation, never persisted.
#[derive(Clone, Copy, Debug, PartialEq, Eq, Structural)]
pub enum Model {
    Unknown,
    /// Original Holoport.
    Holoport,
    /// Holoport with an added SSD and a larger HDD.
    HoloportPlus,
    /// A QEMU/KVM virtual machine with virtio devices.
    VirtioVM,
    /// A Dell XPS 13 9310 laptop.
    DellXPS13,
}

/// The raw contents of one block device's probe points, as read from the
/// machine. `None` records a probe point that was missing or unreadable;
/// classification recovers from that locally with a conservative default and
/// never fails.
#[derive(Debug)]
pub struct BlockDeviceProbe {
    /// The device's short name (the last path component under the block
    /// device class), used to recognise drives on the virtio bus.
    pub name: String,
    /// The raw contents of the device's rotational indicator, if readable.
    pub rotational: Option<String>,
    /// The raw contents of the device's removable indicator, if readable.
    pub removable: Option<String>,
}

/// The mathematical value of a [`BlockDeviceProbe`].
pub struct BlockDeviceProbeView {
    pub name: Seq<char>,
    pub rotational: Option<Seq<char>>,
    pub removable: Option<Seq<char>>,
}

impl View for BlockDeviceProbe {
    type V = BlockDeviceProbeView;

    open spec fn view(&self) -> BlockDeviceProbeView {
        BlockDeviceProbeView {
            name: self.name@,
            rotational: self.rotational.deep_view(),
            removable: self.removable.deep_view(),
        }
    }
}

impl DeepView for BlockDeviceProbe {
    type V = BlockDeviceProbeView;

    open spec fn deep_view(&self) -> BlockDeviceProbeView {
        self.view()
    }
}

/// What reading a probe point yields as a string: the contents short of one
/// trailing newline, or the empty string when no trailing newline is there to
/// strip; an unreadable probe point yields nothing.
pub open spec fn spec_strip_newline(s: Seq<char>) -> Seq<char> {
    if s.len() > 0 && s.last() == '\n' {
        s.drop_last()
    } else {
        Seq::empty()
    }
}

pub open spec fn spec_string_attr(raw: Option<Seq<char>>) -> Option<Seq<char>> {
    match raw {
        Some(s) => Some(spec_strip_newline(s)),
        None => None,
    }
}

/// What reading a probe point yields as an integer: the string contents
/// parsed as a decimal `u64`, or nothing when unreadable or not a number.
pub open spec fn spec_integer_attr(raw: Option<Seq<char>>) -> Option<u64> {
    match spec_string_attr(raw) {
        Some(s) => spec_parse_u64(s),
        None => None,
    }
}

/// The evidence one USB device's vendor/product identifier string
/// contributes: a fixed prefix table maps the two known identifiers to their
/// flag; every other device contributes nothing.
pub open spec fn spec_usb_device_flags(raw: Option<Seq<char>>) -> FeatureFlags {
    match spec_string_attr(raw) {
        Some(m) => if "usb:v27C6p533Cd"@.is_prefix_of(m) {
            FeatureFlags { has_dell_xps_fpr: true, ..FeatureFlags::spec_empty() }
        } else if "usb:v1A86p7523d"@.is_prefix_of(m) {
            FeatureFlags { has_holoport_led: true, ..FeatureFlags::spec_empty() }
        } else {
            FeatureFlags::spec_empty()
        },
        None => FeatureFlags::spec_empty(),
    }
}

/// The evidence one block device contributes. An unreadable rotational
/// indicator defaults to "not rotational"; an unreadable removable indicator
/// defaults to "removable" — conservative, since a device whose removability
/// is unknown must not be mistaken for an internal fixed disk. A device
/// whose short name carries the virtio prefix marks a virtio drive
/// regardless of the rotational/removable classification.
pub open spec fn spec_block_device_flags(p: BlockDeviceProbeView) -> FeatureFlags {
    let is_rotational = match spec_integer_attr(p.rotational) {
        Some(v) => v == 1,
        None => false,
    };
    let is_removable = match spec_integer_attr(p.removable) {
        Some(v) => v == 1,
        None => true,
    };
    FeatureFlags {
        has_holoport_hdd: is_rotational && !is_removable,
        has_holoport_plus_ssd: !is_rotational && !is_removable,
        has_virtio_drive: "vd"@.is_prefix_of(p.name),
        ..FeatureFlags::spec_empty()
    }
}

/// The evidence the whole-system identity string contributes: an exact match
/// against the one known product name.
pub open spec fn spec_product_flags(raw: Option<Seq<char>>) -> FeatureFlags {
    match spec_string_attr(raw) {
        Some(p) => if p == "XPS 13 9310"@ {
            FeatureFlags { has_dell_xps_smi: true, ..FeatureFlags::spec_empty() }
        } else {
            FeatureFlags::spec_empty()
        },
        None => FeatureFlags::spec_empty(),
    }
}

/// The union of the evidence of every USB device, in order.
pub open spec fn spec_usb_flags(ms: Seq<Option<Seq<char>>>) -> FeatureFlags
    decreases ms.len(),
{
    if ms.len() == 0 {
        FeatureFlags::spec_empty()
    } else {
        spec_usb_flags(ms.drop_last()).spec_union(spec_usb_device_flags(ms.last()))
    }
}

/// The union of the evidence of every block device, in order.
pub open spec fn spec_block_flags(ds: Seq<BlockDeviceProbeView>) -> FeatureFlags
    decreases ds.len(),
{
    if ds.len() == 0 {
        FeatureFlags::spec_empty()
    } else {
        spec_block_flags(ds.drop_last()).spec_union(spec_block_device_flags(ds.last()))
    }
}

/// Everything one detection pass accumulates: USB evidence, then block
/// device evidence, then the identity string.
pub open spec fn spec_detect_flags(
    usb: Seq<Option<Seq<char>>>,
    blocks: Seq<BlockDeviceProbeView>,
    product: Option<Seq<char>>,
) -> FeatureFlags {
    spec_usb_flags(usb).spec_union(spec_block_flags(blocks)).spec_union(spec_product_flags(product))
}

/// The rule table reducing a flag set to a model, first match wins: the
/// exact-set checks for the two best-known physical machines come before the
/// loose virtio containment check, so a virtual machine that happens to
/// expose a holoport-like flag combination is never classified as physical
/// hardware, and vice versa.
pub open spec fn spec_detect_model(flags: FeatureFlags) -> Model {
    if flags == dell_xps13_flags() {
        Model::DellXPS13
    } else if flags == holoport_plus_flags() {
        Model::HoloportPlus
    } else if flags == holoport_flags() {
        Model::Holoport
    } else if flags.has_virtio_drive {
        Model::VirtioVM
    } else {
        Model::Unknown
    }
}

impl Model {
    /// Reduce an accumulated flag set to a model by the fixed priority rules.
    pub fn detect_model_from_flags(flags: &FeatureFlags) -> (m: Model)
        ensures
            m == spec_detect_model(*flags),
    {
        let dell = (FeatureFlags {
            has_dell_xps_smi: true,
            has_dell_xps_fpr: true,
            has_holoport_led: false,
            has_holoport_hdd: false,
            has_holoport_plus_ssd: false,
            has_virtio_drive: false,
        });
        let plus = (FeatureFlags {
            has_holoport_plus_ssd: true,
            has_holoport_led: true,
            has_holoport_hdd: true,
            has_dell_xps_fpr: false,
            has_dell_xps_smi: false,
            has_virtio_drive: false,
        });
        let holoport = (FeatureFlags {
            has_holoport_led: true,
            has_holoport_hdd: true,
            has_holoport_plus_ssd: false,
            has_dell_xps_fpr: false,
            has_dell_xps_smi: false,
            has_virtio_drive: false,
        });
        if *flags == dell {
            Model::DellXPS13
        } else if *flags == plus {
            Model::HoloportPlus
        } else if *flags == holoport {
            Model::Holoport
        } else if flags.has_virtio_drive {
            Model::VirtioVM
        } else {
            Model::Unknown
        }
    }

    /// Reads a probe point's raw contents into a usable string, stripping one
    /// trailing newline; contents without one yield the empty string.
    pub fn string_attr(raw: &Option<String>) -> (r: Option<String>)
        ensures
            r.deep_view() == spec_string_attr(raw.deep_view()),
    {
        match raw {
            None => None,
            Some(s) => {
                let n = s.as_str().unicode_len();
                if n > 0 && s.as_str().get_char(n - 1) == '\n' {
                    let t = s.as_str().substring_char(0, n - 1).to_owned();
                    proof {
                        assert(t@ =~= s@.drop_last());
                    }
                    Some(t)
                } else {
                    Some(String::new())
                }
            },
        }
    }

    /// Reads a probe point's raw contents as a decimal integer.
    pub fn integer_attr(raw: &Option<String>) -> (r: Option<u64>)
        ensures
            r == spec_integer_attr(raw.deep_view()),
    {
        match Self::string_attr(raw) {
            Some(s) => parse_u64(s.as_str()),
            None => None,
        }
    }

    /// Probes are not trustworthy in the details (drive models change across
    /// revisions), so detection relies only on the stable structural evidence
    /// gathered here: unique USB identifiers, drive classes, the virtio bus
    /// prefix and the one known identity string. The accumulated flag set is
    /// reduced to a model by the fixed priority rules; hardware that matches
    /// no rule resolves to `Unknown` rather than a guess.
    pub fn detect_model(
        usb_modalias: &Vec<Option<String>>,
        block_devices: &Vec<BlockDeviceProbe>,
        product_name: &Option<String>,
    ) -> (m: Model)
        ensures
            m == spec_detect_model(
                spec_detect_flags(
                    usb_modalias.deep_view(),
                    block_devices.deep_view(),
                    product_name.deep_view(),
                ),
            ),
    {
        let mut flags = FeatureFlags::empty();
        let mut k: usize = 0;
        while k < usb_modalias.len()
            invariant
                0 <= k <= usb_modalias.len(),
                flags == spec_usb_flags(usb_modalias.deep_view().take(k as int)),
            decreases usb_modalias.len() - k,
        {
            proof {
                assert(usb_modalias.deep_view().take(k as int + 1).drop_last()
                    =~= usb_modalias.deep_view().take(k as int));
                assert(usb_modalias.deep_view().take(k as int + 1).last() == usb_modalias@[
                    k as int].deep_view());
            }
            flags = flags.union(usb_device_flags(&usb_modalias[k]));
            k = k + 1;
        }
        proof {
            assert(usb_modalias.deep_view().take(usb_modalias.len() as int) =~= usb_modalias
                .deep_view());
        }
        let ghost usb_acc = flags;
        let mut k: usize = 0;
        while k < block_devices.len()
            invariant
                0 <= k <= block_devices.len(),
                flags == usb_acc.spec_union(
                    spec_block_flags(block_devices.deep_view().take(k as int)),
                ),
                usb_acc == spec_usb_flags(usb_modalias.deep_view()),
            decreases block_devices.len() - k,
        {
            proof {
                assert(block_devices.deep_view().take(k as int + 1).drop_last()
                    =~= block_devices.deep_view().take(k as int));
                assert(block_devices.deep_view().take(k as int + 1).last() == block_devices@[
                    k as int].deep_view());
            }
            flags = flags.union(block_device_flags(&block_devices[k]));
            k = k + 1;
        }
        proof {
            assert(block_devices.deep_view().take(block_devices.len() as int) =~= block_devices
                .deep_view());
        }
        flags = flags.union(product_flags(product_name));
        Model::detect_model_from_flags(&flags)
    }

    /// The model's human-readable name.
    pub fn display_name(&self) -> (r: String)
        ensures
            r@ == self.spec_display_name(),
    {
        match self {
            Model::Unknown => String::from_str("Unknown Model"),
            Model::Holoport => String::from_str("Holoport"),
            Model::HoloportPlus => String::from_str("Holoport Plus"),
            Model::VirtioVM => String::from_str("VM with VirtIO"),
            Model::DellXPS13 => String::from_str("Dell XPS 13 9310"),
        }
    }

    pub open spec fn spec_display_name(self) -> Seq<char> {
        match self {
            Model::Unknown => "Unknown Model"@,
            Model::Holoport => "Holoport"@,
            Model::HoloportPlus => "Holoport Plus"@,
            Model::VirtioVM => "VM with VirtIO"@,
            Model::DellXPS13 => "Dell XPS 13 9310"@,
        }
    }
}

fn usb_device_flags(raw: &Option<String>) -> (f: FeatureFlags)
    ensures
        f == spec_usb_device_flags(raw.deep_view()),
{
    match Model::string_attr(raw) {
        None => FeatureFlags::empty(),
        Some(m) => {
            if has_prefix(m.as_str(), "usb:v27C6p533Cd") {
                FeatureFlags { has_dell_xps_fpr: true, ..FeatureFlags::empty() }
            } else if has_prefix(m.as_str(), "usb:v1A86p7523d") {
                FeatureFlags { has_holoport_led: true, ..FeatureFlags::empty() }
            } else {
                FeatureFlags::empty()
            }
        },
    }
}

fn block_device_flags(p: &BlockDeviceProbe) -> (f: FeatureFlags)
    ensures
        f == spec_block_device_flags(p@),
{
    let is_rotational = match Model::integer_attr(&p.rotational) {
        Some(v) => v == 1,
        None => false,
    };
    let is_removable = match Model::integer_attr(&p.removable) {
        Some(v) => v == 1,
        None => true,
    };
    FeatureFlags {
        has_holoport_hdd: is_rotational && !is_removable,
        has_holoport_plus_ssd: !is_rotational && !is_removable,
        has_virtio_drive: has_prefix(p.name.as_str(), "vd"),
        ..FeatureFlags::empty()
    }
}

fn product_flags(raw: &Option<String>) -> (f: FeatureFlags)
    ensures
        f == spec_product_flags(raw.deep_view()),
{
    match Model::string_attr(raw) {
        None => FeatureFlags::empty(),
        Some(p) => {
            if str_eq(p.as_str(), "XPS 13 9310") {
                FeatureFlags { has_dell_xps_smi: true, ..FeatureFlags::empty() }
            } else {
                FeatureFlags::empty()
            }
        },
    }
}

/// Detection is total and deterministic: for every flag set the rule table
/// returns exactly one of the five models, and each model comes back if and
/// only if its rule is the first to match in the fixed priority order.
pub proof fn lemma_detection_total(flags: FeatureFlags)
    ensures
        spec_detect_model(flags) == Model::DellXPS13 <==> flags == dell_xps13_flags(),
        spec_detect_model(flags) == Model::HoloportPlus <==> flags == holoport_plus_flags(),
        spec_detect_model(flags) == Model::Holoport <==> flags == holoport_flags(),
        spec_detect_model(flags) == Model::VirtioVM <==> (flags.has_virtio_drive && flags
            != dell_xps13_flags() && flags != holoport_plus_flags() && flags != holoport_flags()),
        spec_detect_model(flags) == Model::Unknown <==> (!flags.has_virtio_drive && flags
            != dell_xps13_flags() && flags != holoport_plus_flags() && flags != holoport_flags()),
{
}

/// The three exact-set rules are mutually exclusive on their own: no flag set
/// satisfies two of them at once, and none of the three exact sets carries the
/// virtio flag, so the priority order never has to break a tie between them.
pub proof fn lemma_detection_rules_exclusive(flags: FeatureFlags)
    ensures
        !(flags == dell_xps13_flags() && flags == holoport_plus_flags()),
        !(flags == dell_xps13_flags() && flags == holoport_flags()),
        !(flags == holoport_plus_flags() && flags == holoport_flags()),
        flags == dell_xps13_flags() ==> !flags.has_virtio_drive,
        flags == holoport_plus_flags() ==> !flags.has_virtio_drive,
        flags == holoport_flags() ==> !flags.has_virtio_drive,
{
}

} // verus!
