//! The platform description handed to the kernel.
//!
//! It carries the ACPI and SMBIOS root pointers found in firmware's
//! configuration table, the framebuffer if there is one, and the memory map
//! captured at firmware exit. A platform with neither root pointer cannot be
//! booted; a platform without a framebuffer can.

use crate::error::BootError;
use vstd::prelude::*;

verus! {

/// A firmware identifier, by the five fields of its canonical text form.
#[derive(Clone, Copy, Debug, PartialEq, Eq, Structural)]
pub struct Guid {
    pub time_low: u32,
    pub time_mid: u16,
    pub time_high_and_version: u16,
    pub clock_seq_and_variant: u16,
    /// The node, a 48-bit number.
    pub node: u64,
}

/// Identifier of the ACPI 2.0 root table: 8868e871-e4f1-11d3-bc22-0080c73c8881.
pub open spec fn acpi2_guid_spec() -> Guid {
    Guid {
        time_low: 0x8868e871,
        time_mid: 0xe4f1,
        time_high_and_version: 0x11d3,
        clock_seq_and_variant: 0xbc22,
        node: 0x0080c73c8881,
    }
}

/// Identifier of the SMBIOS 3 entry point: f2fd1544-9794-4a2c-992e-e5bbcf20e394.
pub open spec fn smbios3_guid_spec() -> Guid {
    Guid {
        time_low: 0xf2fd1544,
        time_mid: 0x9794,
        time_high_and_version: 0x4a2c,
        clock_seq_and_variant: 0x992e,
        node: 0xe5bbcf20e394,
    }
}

/// Identifier of the ACPI 2.0 root table.
#[verifier::when_used_as_spec(acpi2_guid_spec)]
pub fn acpi2_guid() -> (guid: Guid)
    ensures
        guid == acpi2_guid_spec(),
{
    Guid {
        time_low: 0x8868e871,
        time_mid: 0xe4f1,
        time_high_and_version: 0x11d3,
        clock_seq_and_variant: 0xbc22,
        node: 0x0080c73c8881,
    }
}

/// Identifier of the SMBIOS 3 entry point.
#[verifier::when_used_as_spec(smbios3_guid_spec)]
pub fn smbios3_guid() -> (guid: Guid)
    ensures
        guid == smbios3_guid_spec(),
{
    Guid {
        time_low: 0xf2fd1544,
        time_mid: 0x9794,
        time_high_and_version: 0x4a2c,
        clock_seq_and_variant: 0x992e,
        node: 0xe5bbcf20e394,
    }
}

impl Guid {
    /// Tells whether two identifiers are the same, field by field.
    pub fn same_as(&self, other: &Guid) -> (same: bool)
        ensures
            same == (*self == *other),
    {
        self.time_low == other.time_low && self.time_mid == other.time_mid
            && self.time_high_and_version == other.time_high_and_version
            && self.clock_seq_and_variant == other.clock_seq_and_variant && self.node
            == other.node
    }
}

/// One entry of firmware's configuration table.
#[derive(Clone, Copy, Debug, PartialEq, Eq, Structural)]
pub struct ConfigEntry {
    pub guid: Guid,
    /// Physical address of the table the entry points to.
    pub address: u64,
}

/// Layout of one pixel in the framebuffer.
#[derive(Clone, Copy, Debug, PartialEq, Eq, Structural)]
pub enum PixelFormat {
    Rgb,
    Bgr,
    Bitmask,
    BltOnly,
}

/// The graphics mode firmware left the display in.
#[derive(Clone, Copy, Debug, PartialEq, Eq, Structural)]
pub struct FramebufferInfo {
    /// Physical address of the first pixel.
    pub base: u64,
    /// Size of the framebuffer in bytes.
    pub size: u64,
    /// Visible pixels per line.
    pub width: u32,
    /// Visible lines.
    pub height: u32,
    /// Pixels per line in memory, visible or not.
    pub stride: u32,
    pub format: PixelFormat,
}

/// What a region of physical memory is used for, by firmware's type number.
#[derive(Clone, Copy, Debug, PartialEq, Eq, Structural)]
pub enum MemoryRegionKind {
    Reserved,
    LoaderCode,
    LoaderData,
    BootServicesCode,
    BootServicesData,
    RuntimeServicesCode,
    RuntimeServicesData,
    /// Free memory, the kernel's to use.
    Usable,
    Unusable,
    AcpiReclaimable,
    AcpiNonVolatile,
    Mmio,
    MmioPortSpace,
    PalCode,
    Persistent,
    /// Any type number without a name of its own here.
    Other(u32),
}

/// The kind a type number stands for.
pub open spec fn region_kind_of(raw: u32) -> MemoryRegionKind {
    if raw == 0 {
        MemoryRegionKind::Reserved
    } else if raw == 1 {
        MemoryRegionKind::LoaderCode
    } else if raw == 2 {
        MemoryRegionKind::LoaderData
    } else if raw == 3 {
        MemoryRegionKind::BootServicesCode
    } else if raw == 4 {
        MemoryRegionKind::BootServicesData
    } else if raw == 5 {
        MemoryRegionKind::RuntimeServicesCode
    } else if raw == 6 {
        MemoryRegionKind::RuntimeServicesData
    } else if raw == 7 {
        MemoryRegionKind::Usable
    } else if raw == 8 {
        MemoryRegionKind::Unusable
    } else if raw == 9 {
        MemoryRegionKind::AcpiReclaimable
    } else if raw == 10 {
        MemoryRegionKind::AcpiNonVolatile
    } else if raw == 11 {
        MemoryRegionKind::Mmio
    } else if raw == 12 {
        MemoryRegionKind::MmioPortSpace
    } else if raw == 13 {
        MemoryRegionKind::PalCode
    } else if raw == 14 {
        MemoryRegionKind::Persistent
    } else {
        MemoryRegionKind::Other(raw)
    }
}

impl MemoryRegionKind {
    /// The type number of a kind. `Other` keeps the number it was made from.
    pub open spec fn raw_spec(self) -> u32 {
        match self {
            MemoryRegionKind::Reserved => 0,
            MemoryRegionKind::LoaderCode => 1,
            MemoryRegionKind::LoaderData => 2,
            MemoryRegionKind::BootServicesCode => 3,
            MemoryRegionKind::BootServicesData => 4,
            MemoryRegionKind::RuntimeServicesCode => 5,
            MemoryRegionKind::RuntimeServicesData => 6,
            MemoryRegionKind::Usable => 7,
            MemoryRegionKind::Unusable => 8,
            MemoryRegionKind::AcpiReclaimable => 9,
            MemoryRegionKind::AcpiNonVolatile => 10,
            MemoryRegionKind::Mmio => 11,
            MemoryRegionKind::MmioPortSpace => 12,
            MemoryRegionKind::PalCode => 13,
            MemoryRegionKind::Persistent => 14,
            MemoryRegionKind::Other(raw) => raw,
        }
    }

    /// Names firmware's type number of a memory region.
    pub fn from_raw(raw: u32) -> (kind: MemoryRegionKind)
        ensures
            kind == region_kind_of(raw),
            kind.raw_spec() == raw,
    {
        if raw == 0 {
            MemoryRegionKind::Reserved
        } else if raw == 1 {
            MemoryRegionKind::LoaderCode
        } else if raw == 2 {
            MemoryRegionKind::LoaderData
        } else if raw == 3 {
            MemoryRegionKind::BootServicesCode
        } else if raw == 4 {
            MemoryRegionKind::BootServicesData
        } else if raw == 5 {
            MemoryRegionKind::RuntimeServicesCode
        } else if raw == 6 {
            MemoryRegionKind::RuntimeServicesData
        } else if raw == 7 {
            MemoryRegionKind::Usable
        } else if raw == 8 {
            MemoryRegionKind::Unusable
        } else if raw == 9 {
            MemoryRegionKind::AcpiReclaimable
        } else if raw == 10 {
            MemoryRegionKind::AcpiNonVolatile
        } else if raw == 11 {
            MemoryRegionKind::Mmio
        } else if raw == 12 {
            MemoryRegionKind::MmioPortSpace
        } else if raw == 13 {
            MemoryRegionKind::PalCode
        } else if raw == 14 {
            MemoryRegionKind::Persistent
        } else {
            MemoryRegionKind::Other(raw)
        }
    }

    /// The type number firmware uses for this kind.
    pub fn raw(self) -> (raw: u32)
        ensures
            raw == self.raw_spec(),
    {
        match self {
            MemoryRegionKind::Reserved => 0,
            MemoryRegionKind::LoaderCode => 1,
            MemoryRegionKind::LoaderData => 2,
            MemoryRegionKind::BootServicesCode => 3,
            MemoryRegionKind::BootServicesData => 4,
            MemoryRegionKind::RuntimeServicesCode => 5,
            MemoryRegionKind::RuntimeServicesData => 6,
            MemoryRegionKind::Usable => 7,
            MemoryRegionKind::Unusable => 8,
            MemoryRegionKind::AcpiReclaimable => 9,
            MemoryRegionKind::AcpiNonVolatile => 10,
            MemoryRegionKind::Mmio => 11,
            MemoryRegionKind::MmioPortSpace => 12,
            MemoryRegionKind::PalCode => 13,
            MemoryRegionKind::Persistent => 14,
            MemoryRegionKind::Other(raw) => raw,
        }
    }
}

/// One entry of the memory map captured at firmware exit.
#[derive(Clone, Copy, Debug, PartialEq, Eq, Structural)]
pub struct MemoryRegionDescriptor {
    pub kind: MemoryRegionKind,
    /// Physical address of the region's first page.
    pub phys_start: u64,
    /// Number of 4 KiB pages in the region.
    pub page_count: u64,
    /// Firmware's attribute bits for the region.
    pub attributes: u64,
}

/// The address the configuration table gives for the table `id`: that of the
/// last entry that carries the identifier, or 0 where none does.
pub open spec fn root_pointer(entries: Seq<ConfigEntry>, id: Guid) -> u64
    decreases entries.len(),
{
    if entries.len() == 0 {
        0
    } else if entries.last().guid == id {
        entries.last().address
    } else {
        root_pointer(entries.drop_last(), id)
    }
}

/// The two root pointers a configuration table yields.
#[derive(Clone, Copy, Debug, PartialEq, Eq, Structural)]
pub struct RootPointers {
    /// Address of the ACPI 2.0 root table, 0 if absent.
    pub acpi: u64,
    /// Address of the SMBIOS 3 entry point, 0 if absent.
    pub smbios: u64,
}

/// Reads the configuration table once, front to back, and keeps the
/// addresses of the ACPI 2.0 and SMBIOS 3 tables. Every other entry is
/// passed over.
pub fn scan_config_table(entries: &[ConfigEntry]) -> (roots: RootPointers)
    ensures
        roots.acpi == root_pointer(entries@, acpi2_guid()),
        roots.smbios == root_pointer(entries@, smbios3_guid()),
{
    let acpi_id = acpi2_guid();
    let smbios_id = smbios3_guid();
    let mut roots = RootPointers { acpi: 0, smbios: 0 };
    let mut index: usize = 0;
    assert(entries@.take(0) =~= Seq::<ConfigEntry>::empty());
    while index < entries.len()
        invariant
            index <= entries.len(),
            acpi_id == acpi2_guid(),
            smbios_id == smbios3_guid(),
            roots.acpi == root_pointer(entries@.take(index as int), acpi2_guid()),
            roots.smbios == root_pointer(entries@.take(index as int), smbios3_guid()),
        decreases entries.len() - index,
    {
        let entry = entries[index];
        assert(entries@.take(index + 1).drop_last() =~= entries@.take(index as int));
        if entry.guid.same_as(&acpi_id) {
            roots.acpi = entry.address;
        } else if entry.guid.same_as(&smbios_id) {
            roots.smbios = entry.address;
        }
        index = index + 1;
    }
    assert(entries@.take(index as int) =~= entries@);
    roots
}

/// The platform description, as plain values.
pub struct PlatformView {
    pub acpi_root: u64,
    pub smbios_root: u64,
    pub framebuffer: Option<FramebufferInfo>,
    pub memory_map: Seq<MemoryRegionDescriptor>,
    pub finalized: bool,
}

/// What the kernel is handed: root pointers, framebuffer and memory map.
///
/// The description is built once with an empty memory map, and finalized
/// once with the map captured at firmware exit. Nothing recorded in it is
/// ever reset. The kernel must not read it before it is finalized.
#[derive(Debug)]
pub struct PlatformDescription {
    acpi_root: u64,
    smbios_root: u64,
    framebuffer: Option<FramebufferInfo>,
    memory_map: Vec<MemoryRegionDescriptor>,
    finalized: bool,
}

impl View for PlatformDescription {
    type V = PlatformView;

    closed spec fn view(&self) -> PlatformView {
        PlatformView {
            acpi_root: self.acpi_root,
            smbios_root: self.smbios_root,
            framebuffer: self.framebuffer,
            memory_map: self.memory_map@,
            finalized: self.finalized,
        }
    }
}

/// A platform can be booted when at least one root pointer is resolved.
pub open spec fn platform_supported(entries: Seq<ConfigEntry>) -> bool {
    root_pointer(entries, acpi2_guid()) != 0 || root_pointer(entries, smbios3_guid()) != 0
}

/// The description a supported platform is given before firmware exit.
pub open spec fn description_of(
    entries: Seq<ConfigEntry>,
    framebuffer: Option<FramebufferInfo>,
) -> PlatformView {
    PlatformView {
        acpi_root: root_pointer(entries, acpi2_guid()),
        smbios_root: root_pointer(entries, smbios3_guid()),
        framebuffer,
        memory_map: Seq::empty(),
        finalized: false,
    }
}

impl PlatformView {
    /// What holds of every description: a root pointer is resolved, and the
    /// memory map is empty until the description is finalized.
    pub open spec fn wf(self) -> bool {
        &&& self.acpi_root != 0 || self.smbios_root != 0
        &&& !self.finalized ==> self.memory_map.len() == 0
    }

    /// The description after finalizing with `map`. A description that is
    /// final already stays as it is.
    pub open spec fn finalize(self, map: Seq<MemoryRegionDescriptor>) -> PlatformView {
        if self.finalized {
            self
        } else {
            PlatformView { memory_map: map, finalized: true, ..self }
        }
    }
}

impl PlatformDescription {
    #[verifier::type_invariant]
    spec fn inv(&self) -> bool {
        &&& self.acpi_root != 0 || self.smbios_root != 0
        &&& !self.finalized ==> self.memory_map@.len() == 0
    }

    /// Assembles the description from the configuration table and the
    /// framebuffer, if firmware has one. Fails with `PlatformUnsupported`
    /// exactly when neither the ACPI nor the SMBIOS root pointer is resolved.
    pub fn build(entries: &[ConfigEntry], framebuffer: Option<FramebufferInfo>) -> (built: Result<
        Self,
        BootError,
    >)
        ensures
            match built {
                Ok(description) => platform_supported(entries@) && description@ == description_of(
                    entries@,
                    framebuffer,
                ),
                Err(e) => !platform_supported(entries@) && e == BootError::PlatformUnsupported,
            },
    {
        let roots = scan_config_table(entries);
        Self::from_roots(roots, framebuffer)
    }

    /// Assembles the description from root pointers already read. Fails with
    /// `PlatformUnsupported` exactly when both are 0.
    pub fn from_roots(roots: RootPointers, framebuffer: Option<FramebufferInfo>) -> (built: Result<
        Self,
        BootError,
    >)
        ensures
            match built {
                Ok(description) => (roots.acpi != 0 || roots.smbios != 0) && description@ == (
                PlatformView {
                    acpi_root: roots.acpi,
                    smbios_root: roots.smbios,
                    framebuffer,
                    memory_map: Seq::empty(),
                    finalized: false,
                }),
                Err(e) => roots.acpi == 0 && roots.smbios == 0 && e
                    == BootError::PlatformUnsupported,
            },
    {
        if roots.acpi == 0 && roots.smbios == 0 {
            return Err(BootError::PlatformUnsupported);
        }
        Ok(
            PlatformDescription {
                acpi_root: roots.acpi,
                smbios_root: roots.smbios,
                framebuffer,
                memory_map: Vec::new(),
                finalized: false,
            },
        )
    }

    /// Records the memory map captured at firmware exit and marks the
    /// description final. Finalizing happens once: a description that is
    /// final already is handed back unchanged.
    pub fn finalize(self, map: Vec<MemoryRegionDescriptor>) -> (done: Self)
        ensures
            done@ == self@.finalize(map@),
            done@.finalized,
    {
        proof {
            use_type_invariant(&self);
        }
        if self.finalized {
            self
        } else {
            PlatformDescription {
                acpi_root: self.acpi_root,
                smbios_root: self.smbios_root,
                framebuffer: self.framebuffer,
                memory_map: map,
                finalized: true,
            }
        }
    }

    /// Address of the ACPI 2.0 root table, 0 if absent.
    pub fn acpi_root(&self) -> (address: u64)
        ensures
            address == self@.acpi_root,
            self@.wf(),
    {
        proof {
            use_type_invariant(self);
        }
        self.acpi_root
    }

    /// Address of the SMBIOS 3 entry point, 0 if absent.
    pub fn smbios_root(&self) -> (address: u64)
        ensures
            address == self@.smbios_root,
            self@.wf(),
    {
        proof {
            use_type_invariant(self);
        }
        self.smbios_root
    }

    /// The framebuffer, if firmware has one.
    pub fn framebuffer(&self) -> (framebuffer: Option<FramebufferInfo>)
        ensures
            framebuffer == self@.framebuffer,
    {
        self.framebuffer
    }

    /// Tells whether the memory map has been recorded.
    pub fn is_finalized(&self) -> (finalized: bool)
        ensures
            finalized == self@.finalized,
    {
        self.finalized
    }

    /// The memory map, once the description is final; `None` before.
    pub fn memory_map(&self) -> (map: Option<&Vec<MemoryRegionDescriptor>>)
        ensures
            match map {
                Some(regions) => self@.finalized && regions@ == self@.memory_map,
                None => !self@.finalized,
            },
    {
        if self.finalized {
            Some(&self.memory_map)
        } else {
            None
        }
    }
}

/// A table that carries no entry for an identifier gives address 0 for it.
pub proof fn lemma_absent_is_zero(entries: Seq<ConfigEntry>, id: Guid)
    requires
        forall|i: int| 0 <= i < entries.len() ==> (#[trigger] entries[i]).guid != id,
    ensures
        root_pointer(entries, id) == 0,
    decreases entries.len(),
{
    if entries.len() > 0 {
        assert(entries.last() == entries[entries.len() - 1]);
        assert forall|i: int| 0 <= i < entries.drop_last().len() implies (
        #[trigger] entries.drop_last()[i]).guid != id by {
            assert(entries.drop_last()[i] == entries[i]);
        }
        lemma_absent_is_zero(entries.drop_last(), id);
    }
}

/// The address given for an identifier is that of the last entry that
/// carries it.
pub proof fn lemma_last_entry_wins(entries: Seq<ConfigEntry>, id: Guid, i: int)
    requires
        0 <= i < entries.len(),
        entries[i].guid == id,
        forall|j: int| i < j < entries.len() ==> (#[trigger] entries[j]).guid != id,
    ensures
        root_pointer(entries, id) == entries[i].address,
    decreases entries.len(),
{
    if i < entries.len() - 1 {
        assert(entries.last() == entries[entries.len() - 1]);
        assert forall|j: int| i < j < entries.drop_last().len() implies (
        #[trigger] entries.drop_last()[j]).guid != id by {
            assert(entries.drop_last()[j] == entries[j]);
        }
        assert(entries.drop_last()[i] == entries[i]);
        lemma_last_entry_wins(entries.drop_last(), id, i);
    }
}

/// The table carries no entry for the identifier.
pub open spec fn absent(entries: Seq<ConfigEntry>, id: Guid) -> bool {
    forall|i: int| 0 <= i < entries.len() ==> (#[trigger] entries[i]).guid != id
}

/// A table without the ACPI and without the SMBIOS identifier is not
/// supported. A table with only one of the two, at an address other than 0,
/// is: its description holds that address, and 0 for the table that is
/// absent.
pub proof fn lemma_one_root_suffices(
    entries: Seq<ConfigEntry>,
    framebuffer: Option<FramebufferInfo>,
)
    ensures
        absent(entries, acpi2_guid()) && absent(entries, smbios3_guid()) ==> !platform_supported(
            entries,
        ),
        absent(entries, smbios3_guid()) && root_pointer(entries, acpi2_guid()) != 0
            ==> platform_supported(entries) && description_of(entries, framebuffer).smbios_root
            == 0 && description_of(entries, framebuffer).acpi_root != 0,
        absent(entries, acpi2_guid()) && root_pointer(entries, smbios3_guid()) != 0
            ==> platform_supported(entries) && description_of(entries, framebuffer).acpi_root == 0
            && description_of(entries, framebuffer).smbios_root != 0,
{
    if absent(entries, acpi2_guid()) {
        lemma_absent_is_zero(entries, acpi2_guid());
    }
    if absent(entries, smbios3_guid()) {
        lemma_absent_is_zero(entries, smbios3_guid());
    }
}

} // verus!
