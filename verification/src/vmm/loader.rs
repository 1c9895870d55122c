//! The Linux x86 boot protocol: bzImage parsing, the zero page and the initial vCPU state.
//!
//! Guest-physical layout used here (Linux `Documentation/x86/boot.rst`):
//!
//! ```text
//! 0x0000_5000  GDT
//! 0x0000_7000  boot_params (zero page, 4 KiB)
//! 0x0002_0000  kernel command line
//! 0x0009_0000  bzImage setup sectors
//! 0x0010_0000  protected-mode kernel (1 MiB)
//! 0x0400_0000  initrd (64 MiB)
//! ```
//!
//! Zero page layout (`arch/x86/include/uapi/asm/bootparam.h`): `e820_entries` at 0x1E8,
//! the setup header at 0x1F1, `edd_mbr_sig_buffer` at 0x290, the E820 table at 0x2D0
//! (128 entries of 20 bytes) and `eddbuf` at 0xD00.
use vstd::prelude::*;

use crate::bytes::{
    le16, le32, le64, push_slice, push_u16_le, push_u32_le, push_u64_le, push_u8, push_zeros,
    read_u16_le, read_u32_le, read_u64_le, u16_le_bytes, u32_le_bytes, u64_le_bytes, u8_bytes,
    zeros,
};
use vstd::string::StringSliceAdditionalSpecFns;

use crate::error::Error;
use crate::text::{hex_string, to_hex_string};
use crate::vmm::memory::{out_of_range_message, spec_fits_in, spec_splice, GuestRam};

verus! {

/// Guest-physical address of the zero page.
pub const BOOT_PARAMS_ADDR: u64 = 0x0000_7000;
/// Guest-physical address of the kernel command line.
pub const CMDLINE_ADDR: u64 = 0x0002_0000;
/// Guest-physical address of the bzImage setup sectors.
pub const SETUP_ADDR: u64 = 0x0009_0000;
/// Guest-physical address of the protected-mode kernel (1 MiB).
pub const KERNEL_ADDR: u64 = 0x0010_0000;
/// The initrd's load address (64 MiB, clear of the kernel).
pub const INITRD_ADDR_HINT: u64 = 0x0400_0000;
/// `setup_header.boot_flag` of a valid image.
pub const BOOT_FLAG: u16 = 0xAA55;
/// `setup_header.header` of a valid image: `"HdrS"`.
pub const HDR_MAGIC: u32 = 0x5372_6448;
/// Offset of the setup header in a bzImage and in the zero page.
pub const SETUP_HEADER_OFFSET: usize = 0x1F1;
/// A bzImage shorter than this is rejected.
pub const BZIMAGE_MIN_LEN: usize = 0x300;
/// Size of the zero page.
pub const ZERO_PAGE_SIZE: usize = 0x1000;
/// Capacity of the zero page's E820 table.
pub const E820_MAX_ENTRIES: usize = 128;
/// Size of one encoded E820 entry.
pub const E820_ENTRY_SIZE: usize = 20;

/// The Linux x86 `setup_header` (found at byte 0x1F1 of a bzImage and of the zero page).
#[derive(Debug, Clone, Copy, PartialEq, Eq, Structural)]
pub struct SetupHeader {
    /// Header byte 0x1F1.
    pub setup_sects: u8,
    /// Header byte 0x1F2.
    pub root_flags: u16,
    /// Header byte 0x1F4.
    pub syssize: u32,
    /// Header byte 0x1F8.
    pub ram_size: u16,
    /// Header byte 0x1FA.
    pub vid_mode: u16,
    /// Header byte 0x1FC.
    pub root_dev: u16,
    /// Header byte 0x1FE.
    pub boot_flag: u16,
    /// Header byte 0x200.
    pub jump: u16,
    /// Header byte 0x202.
    pub header: u32,
    /// Header byte 0x206.
    pub version: u16,
    /// Header byte 0x208.
    pub realmode_swtch: u32,
    /// Header byte 0x20C.
    pub start_sys_seg: u16,
    /// Header byte 0x20E.
    pub kernel_version: u16,
    /// Header byte 0x210.
    pub type_of_loader: u8,
    /// Header byte 0x211.
    pub loadflags: u8,
    /// Header byte 0x212.
    pub setup_move_size: u16,
    /// Header byte 0x214.
    pub code32_start: u32,
    /// Header byte 0x218.
    pub ramdisk_image: u32,
    /// Header byte 0x21C.
    pub ramdisk_size: u32,
    /// Header byte 0x220.
    pub bootsect_kludge: u32,
    /// Header byte 0x224.
    pub heap_end_ptr: u16,
    /// Header byte 0x226.
    pub ext_loader_ver: u8,
    /// Header byte 0x227.
    pub ext_loader_type: u8,
    /// Header byte 0x228.
    pub cmd_line_ptr: u32,
    /// Header byte 0x22C.
    pub initrd_addr_max: u32,
    /// Header byte 0x230.
    pub kernel_alignment: u32,
    /// Header byte 0x234.
    pub relocatable_kernel: u8,
    /// Header byte 0x235.
    pub min_alignment: u8,
    /// Header byte 0x236.
    pub xloadflags: u16,
    /// Header byte 0x238.
    pub cmdline_size: u32,
    /// Header byte 0x23C.
    pub hardware_subarch: u32,
    /// Header byte 0x240.
    pub hardware_subarch_data: u64,
    /// Header byte 0x248.
    pub payload_offset: u32,
    /// Header byte 0x24C.
    pub payload_length: u32,
    /// Header byte 0x250.
    pub setup_data: u64,
    /// Header byte 0x258.
    pub pref_address: u64,
    /// Header byte 0x260.
    pub init_size: u32,
    /// Header byte 0x264.
    pub handover_offset: u32,
}

/// Size of the setup header in bytes.
pub const SETUP_HEADER_SIZE: usize = 0x77;

/// The setup header encoded in `s` starting at `base`.
pub open spec fn spec_parse_setup_header(s: Seq<u8>, base: int) -> SetupHeader {
    SetupHeader {
        setup_sects: s[base + 0],
        root_flags: le16(s, base + 1) as u16,
        syssize: le32(s, base + 3) as u32,
        ram_size: le16(s, base + 7) as u16,
        vid_mode: le16(s, base + 9) as u16,
        root_dev: le16(s, base + 11) as u16,
        boot_flag: le16(s, base + 13) as u16,
        jump: le16(s, base + 15) as u16,
        header: le32(s, base + 17) as u32,
        version: le16(s, base + 21) as u16,
        realmode_swtch: le32(s, base + 23) as u32,
        start_sys_seg: le16(s, base + 27) as u16,
        kernel_version: le16(s, base + 29) as u16,
        type_of_loader: s[base + 31],
        loadflags: s[base + 32],
        setup_move_size: le16(s, base + 33) as u16,
        code32_start: le32(s, base + 35) as u32,
        ramdisk_image: le32(s, base + 39) as u32,
        ramdisk_size: le32(s, base + 43) as u32,
        bootsect_kludge: le32(s, base + 47) as u32,
        heap_end_ptr: le16(s, base + 51) as u16,
        ext_loader_ver: s[base + 53],
        ext_loader_type: s[base + 54],
        cmd_line_ptr: le32(s, base + 55) as u32,
        initrd_addr_max: le32(s, base + 59) as u32,
        kernel_alignment: le32(s, base + 63) as u32,
        relocatable_kernel: s[base + 67],
        min_alignment: s[base + 68],
        xloadflags: le16(s, base + 69) as u16,
        cmdline_size: le32(s, base + 71) as u32,
        hardware_subarch: le32(s, base + 75) as u32,
        hardware_subarch_data: le64(s, base + 79) as u64,
        payload_offset: le32(s, base + 87) as u32,
        payload_length: le32(s, base + 91) as u32,
        setup_data: le64(s, base + 95) as u64,
        pref_address: le64(s, base + 103) as u64,
        init_size: le32(s, base + 111) as u32,
        handover_offset: le32(s, base + 115) as u32,
    }
}

/// The byte encoding of a setup header.
#[verifier::opaque]
pub open spec fn spec_setup_header_bytes(h: SetupHeader) -> Seq<u8> {
    Seq::<u8>::empty() + u8_bytes(h.setup_sects)
        + u16_le_bytes(h.root_flags)
        + u32_le_bytes(h.syssize)
        + u16_le_bytes(h.ram_size)
        + u16_le_bytes(h.vid_mode)
        + u16_le_bytes(h.root_dev)
        + u16_le_bytes(h.boot_flag)
        + u16_le_bytes(h.jump)
        + u32_le_bytes(h.header)
        + u16_le_bytes(h.version)
        + u32_le_bytes(h.realmode_swtch)
        + u16_le_bytes(h.start_sys_seg)
        + u16_le_bytes(h.kernel_version)
        + u8_bytes(h.type_of_loader)
        + u8_bytes(h.loadflags)
        + u16_le_bytes(h.setup_move_size)
        + u32_le_bytes(h.code32_start)
        + u32_le_bytes(h.ramdisk_image)
        + u32_le_bytes(h.ramdisk_size)
        + u32_le_bytes(h.bootsect_kludge)
        + u16_le_bytes(h.heap_end_ptr)
        + u8_bytes(h.ext_loader_ver)
        + u8_bytes(h.ext_loader_type)
        + u32_le_bytes(h.cmd_line_ptr)
        + u32_le_bytes(h.initrd_addr_max)
        + u32_le_bytes(h.kernel_alignment)
        + u8_bytes(h.relocatable_kernel)
        + u8_bytes(h.min_alignment)
        + u16_le_bytes(h.xloadflags)
        + u32_le_bytes(h.cmdline_size)
        + u32_le_bytes(h.hardware_subarch)
        + u64_le_bytes(h.hardware_subarch_data)
        + u32_le_bytes(h.payload_offset)
        + u32_le_bytes(h.payload_length)
        + u64_le_bytes(h.setup_data)
        + u64_le_bytes(h.pref_address)
        + u32_le_bytes(h.init_size)
        + u32_le_bytes(h.handover_offset)
}

impl SetupHeader {
    /// Decodes the header stored in `b` from byte `base` on.
    pub fn parse(b: &[u8], base: usize) -> (h: SetupHeader)
        requires
            base + SETUP_HEADER_SIZE <= b.len(),
        ensures
            h == spec_parse_setup_header(b@, base as int),
    {
        SetupHeader {
            setup_sects: b[base + 0],
            root_flags: read_u16_le(b, base + 1),
            syssize: read_u32_le(b, base + 3),
            ram_size: read_u16_le(b, base + 7),
            vid_mode: read_u16_le(b, base + 9),
            root_dev: read_u16_le(b, base + 11),
            boot_flag: read_u16_le(b, base + 13),
            jump: read_u16_le(b, base + 15),
            header: read_u32_le(b, base + 17),
            version: read_u16_le(b, base + 21),
            realmode_swtch: read_u32_le(b, base + 23),
            start_sys_seg: read_u16_le(b, base + 27),
            kernel_version: read_u16_le(b, base + 29),
            type_of_loader: b[base + 31],
            loadflags: b[base + 32],
            setup_move_size: read_u16_le(b, base + 33),
            code32_start: read_u32_le(b, base + 35),
            ramdisk_image: read_u32_le(b, base + 39),
            ramdisk_size: read_u32_le(b, base + 43),
            bootsect_kludge: read_u32_le(b, base + 47),
            heap_end_ptr: read_u16_le(b, base + 51),
            ext_loader_ver: b[base + 53],
            ext_loader_type: b[base + 54],
            cmd_line_ptr: read_u32_le(b, base + 55),
            initrd_addr_max: read_u32_le(b, base + 59),
            kernel_alignment: read_u32_le(b, base + 63),
            relocatable_kernel: b[base + 67],
            min_alignment: b[base + 68],
            xloadflags: read_u16_le(b, base + 69),
            cmdline_size: read_u32_le(b, base + 71),
            hardware_subarch: read_u32_le(b, base + 75),
            hardware_subarch_data: read_u64_le(b, base + 79),
            payload_offset: read_u32_le(b, base + 87),
            payload_length: read_u32_le(b, base + 91),
            setup_data: read_u64_le(b, base + 95),
            pref_address: read_u64_le(b, base + 103),
            init_size: read_u32_le(b, base + 111),
            handover_offset: read_u32_le(b, base + 115),
        }
    }

    /// The encoding of the header.
    pub fn to_bytes(&self) -> (v: Vec<u8>)
        ensures
            v@ == spec_setup_header_bytes(*self),
    {
        reveal(spec_setup_header_bytes);
        let mut v: Vec<u8> = Vec::new();
        push_u8(&mut v, self.setup_sects);
        push_u16_le(&mut v, self.root_flags);
        push_u32_le(&mut v, self.syssize);
        push_u16_le(&mut v, self.ram_size);
        push_u16_le(&mut v, self.vid_mode);
        push_u16_le(&mut v, self.root_dev);
        push_u16_le(&mut v, self.boot_flag);
        push_u16_le(&mut v, self.jump);
        push_u32_le(&mut v, self.header);
        push_u16_le(&mut v, self.version);
        push_u32_le(&mut v, self.realmode_swtch);
        push_u16_le(&mut v, self.start_sys_seg);
        push_u16_le(&mut v, self.kernel_version);
        push_u8(&mut v, self.type_of_loader);
        push_u8(&mut v, self.loadflags);
        push_u16_le(&mut v, self.setup_move_size);
        push_u32_le(&mut v, self.code32_start);
        push_u32_le(&mut v, self.ramdisk_image);
        push_u32_le(&mut v, self.ramdisk_size);
        push_u32_le(&mut v, self.bootsect_kludge);
        push_u16_le(&mut v, self.heap_end_ptr);
        push_u8(&mut v, self.ext_loader_ver);
        push_u8(&mut v, self.ext_loader_type);
        push_u32_le(&mut v, self.cmd_line_ptr);
        push_u32_le(&mut v, self.initrd_addr_max);
        push_u32_le(&mut v, self.kernel_alignment);
        push_u8(&mut v, self.relocatable_kernel);
        push_u8(&mut v, self.min_alignment);
        push_u16_le(&mut v, self.xloadflags);
        push_u32_le(&mut v, self.cmdline_size);
        push_u32_le(&mut v, self.hardware_subarch);
        push_u64_le(&mut v, self.hardware_subarch_data);
        push_u32_le(&mut v, self.payload_offset);
        push_u32_le(&mut v, self.payload_length);
        push_u64_le(&mut v, self.setup_data);
        push_u64_le(&mut v, self.pref_address);
        push_u32_le(&mut v, self.init_size);
        push_u32_le(&mut v, self.handover_offset);
        v
    }
}

/// Kinds of E820 memory ranges.
#[derive(Debug, Clone, Copy, PartialEq, Eq, Structural)]
pub enum E820Type {
    /// Usable RAM (1).
    Ram,
    /// Reserved (2).
    Reserved,
    /// ACPI tables (3).
    Acpi,
}

impl E820Type {
    /// The numeric type stored in an E820 entry.
    pub open spec fn spec_code(self) -> u32 {
        match self {
            E820Type::Ram => 1,
            E820Type::Reserved => 2,
            E820Type::Acpi => 3,
        }
    }

    /// The numeric type stored in an E820 entry.
    pub fn code(&self) -> (c: u32)
        ensures
            c == self.spec_code(),
    {
        match self {
            E820Type::Ram => 1,
            E820Type::Reserved => 2,
            E820Type::Acpi => 3,
        }
    }
}

/// One E820 memory range (20 bytes in the zero page).
#[derive(Debug, Clone, Copy, PartialEq, Eq, Structural)]
pub struct E820Entry {
    /// Start address.
    pub addr: u64,
    /// Length in bytes.
    pub size: u64,
    /// `E820Type` code.
    pub e820type: u32,
}

/// The encoding of one E820 entry.
pub open spec fn spec_e820_entry_bytes(e: E820Entry) -> Seq<u8> {
    u64_le_bytes(e.addr) + u64_le_bytes(e.size) + u32_le_bytes(e.e820type)
}

/// The encodings of `t`'s entries, one after the other.
pub open spec fn spec_e820_entries_bytes(t: Seq<E820Entry>) -> Seq<u8>
    decreases t.len(),
{
    if t.len() == 0 {
        Seq::empty()
    } else {
        spec_e820_entries_bytes(t.drop_last()) + spec_e820_entry_bytes(t.last())
    }
}

/// The zero page's E820 table area: the entries, then zeros up to 128 entries.
pub open spec fn spec_e820_table_area(t: Seq<E820Entry>) -> Seq<u8> {
    spec_e820_entries_bytes(t) + zeros(((E820_MAX_ENTRIES - t.len()) * E820_ENTRY_SIZE) as nat)
}

proof fn lemma_e820_entries_len(t: Seq<E820Entry>)
    ensures
        spec_e820_entries_bytes(t).len() == t.len() * 20,
    decreases t.len(),
{
    if t.len() > 0 {
        lemma_e820_entries_len(t.drop_last());
    }
}

fn e820_table_area(t: &Vec<E820Entry>) -> (v: Vec<u8>)
    requires
        t@.len() <= E820_MAX_ENTRIES,
    ensures
        v@ == spec_e820_table_area(t@),
{
    let mut v: Vec<u8> = Vec::new();
    let mut i: usize = 0;
    while i < t.len()
        invariant
            i <= t@.len(),
            v@ == spec_e820_entries_bytes(t@.take(i as int)),
        decreases t@.len() - i,
    {
        let e = t[i];
        let ghost before = v@;
        push_u64_le(&mut v, e.addr);
        push_u64_le(&mut v, e.size);
        push_u32_le(&mut v, e.e820type);
        proof {
            assert(t@.take(i + 1).drop_last() =~= t@.take(i as int));
            assert(v@ =~= before + spec_e820_entry_bytes(e));
        }
        i = i + 1;
    }
    assert(t@.take(t@.len() as int) =~= t@);
    push_zeros(&mut v, (E820_MAX_ENTRIES - t.len()) * E820_ENTRY_SIZE);
    v
}

/// The Linux zero page (`struct boot_params`), with the fields a VMM fills in.
pub struct BootParams {
    /// `screen_info` (0x000).
    pub screen_info: [u8; 0x40],
    /// `apm_bios_info` (0x040).
    pub apm_bios_info: [u8; 0x14],
    /// `tboot_addr` (0x058).
    pub tboot_addr: u64,
    /// `ist_info` (0x060).
    pub ist_info: [u8; 0x10],
    /// `acpi_rsdp_addr` (0x070).
    pub acpi_rsdp_addr: u64,
    /// `hd0_info` (0x080).
    pub hd0_info: [u8; 0x10],
    /// `hd1_info` (0x090).
    pub hd1_info: [u8; 0x10],
    /// `sys_desc_table` (0x0A0).
    pub sys_desc_table: [u8; 0x10],
    /// `olpc_ofw_header` (0x0B0).
    pub olpc_ofw_header: [u8; 0x10],
    /// `ext_ramdisk_image` (0x0C0).
    pub ext_ramdisk_image: u32,
    /// `ext_ramdisk_size` (0x0C4).
    pub ext_ramdisk_size: u32,
    /// `ext_cmd_line_ptr` (0x0C8).
    pub ext_cmd_line_ptr: u32,
    /// `e820_entries` (0x1E8).
    pub e820_table_count: u8,
    /// `eddbuf_entries` (0x1E9).
    pub eddbuf_entries: u8,
    /// `edd_mbr_sig_buf_entries` (0x1EA).
    pub edd_mbr_sig_buf_entries: u8,
    /// `kbd_status` (0x1EB).
    pub kbd_status: u8,
    /// `secure_boot` (0x1EC).
    pub secure_boot: u8,
    /// `sentinel` (0x1EF).
    pub sentinel: u8,
    /// The setup header (0x1F1).
    pub hdr: SetupHeader,
    /// `edd_mbr_sig_buffer` (0x290).
    pub edd_mbr_sig_buffer: [u8; 0x40],
    /// The E820 table (0x2D0), at most 128 entries.
    pub e820_table: Vec<E820Entry>,
    /// `eddbuf` (0xD00).
    pub eddbuf: [u8; 0x1EC],
}

/// The 4096-byte image of a zero page.
#[verifier::opaque]
pub open spec fn spec_zero_page(bp: BootParams) -> Seq<u8> {
    Seq::<u8>::empty() + bp.screen_info@ + bp.apm_bios_info@ + zeros(4) + u64_le_bytes(bp.tboot_addr)
        + bp.ist_info@ + u64_le_bytes(bp.acpi_rsdp_addr) + zeros(8) + bp.hd0_info@ + bp.hd1_info@
        + bp.sys_desc_table@ + bp.olpc_ofw_header@ + u32_le_bytes(bp.ext_ramdisk_image)
        + u32_le_bytes(bp.ext_ramdisk_size) + u32_le_bytes(bp.ext_cmd_line_ptr) + zeros(0x11C)
        + u8_bytes(bp.e820_table_count) + u8_bytes(bp.eddbuf_entries) + u8_bytes(bp.edd_mbr_sig_buf_entries)
        + u8_bytes(bp.kbd_status) + u8_bytes(bp.secure_boot) + zeros(2) + u8_bytes(bp.sentinel) + zeros(1)
        + spec_setup_header_bytes(bp.hdr) + zeros(0x28) + bp.edd_mbr_sig_buffer@
        + spec_e820_table_area(bp.e820_table@) + zeros(0x30) + bp.eddbuf@ + zeros(0x114)
}

/// A setup header with every field zero.
pub open spec fn spec_zero_header() -> SetupHeader {
    spec_parse_setup_header(zeros(SETUP_HEADER_SIZE as nat), 0)
}

impl SetupHeader {
    /// A header with every field zero.
    pub fn zeroed() -> (h: SetupHeader)
        ensures
            h == spec_zero_header(),
    {
        let z: Vec<u8> = vec![0u8; SETUP_HEADER_SIZE];
        assert(z@ =~= zeros(SETUP_HEADER_SIZE as nat));
        SetupHeader::parse(z.as_slice(), 0)
    }
}

impl BootParams {
    /// Whether every field other than the header and the E820 table (and its count) is zero.
    pub open spec fn spec_rest_zero(&self) -> bool {
        &&& self.screen_info@ == zeros(0x40)
        &&& self.apm_bios_info@ == zeros(0x14)
        &&& self.tboot_addr == 0
        &&& self.ist_info@ == zeros(0x10)
        &&& self.acpi_rsdp_addr == 0
        &&& self.hd0_info@ == zeros(0x10)
        &&& self.hd1_info@ == zeros(0x10)
        &&& self.sys_desc_table@ == zeros(0x10)
        &&& self.olpc_ofw_header@ == zeros(0x10)
        &&& self.ext_ramdisk_image == 0
        &&& self.ext_ramdisk_size == 0
        &&& self.ext_cmd_line_ptr == 0
        &&& self.eddbuf_entries == 0
        &&& self.edd_mbr_sig_buf_entries == 0
        &&& self.kbd_status == 0
        &&& self.secure_boot == 0
        &&& self.sentinel == 0
        &&& self.edd_mbr_sig_buffer@ == zeros(0x40)
        &&& self.eddbuf@ == zeros(0x1EC)
    }

    /// An all-zero zero page.
    pub fn zeroed() -> (bp: BootParams)
        ensures
            bp.spec_rest_zero(),
            bp.hdr == spec_zero_header(),
            bp.e820_table_count == 0,
            bp.e820_table@.len() == 0,
    {
        let bp = BootParams {
            screen_info: [0u8; 0x40],
            apm_bios_info: [0u8; 0x14],
            tboot_addr: 0,
            ist_info: [0u8; 0x10],
            acpi_rsdp_addr: 0,
            hd0_info: [0u8; 0x10],
            hd1_info: [0u8; 0x10],
            sys_desc_table: [0u8; 0x10],
            olpc_ofw_header: [0u8; 0x10],
            ext_ramdisk_image: 0,
            ext_ramdisk_size: 0,
            ext_cmd_line_ptr: 0,
            e820_table_count: 0,
            eddbuf_entries: 0,
            edd_mbr_sig_buf_entries: 0,
            kbd_status: 0,
            secure_boot: 0,
            sentinel: 0,
            hdr: SetupHeader::zeroed(),
            edd_mbr_sig_buffer: [0u8; 0x40],
            e820_table: Vec::new(),
            eddbuf: [0u8; 0x1EC],
        };
        assert(bp.screen_info@ =~= zeros(0x40));
        assert(bp.apm_bios_info@ =~= zeros(0x14));
        assert(bp.ist_info@ =~= zeros(0x10));
        assert(bp.hd0_info@ =~= zeros(0x10));
        assert(bp.hd1_info@ =~= zeros(0x10));
        assert(bp.sys_desc_table@ =~= zeros(0x10));
        assert(bp.olpc_ofw_header@ =~= zeros(0x10));
        assert(bp.edd_mbr_sig_buffer@ =~= zeros(0x40));
        assert(bp.eddbuf@ =~= zeros(0x1EC));
        bp
    }

    /// The 4096-byte image of the zero page.
    pub fn to_bytes(&self) -> (v: Vec<u8>)
        requires
            self.e820_table@.len() <= E820_MAX_ENTRIES,
        ensures
            v@ == spec_zero_page(*self),
    {
        reveal(spec_zero_page);
        let mut v: Vec<u8> = Vec::new();
        push_slice(&mut v, &self.screen_info);
        push_slice(&mut v, &self.apm_bios_info);
        push_zeros(&mut v, 4);
        push_u64_le(&mut v, self.tboot_addr);
        push_slice(&mut v, &self.ist_info);
        push_u64_le(&mut v, self.acpi_rsdp_addr);
        push_zeros(&mut v, 8);
        push_slice(&mut v, &self.hd0_info);
        push_slice(&mut v, &self.hd1_info);
        push_slice(&mut v, &self.sys_desc_table);
        push_slice(&mut v, &self.olpc_ofw_header);
        push_u32_le(&mut v, self.ext_ramdisk_image);
        push_u32_le(&mut v, self.ext_ramdisk_size);
        push_u32_le(&mut v, self.ext_cmd_line_ptr);
        push_zeros(&mut v, 0x11C);
        push_u8(&mut v, self.e820_table_count);
        push_u8(&mut v, self.eddbuf_entries);
        push_u8(&mut v, self.edd_mbr_sig_buf_entries);
        push_u8(&mut v, self.kbd_status);
        push_u8(&mut v, self.secure_boot);
        push_zeros(&mut v, 2);
        push_u8(&mut v, self.sentinel);
        push_zeros(&mut v, 1);
        let h = self.hdr.to_bytes();
        push_slice(&mut v, h.as_slice());
        push_zeros(&mut v, 0x28);
        push_slice(&mut v, &self.edd_mbr_sig_buffer);
        let t = e820_table_area(&self.e820_table);
        push_slice(&mut v, t.as_slice());
        push_zeros(&mut v, 0x30);
        push_slice(&mut v, &self.eddbuf);
        push_zeros(&mut v, 0x114);
        v
    }
}


/// `x` rounded up to a multiple of `a` (`a > 0`).
pub open spec fn spec_align_up(x: int, a: int) -> int {
    ((x + a - 1) / a) * a
}

/// Whether `a` is a power of two below 2^64.
pub open spec fn is_pow2_u64(a: u64) -> bool {
    exists|n: nat| n < 64 && a == vstd::arithmetic::power2::pow2(n)
}

/// Rounds `addr` up with the mask `!(align - 1)`; for a power-of-two `align` that is the
/// least multiple of `align` not below `addr`.
pub fn align_up(addr: u64, align: u64) -> (r: u64)
    requires
        align >= 1,
        addr + align - 1 <= u64::MAX,
    ensures
        r == (addr + (align - 1)) as u64 & !((align - 1) as u64),
        is_pow2_u64(align) ==> r == spec_align_up(addr as int, align as int),
        is_pow2_u64(align) ==> r % align == 0 && addr <= r < addr + align,
{
    let r = (addr + (align - 1)) & !(align - 1);
    proof {
        if is_pow2_u64(align) {
            let n = choose|n: nat| n < 64 && align == vstd::arithmetic::power2::pow2(n);
            let y = (addr + (align - 1)) as u64;
            let m = (align - 1) as u64;
            vstd::bits::lemma_u64_low_bits_mask_is_mod(y, n);
            assert(vstd::bits::low_bits_mask(n) == align - 1);
            assert(y & m == y % align);
            assert(y & !m == y - (y & m)) by (bit_vector);
            assert(r == y & !m);
            assert(r == y - y % align);
            vstd::arithmetic::div_mod::lemma_fundamental_div_mod(y as int, align as int);
            vstd::arithmetic::mul::lemma_mul_is_commutative(align as int, (y / align) as int);
            vstd::arithmetic::div_mod::lemma_mod_bound(y as int, align as int);
            vstd::arithmetic::div_mod::lemma_mod_multiples_basic((y / align) as int, align as int);
            assert(r == (y / align) * align);
        }
    }
    r
}


/// The header a loader hands the kernel: the image's header with `type_of_loader` 0xFF
/// (undefined loader), `LOADED_HIGH` (0x01) and `CAN_USE_HEAP` (0x80) set in `loadflags`,
/// the command line at `CMDLINE_ADDR`, the heap end at 0xFE00 and, when an initrd was
/// loaded at `addr` with `size` bytes, `ramdisk_image` = low 32 bits of `addr` and
/// `ramdisk_size` = `size`.
pub open spec fn spec_loader_header(hdr: SetupHeader, initrd_addr: Option<u64>, initrd_size: u32) -> SetupHeader {
    let h = SetupHeader {
        type_of_loader: 0xFF,
        loadflags: hdr.loadflags | 0x01 | 0x80,
        cmd_line_ptr: CMDLINE_ADDR as u32,
        heap_end_ptr: 0xFE00,
        ..hdr
    };
    match initrd_addr {
        Some(addr) => SetupHeader { ramdisk_image: (addr % 0x1_0000_0000) as u32, ramdisk_size: initrd_size, ..h },
        None => h,
    }
}

/// Base of the RAM above 1 MiB.
pub const MAIN_RAM_BASE: u64 = 0x0010_0000;

/// The E820 map of a guest with `ram_size_mb` MiB: low RAM below 0x9F000, the ISA hole
/// 0xA0000..0x100000, and the RAM from 1 MiB to the top when there is any.
pub open spec fn spec_e820_map(ram_size_mb: u32) -> Seq<E820Entry> {
    let low = seq![
        E820Entry { addr: 0, size: 0x0009_F000, e820type: 1 },
        E820Entry { addr: 0x000A_0000, size: 0x0006_0000, e820type: 2 },
    ];
    let bytes = ram_size_mb * 0x10_0000;
    if bytes > MAIN_RAM_BASE {
        low.push(E820Entry { addr: MAIN_RAM_BASE, size: (bytes - MAIN_RAM_BASE) as u64, e820type: 1 })
    } else {
        low
    }
}

/// Builds the zero page for a kernel with header `hdr`, `ram_size_mb` MiB of RAM and an
/// optional initrd: every field zero except the loader header and the E820 map.
pub fn build_boot_params(
    hdr: &SetupHeader,
    ram_size_mb: u32,
    initrd_addr: Option<u64>,
    initrd_size: u32,
) -> (bp: BootParams)
    ensures
        bp.hdr == spec_loader_header(*hdr, initrd_addr, initrd_size),
        bp.e820_table@ == spec_e820_map(ram_size_mb),
        bp.e820_table_count == spec_e820_map(ram_size_mb).len(),
        bp.spec_rest_zero(),
{
    let ram_size_bytes: u64 = ram_size_mb as u64 * 1024 * 1024;
    let mut new_hdr = *hdr;
    new_hdr.type_of_loader = 0xFF;
    new_hdr.loadflags = new_hdr.loadflags | 0x01;
    new_hdr.cmd_line_ptr = CMDLINE_ADDR as u32;
    new_hdr.heap_end_ptr = 0xFE00;
    new_hdr.loadflags = new_hdr.loadflags | 0x80;
    if let Some(addr) = initrd_addr {
        new_hdr.ramdisk_image = (addr % 0x1_0000_0000) as u32;
        new_hdr.ramdisk_size = initrd_size;
    }
    let mut bp = BootParams::zeroed();
    bp.hdr = new_hdr;
    let mut e820_count: u8 = 0;
    bp.e820_table.push(E820Entry { addr: 0x0000_0000, size: 0x0009_F000, e820type: E820Type::Ram.code() });
    e820_count = e820_count + 1;
    bp.e820_table.push(E820Entry { addr: 0x000A_0000, size: 0x0006_0000, e820type: E820Type::Reserved.code() });
    e820_count = e820_count + 1;
    let main_ram_size: u64 = if ram_size_bytes > MAIN_RAM_BASE { ram_size_bytes - MAIN_RAM_BASE } else { 0 };
    if main_ram_size > 0 {
        bp.e820_table.push(E820Entry { addr: MAIN_RAM_BASE, size: main_ram_size, e820type: E820Type::Ram.code() });
        e820_count = e820_count + 1;
    }
    bp.e820_table_count = e820_count;
    assert(bp.e820_table@ =~= spec_e820_map(ram_size_mb));
    bp
}

/// The setup area size of an image whose `setup_sects` byte is `raw`
/// (0 means the historical default of 4 sectors), plus the boot sector.
pub open spec fn spec_setup_size(raw: u8) -> int {
    ((if raw == 0 { 4 } else { raw as int }) + 1) * 512
}

/// Why a bzImage is rejected, or that it is accepted.
#[derive(Debug, Clone, Copy, PartialEq, Eq, Structural)]
pub enum BzImageCheck {
    /// Shorter than 0x300 bytes.
    TooSmall,
    /// `boot_flag` is not 0xAA55; carries the value found.
    BadBootFlag(u16),
    /// `header` is not `"HdrS"`.
    NoMagic,
    /// Nothing follows the setup sectors.
    NoKernel,
    /// A well-formed image.
    Valid,
}

/// The verdict on the bytes of a candidate bzImage.
pub open spec fn spec_bzimage_check(b: Seq<u8>) -> BzImageCheck {
    if b.len() < BZIMAGE_MIN_LEN {
        BzImageCheck::TooSmall
    } else if le16(b, 0x1FE) != BOOT_FLAG {
        BzImageCheck::BadBootFlag(le16(b, 0x1FE) as u16)
    } else if le32(b, 0x202) != HDR_MAGIC {
        BzImageCheck::NoMagic
    } else if b.len() <= spec_setup_size(b[0x1F1]) {
        BzImageCheck::NoKernel
    } else {
        BzImageCheck::Valid
    }
}

/// The message of each rejection.
pub open spec fn spec_bzimage_error(c: BzImageCheck) -> Seq<char> {
    match c {
        BzImageCheck::TooSmall => "bzImage too small"@,
        BzImageCheck::BadBootFlag(f) => "invalid boot_flag: "@ + hex_string(f as nat) + " (expected "@
            + hex_string(BOOT_FLAG as nat) + ")"@,
        BzImageCheck::NoMagic => "not a bzImage (missing HdrS magic)"@,
        BzImageCheck::NoKernel => "bzImage: no kernel data after setup"@,
        BzImageCheck::Valid => Seq::empty(),
    }
}

/// A parsed bzImage.
pub struct BzImageInfo {
    /// The setup header (from byte 0x1F1).
    pub hdr: SetupHeader,
    /// Size of the boot sector plus setup sectors, in bytes.
    pub setup_size: usize,
    /// The protected-mode kernel: everything after the setup sectors.
    pub kernel_data: Vec<u8>,
}

/// Splits a bzImage into its setup header, setup area and protected-mode kernel.
///
/// An image is accepted when it is at least 0x300 bytes long, `boot_flag` is 0xAA55,
/// `header` is `"HdrS"` and some bytes follow the setup area.
pub fn parse_bzimage(bytes: &[u8]) -> (r: Result<BzImageInfo, Error>)
    ensures
        spec_bzimage_check(bytes@) == BzImageCheck::Valid <==> r is Ok,
        r matches Ok(info) ==> {
            &&& info.hdr == spec_parse_setup_header(bytes@, 0x1F1)
            &&& info.setup_size == spec_setup_size(bytes@[0x1F1])
            &&& info.kernel_data@ == bytes@.subrange(info.setup_size as int, bytes@.len() as int)
        },
        r matches Err(e) ==> e is Vmm && e.spec_message() == spec_bzimage_error(spec_bzimage_check(bytes@)),
{
    if bytes.len() < BZIMAGE_MIN_LEN {
        return Err(Error::Vmm(String::from_str("bzImage too small")));
    }
    let hdr = SetupHeader::parse(bytes, SETUP_HEADER_OFFSET);
    let boot_flag = read_u16_le(bytes, 0x1FE);
    let header = read_u32_le(bytes, 0x202);
    let setup_sects_raw: u8 = bytes[0x1F1];
    if boot_flag != BOOT_FLAG {
        let mut m = String::from_str("invalid boot_flag: ");
        m.append(to_hex_string(boot_flag as u64).as_str());
        m.append(" (expected ");
        m.append(to_hex_string(BOOT_FLAG as u64).as_str());
        m.append(")");
        return Err(Error::Vmm(m));
    }
    if header != HDR_MAGIC {
        return Err(Error::Vmm(String::from_str("not a bzImage (missing HdrS magic)")));
    }
    let setup_sects: usize = if setup_sects_raw == 0 { 4 } else { setup_sects_raw as usize };
    let setup_size = (setup_sects + 1) * 512;
    if bytes.len() <= setup_size {
        return Err(Error::Vmm(String::from_str("bzImage: no kernel data after setup")));
    }
    let mut kernel_data: Vec<u8> = Vec::new();
    push_slice(&mut kernel_data, &bytes[setup_size..bytes.len()]);
    assert(kernel_data@ =~= bytes@.subrange(setup_size as int, bytes@.len() as int));
    Ok(BzImageInfo { hdr, setup_size, kernel_data })
}

/// The initial vCPU registers for entering a 64-bit Linux kernel.
#[derive(Debug, Clone, Copy, PartialEq, Eq, Structural)]
pub struct InitialRegs {
    /// Kernel entry point.
    pub rip: u64,
    /// Initial stack: 64 KiB below the top of RAM.
    pub rsp: u64,
    /// Zero page address (the Linux boot convention).
    pub rsi: u64,
    /// RFLAGS (reserved bit 1 set).
    pub rflags: u64,
    /// CR0: PE and ET.
    pub cr0: u64,
    /// CR3: no page tables yet.
    pub cr3: u64,
    /// CR4: PAE.
    pub cr4: u64,
    /// EFER: LME.
    pub efer: u64,
}

/// The registers for entering a 64-bit Linux kernel at `kernel_entry` with the zero page
/// at `boot_params_gpa` and `ram_size_mb` MiB of RAM: the stack starts 64 KiB below the top
/// of RAM (0 when RAM is smaller), RFLAGS has only its reserved bit, CR0 = PE | ET,
/// CR4 = PAE, EFER = LME and no page table yet.
pub open spec fn spec_linux64_regs(kernel_entry: u64, boot_params_gpa: u64, ram_size_mb: u32) -> InitialRegs {
    let top = ram_size_mb * 0x10_0000;
    InitialRegs {
        rip: kernel_entry,
        rsi: boot_params_gpa,
        rsp: if top >= 0x1_0000 { (top - 0x1_0000) as u64 } else { 0 },
        rflags: 0x2,
        cr0: 0x11,
        cr3: 0,
        cr4: 0x20,
        efer: 0x100,
    }
}

impl InitialRegs {
    /// The registers for entering a 64-bit Linux kernel (see `spec_linux64_regs`).
    pub fn for_linux_64(kernel_entry: u64, boot_params_gpa: u64, ram_size_mb: u32) -> (r: Self)
        ensures
            r == spec_linux64_regs(kernel_entry, boot_params_gpa, ram_size_mb),
    {
        let ram_top: u64 = (ram_size_mb as u64) * 1024 * 1024;
        InitialRegs {
            rip: kernel_entry,
            rsi: boot_params_gpa,
            rsp: if ram_top >= 0x1_0000 { ram_top - 0x1_0000 } else { 0 },
            rflags: 0x0000_0002,
            cr0: 0x0000_0011,
            cr3: 0,
            cr4: 0x0000_0020,
            efer: 0x0000_0100,
        }
    }
}

/// Null descriptor.
pub const GDT_NULL: u64 = 0x0000_0000_0000_0000;
/// 64-bit code segment, DPL 0, present.
pub const GDT_CODE64: u64 = 0x00AF_9A00_0000_FFFF;
/// 64-bit data segment, DPL 0, present.
pub const GDT_DATA64: u64 = 0x00CF_9200_0000_FFFF;
/// Guest-physical address of the GDT.
pub const GDT_ADDR: u64 = 0x0000_5000;
/// Number of GDT entries.
pub const GDT_ENTRIES: usize = 3;

/// The GDT image: null, code and data descriptors, little-endian.
pub open spec fn spec_gdt_bytes() -> Seq<u8> {
    Seq::<u8>::empty() + u64_le_bytes(GDT_NULL) + u64_le_bytes(GDT_CODE64) + u64_le_bytes(GDT_DATA64)
}

/// Writes the flat 64-bit GDT at `GDT_ADDR` and returns its base and limit (23).
pub fn write_gdt(ram: &mut GuestRam) -> (r: Result<(u64, u16), Error>)
    ensures
        final(ram).spec_base() == old(ram).spec_base(),
        final(ram).spec_size() == old(ram).spec_size(),
        r is Ok <==> old(ram).spec_fits(GDT_ADDR, 24),
        r matches Ok(p) ==> p == (GDT_ADDR, 23u16) && final(ram).spec_mem() == spec_splice(
            old(ram).spec_mem(), GDT_ADDR - old(ram).spec_base(), spec_gdt_bytes()),
        r matches Err(e) ==> e is Vmm && e.spec_message() == out_of_range_message(GDT_ADDR)
            && final(ram).spec_mem() == old(ram).spec_mem(),
{
    let mut gdt: Vec<u8> = Vec::new();
    push_u64_le(&mut gdt, GDT_NULL);
    push_u64_le(&mut gdt, GDT_CODE64);
    push_u64_le(&mut gdt, GDT_DATA64);
    ram.write(GDT_ADDR, gdt.as_slice())?;
    let limit = (GDT_ENTRIES * 8 - 1) as u16;
    Ok((GDT_ADDR, limit))
}


/// The zero page a loader writes: the header `hdr`, the E820 map `e820` with its count,
/// every other byte zero.
#[verifier::opaque]
pub open spec fn spec_loader_zero_page(hdr: SetupHeader, e820: Seq<E820Entry>) -> Seq<u8> {
    Seq::<u8>::empty() + zeros(0x40) + zeros(0x14) + zeros(4) + u64_le_bytes(0)
        + zeros(0x10) + u64_le_bytes(0) + zeros(8) + zeros(0x10) + zeros(0x10)
        + zeros(0x10) + zeros(0x10) + u32_le_bytes(0)
        + u32_le_bytes(0) + u32_le_bytes(0) + zeros(0x11C)
        + u8_bytes(e820.len() as u8) + u8_bytes(0) + u8_bytes(0)
        + u8_bytes(0) + u8_bytes(0) + zeros(2) + u8_bytes(0) + zeros(1)
        + spec_setup_header_bytes(hdr) + zeros(0x28) + zeros(0x40)
        + spec_e820_table_area(e820) + zeros(0x30) + zeros(0x1EC) + zeros(0x114)
}

proof fn lemma_loader_zero_page(bp: BootParams)
    requires
        bp.spec_rest_zero(),
        bp.e820_table_count == bp.e820_table@.len(),
    ensures
        spec_zero_page(bp) == spec_loader_zero_page(bp.hdr, bp.e820_table@),
{
    reveal(spec_zero_page);
    reveal(spec_loader_zero_page);
}

/// One write into guest memory.
pub struct RamWrite {
    /// Guest-physical destination.
    pub gpa: u64,
    /// Bytes written.
    pub data: Seq<u8>,
}

/// Applies `w` in order to `mem` (a region at `base`), stopping at the first write that does
/// not fit; returns the resulting bytes and the address of the write that did not fit.
pub open spec fn spec_apply_writes(base: u64, mem: Seq<u8>, w: Seq<RamWrite>) -> (Seq<u8>, Option<u64>)
    decreases w.len(),
{
    if w.len() == 0 {
        (mem, None)
    } else if spec_fits_in(base, mem.len() as int, w[0].gpa, w[0].data.len() as int) {
        spec_apply_writes(base, spec_splice(mem, w[0].gpa - base, w[0].data), w.drop_first())
    } else {
        (mem, Some(w[0].gpa))
    }
}

/// The initrd size recorded in the header: its length truncated to 32 bits.
pub open spec fn spec_initrd_size(initrd: Option<Seq<u8>>) -> u32 {
    match initrd {
        Some(d) => (d.len() % 0x1_0000_0000) as u32,
        None => 0,
    }
}

/// The initrd address recorded in the result, if there is an initrd: `INITRD_ADDR_HINT`.
pub open spec fn spec_initrd_place(kernel: Seq<u8>, initrd: Option<Seq<u8>>) -> Option<u64> {
    match initrd {
        Some(d) => Some(INITRD_ADDR_HINT),
        None => None,
    }
}

/// The writes that load a valid bzImage `kernel`, an optional initrd, the command line
/// `cmdline` (its UTF-8 bytes) and the zero page for `ram_size_mb` MiB, in order:
/// setup sectors, kernel, initrd, NUL-terminated command line, zero page.
#[verifier::opaque]
pub open spec fn spec_load_writes(kernel: Seq<u8>, initrd: Option<Seq<u8>>, cmdline: Seq<u8>, ram_size_mb: u32) -> Seq<RamWrite> {
    let ss = spec_setup_size(kernel[0x1F1]);
    let hdr = spec_parse_setup_header(kernel, 0x1F1);
    let place = spec_initrd_place(kernel, initrd);
    let zp = spec_loader_zero_page(
        spec_loader_header(hdr, place, spec_initrd_size(initrd)),
        spec_e820_map(ram_size_mb),
    );
    let head = seq![
        RamWrite { gpa: SETUP_ADDR, data: kernel.subrange(0, ss) },
        RamWrite { gpa: KERNEL_ADDR, data: kernel.subrange(ss, kernel.len() as int) },
    ];
    let mid = match initrd {
        Some(d) => seq![RamWrite { gpa: place.unwrap(), data: d }],
        None => Seq::empty(),
    };
    head + mid + seq![
        RamWrite { gpa: CMDLINE_ADDR, data: cmdline.push(0u8) },
        RamWrite { gpa: BOOT_PARAMS_ADDR, data: zp },
    ]
}

/// Where a loaded kernel and its data ended up.
#[derive(Debug, Clone, Copy, PartialEq, Eq, Structural)]
pub struct LoadResult {
    /// Protected-mode entry GPA.
    pub kernel_entry: u64,
    /// Zero page GPA.
    pub boot_params_addr: u64,
    /// Initrd GPA, if an initrd was loaded.
    pub initrd_addr: Option<u64>,
    /// Initrd size (truncated to 32 bits), 0 without initrd.
    pub initrd_size: u32,
}

/// The Linux bzImage + initrd loader.
pub struct KernelLoader;

fn apply_write(ram: &mut GuestRam, gpa: u64, data: &[u8], Ghost(rest): Ghost<Seq<RamWrite>>) -> (r: Result<(), Error>)
    requires
        rest.len() > 0,
        rest[0] == (RamWrite { gpa, data: data@ }),
    ensures
        final(ram).spec_base() == old(ram).spec_base(),
        final(ram).spec_size() == old(ram).spec_size(),
        r is Ok ==> spec_apply_writes(old(ram).spec_base(), old(ram).spec_mem(), rest)
            == spec_apply_writes(final(ram).spec_base(), final(ram).spec_mem(), rest.drop_first()),
        r matches Err(e) ==> spec_apply_writes(old(ram).spec_base(), old(ram).spec_mem(), rest)
            == (old(ram).spec_mem(), Some(gpa)) && final(ram).spec_mem() == old(ram).spec_mem()
            && e is Vmm && e.spec_message() == out_of_range_message(gpa),
{
    ram.write(gpa, data)
}

/// Whether the protected-mode kernel of `kernel` would run into an initrd placed at
/// `INITRD_ADDR_HINT` (only when there is an initrd).
pub open spec fn spec_kernel_overlaps_initrd(kernel: Seq<u8>, has_initrd: bool) -> bool {
    has_initrd && kernel.len() - spec_setup_size(kernel[0x1F1]) > INITRD_ADDR_HINT - KERNEL_ADDR
}

/// The refusal of a kernel that reaches the initrd's address.
pub open spec fn kernel_overlaps_initrd_message() -> Seq<char> {
    "kernel too large: it would overlap the initrd at 0x4000000"@
}

impl KernelLoader {
    /// Loads a bzImage (`kernel`), an optional initrd and the command line into `ram`, and
    /// writes the zero page for `ram_size_mb` MiB:
    ///
    /// 1. the image is split as `parse_bzimage` says (rejections leave `ram` untouched);
    ///    with an initrd, a kernel that would reach `INITRD_ADDR_HINT` is refused, also
    ///    before anything is written;
    /// 2. the writes of `spec_load_writes` are made in order, stopping at the first one that
    ///    does not fit in `ram`, which is reported as an out-of-range error;
    /// 3. on success the kernel entry is `KERNEL_ADDR`, the zero page is at
    ///    `BOOT_PARAMS_ADDR`, and the initrd (if any) is at `INITRD_ADDR_HINT`.
    #[verifier::rlimit(40)]
    pub fn load(
        ram: &mut GuestRam,
        kernel: &[u8],
        initrd: Option<&[u8]>,
        cmdline: &str,
        ram_size_mb: u32,
    ) -> (r: Result<LoadResult, Error>)
        requires
            kernel@.len() <= isize::MAX,
        ensures
            final(ram).spec_base() == old(ram).spec_base(),
            final(ram).spec_size() == old(ram).spec_size(),
            spec_bzimage_check(kernel@) != BzImageCheck::Valid ==> {
                &&& r matches Err(e) && e is Vmm && e.spec_message() == spec_bzimage_error(spec_bzimage_check(kernel@))
                &&& final(ram).spec_mem() == old(ram).spec_mem()
            },
            spec_bzimage_check(kernel@) == BzImageCheck::Valid && spec_kernel_overlaps_initrd(kernel@, initrd is Some) ==> {
                &&& r matches Err(e) && e is Vmm && e.spec_message() == kernel_overlaps_initrd_message()
                &&& final(ram).spec_mem() == old(ram).spec_mem()
            },
            spec_bzimage_check(kernel@) == BzImageCheck::Valid && !spec_kernel_overlaps_initrd(kernel@, initrd is Some) ==> {
                let initrd_v = match initrd { Some(d) => Some(d@), None => None };
                let applied = spec_apply_writes(
                    old(ram).spec_base(),
                    old(ram).spec_mem(),
                    spec_load_writes(kernel@, initrd_v, cmdline.spec_bytes(), ram_size_mb),
                );
                &&& final(ram).spec_mem() == applied.0
                &&& (r is Ok <==> applied.1 is None)
                &&& (r matches Err(e) ==> e is Vmm && e.spec_message() == out_of_range_message(applied.1.unwrap()))
                &&& (r matches Ok(res) ==> res == LoadResult {
                    kernel_entry: KERNEL_ADDR,
                    boot_params_addr: BOOT_PARAMS_ADDR,
                    initrd_addr: spec_initrd_place(kernel@, initrd_v),
                    initrd_size: spec_initrd_size(initrd_v),
                })
            },
    {
        let bzimg = parse_bzimage(kernel)?;
        if initrd.is_some() && bzimg.kernel_data.len() as u64 > INITRD_ADDR_HINT - KERNEL_ADDR {
            return Err(Error::Vmm(String::from_str("kernel too large: it would overlap the initrd at 0x4000000")));
        }
        reveal(spec_load_writes);
        let ghost initrd_v = match initrd { Some(d) => Some(d@), None => None };
        let ghost w = spec_load_writes(kernel@, initrd_v, cmdline.spec_bytes(), ram_size_mb);
        let ghost base = ram.spec_base();
        let ghost mem0 = ram.spec_mem();
        let ghost mut rest = w;

        // Setup sectors, then the protected-mode kernel.
        assert(kernel@.subrange(0, bzimg.setup_size as int) == kernel@.subrange(0, bzimg.setup_size as int));
        apply_write(ram, SETUP_ADDR, &kernel[0..bzimg.setup_size], Ghost(rest))?;
        proof { rest = rest.drop_first(); }
        apply_write(ram, KERNEL_ADDR, bzimg.kernel_data.as_slice(), Ghost(rest))?;
        proof { rest = rest.drop_first(); }

        // The initrd, at `INITRD_ADDR_HINT`.
        let mut initrd_addr: Option<u64> = None;
        let mut initrd_size: u32 = 0;
        if let Some(d) = initrd {
            let size = (d.len() as u64 % 0x1_0000_0000) as u32;
            let addr = INITRD_ADDR_HINT;
            apply_write(ram, addr, d, Ghost(rest))?;
            proof { rest = rest.drop_first(); }
            initrd_addr = Some(addr);
            initrd_size = size;
        }

        // The NUL-terminated command line.
        let mut cmdline_bytes: Vec<u8> = Vec::new();
        push_slice(&mut cmdline_bytes, cmdline.as_bytes());
        cmdline_bytes.push(0u8);
        apply_write(ram, CMDLINE_ADDR, cmdline_bytes.as_slice(), Ghost(rest))?;
        proof { rest = rest.drop_first(); }

        // The zero page.
        let bp = build_boot_params(&bzimg.hdr, ram_size_mb, initrd_addr, initrd_size);
        proof { lemma_loader_zero_page(bp); }
        let bp_bytes = bp.to_bytes();
        apply_write(ram, BOOT_PARAMS_ADDR, bp_bytes.as_slice(), Ghost(rest))?;
        proof { rest = rest.drop_first(); }

        Ok(LoadResult {
            kernel_entry: KERNEL_ADDR,
            boot_params_addr: BOOT_PARAMS_ADDR,
            initrd_addr,
            initrd_size,
        })
    }
}


/// Applying `w1 + w2` is applying `w1` and then, if every write of `w1` fit, `w2`.
pub proof fn lemma_apply_writes_concat(base: u64, mem: Seq<u8>, w1: Seq<RamWrite>, w2: Seq<RamWrite>)
    ensures
        spec_apply_writes(base, mem, w1 + w2) == ({
            let a = spec_apply_writes(base, mem, w1);
            if a.1 is None { spec_apply_writes(base, a.0, w2) } else { a }
        }),
    decreases w1.len(),
{
    if w1.len() == 0 {
        assert(w1 + w2 =~= w2);
    } else {
        assert((w1 + w2)[0] == w1[0]);
        assert((w1 + w2).drop_first() =~= w1.drop_first() + w2);
        if spec_fits_in(base, mem.len() as int, w1[0].gpa, w1[0].data.len() as int) {
            lemma_apply_writes_concat(base, spec_splice(mem, w1[0].gpa - base, w1[0].data), w1.drop_first(), w2);
        }
    }
}

} // verus!
