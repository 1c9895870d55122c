//! Properties of the boot-protocol encodings that span several functions.
use vstd::prelude::*;

use crate::bytes::{
    lemma_le16_roundtrip, lemma_le32_roundtrip, lemma_le64_roundtrip, u16_le_bytes, u32_le_bytes,
    u64_le_bytes, u8_bytes,
};
use crate::vmm::loader::{spec_parse_setup_header, spec_setup_header_bytes, SetupHeader};

verus! {

/// If the first `n` bytes of `s` are `p + e`, then the first `p.len()` bytes of `s` are `p`
/// and the `e.len()` bytes after them are `e`.
proof fn lemma_split(s: Seq<u8>, p: Seq<u8>, e: Seq<u8>, n: int)
    requires
        n == p.len() + e.len(),
        n <= s.len(),
        s.subrange(0, n) == p + e,
    ensures
        s.subrange(0, p.len() as int) == p,
        s.subrange(p.len() as int, n) == e,
{
    assert(s.subrange(0, p.len() as int) =~= (p + e).subrange(0, p.len() as int));
    assert(s.subrange(p.len() as int, n) =~= (p + e).subrange(p.len() as int, n));
    assert((p + e).subrange(0, p.len() as int) =~= p);
    assert((p + e).subrange(p.len() as int, n) =~= e);
}

/// Decoding the encoding of a setup header gives the header back.
#[verifier::rlimit(100)]
pub proof fn law_setup_header_roundtrip(h: SetupHeader)
    ensures
        spec_parse_setup_header(spec_setup_header_bytes(h), 0) == h,
{
    reveal(spec_setup_header_bytes);
    let s = spec_setup_header_bytes(h);
    let p0 = Seq::<u8>::empty();
    let e1 = u8_bytes(h.setup_sects);
    let p1 = p0 + e1;
    let e2 = u16_le_bytes(h.root_flags);
    let p2 = p1 + e2;
    let e3 = u32_le_bytes(h.syssize);
    let p3 = p2 + e3;
    let e4 = u16_le_bytes(h.ram_size);
    let p4 = p3 + e4;
    let e5 = u16_le_bytes(h.vid_mode);
    let p5 = p4 + e5;
    let e6 = u16_le_bytes(h.root_dev);
    let p6 = p5 + e6;
    let e7 = u16_le_bytes(h.boot_flag);
    let p7 = p6 + e7;
    let e8 = u16_le_bytes(h.jump);
    let p8 = p7 + e8;
    let e9 = u32_le_bytes(h.header);
    let p9 = p8 + e9;
    let e10 = u16_le_bytes(h.version);
    let p10 = p9 + e10;
    let e11 = u32_le_bytes(h.realmode_swtch);
    let p11 = p10 + e11;
    let e12 = u16_le_bytes(h.start_sys_seg);
    let p12 = p11 + e12;
    let e13 = u16_le_bytes(h.kernel_version);
    let p13 = p12 + e13;
    let e14 = u8_bytes(h.type_of_loader);
    let p14 = p13 + e14;
    let e15 = u8_bytes(h.loadflags);
    let p15 = p14 + e15;
    let e16 = u16_le_bytes(h.setup_move_size);
    let p16 = p15 + e16;
    let e17 = u32_le_bytes(h.code32_start);
    let p17 = p16 + e17;
    let e18 = u32_le_bytes(h.ramdisk_image);
    let p18 = p17 + e18;
    let e19 = u32_le_bytes(h.ramdisk_size);
    let p19 = p18 + e19;
    let e20 = u32_le_bytes(h.bootsect_kludge);
    let p20 = p19 + e20;
    let e21 = u16_le_bytes(h.heap_end_ptr);
    let p21 = p20 + e21;
    let e22 = u8_bytes(h.ext_loader_ver);
    let p22 = p21 + e22;
    let e23 = u8_bytes(h.ext_loader_type);
    let p23 = p22 + e23;
    let e24 = u32_le_bytes(h.cmd_line_ptr);
    let p24 = p23 + e24;
    let e25 = u32_le_bytes(h.initrd_addr_max);
    let p25 = p24 + e25;
    let e26 = u32_le_bytes(h.kernel_alignment);
    let p26 = p25 + e26;
    let e27 = u8_bytes(h.relocatable_kernel);
    let p27 = p26 + e27;
    let e28 = u8_bytes(h.min_alignment);
    let p28 = p27 + e28;
    let e29 = u16_le_bytes(h.xloadflags);
    let p29 = p28 + e29;
    let e30 = u32_le_bytes(h.cmdline_size);
    let p30 = p29 + e30;
    let e31 = u32_le_bytes(h.hardware_subarch);
    let p31 = p30 + e31;
    let e32 = u64_le_bytes(h.hardware_subarch_data);
    let p32 = p31 + e32;
    let e33 = u32_le_bytes(h.payload_offset);
    let p33 = p32 + e33;
    let e34 = u32_le_bytes(h.payload_length);
    let p34 = p33 + e34;
    let e35 = u64_le_bytes(h.setup_data);
    let p35 = p34 + e35;
    let e36 = u64_le_bytes(h.pref_address);
    let p36 = p35 + e36;
    let e37 = u32_le_bytes(h.init_size);
    let p37 = p36 + e37;
    let e38 = u32_le_bytes(h.handover_offset);
    let p38 = p37 + e38;
    assert(s == p38);
    assert(s.subrange(0, s.len() as int) =~= p38);
    assert(s.subrange(0, 115) == p37 && s.subrange(115, 119) == e38) by {
        lemma_split(s, p37, e38, 119);
    }
    lemma_le32_roundtrip(h.handover_offset, s, 115);
    assert(s.subrange(0, 111) == p36 && s.subrange(111, 115) == e37) by {
        lemma_split(s, p36, e37, 115);
    }
    lemma_le32_roundtrip(h.init_size, s, 111);
    assert(s.subrange(0, 103) == p35 && s.subrange(103, 111) == e36) by {
        lemma_split(s, p35, e36, 111);
    }
    lemma_le64_roundtrip(h.pref_address, s, 103);
    assert(s.subrange(0, 95) == p34 && s.subrange(95, 103) == e35) by {
        lemma_split(s, p34, e35, 103);
    }
    lemma_le64_roundtrip(h.setup_data, s, 95);
    assert(s.subrange(0, 91) == p33 && s.subrange(91, 95) == e34) by {
        lemma_split(s, p33, e34, 95);
    }
    lemma_le32_roundtrip(h.payload_length, s, 91);
    assert(s.subrange(0, 87) == p32 && s.subrange(87, 91) == e33) by {
        lemma_split(s, p32, e33, 91);
    }
    lemma_le32_roundtrip(h.payload_offset, s, 87);
    assert(s.subrange(0, 79) == p31 && s.subrange(79, 87) == e32) by {
        lemma_split(s, p31, e32, 87);
    }
    lemma_le64_roundtrip(h.hardware_subarch_data, s, 79);
    assert(s.subrange(0, 75) == p30 && s.subrange(75, 79) == e31) by {
        lemma_split(s, p30, e31, 79);
    }
    lemma_le32_roundtrip(h.hardware_subarch, s, 75);
    assert(s.subrange(0, 71) == p29 && s.subrange(71, 75) == e30) by {
        lemma_split(s, p29, e30, 75);
    }
    lemma_le32_roundtrip(h.cmdline_size, s, 71);
    assert(s.subrange(0, 69) == p28 && s.subrange(69, 71) == e29) by {
        lemma_split(s, p28, e29, 71);
    }
    lemma_le16_roundtrip(h.xloadflags, s, 69);
    assert(s.subrange(0, 68) == p27 && s.subrange(68, 69) == e28) by {
        lemma_split(s, p27, e28, 69);
    }
    assert(s[68] == h.min_alignment) by { assert(s[68] == s.subrange(68, 69)[0]); }
    assert(s.subrange(0, 67) == p26 && s.subrange(67, 68) == e27) by {
        lemma_split(s, p26, e27, 68);
    }
    assert(s[67] == h.relocatable_kernel) by { assert(s[67] == s.subrange(67, 68)[0]); }
    assert(s.subrange(0, 63) == p25 && s.subrange(63, 67) == e26) by {
        lemma_split(s, p25, e26, 67);
    }
    lemma_le32_roundtrip(h.kernel_alignment, s, 63);
    assert(s.subrange(0, 59) == p24 && s.subrange(59, 63) == e25) by {
        lemma_split(s, p24, e25, 63);
    }
    lemma_le32_roundtrip(h.initrd_addr_max, s, 59);
    assert(s.subrange(0, 55) == p23 && s.subrange(55, 59) == e24) by {
        lemma_split(s, p23, e24, 59);
    }
    lemma_le32_roundtrip(h.cmd_line_ptr, s, 55);
    assert(s.subrange(0, 54) == p22 && s.subrange(54, 55) == e23) by {
        lemma_split(s, p22, e23, 55);
    }
    assert(s[54] == h.ext_loader_type) by { assert(s[54] == s.subrange(54, 55)[0]); }
    assert(s.subrange(0, 53) == p21 && s.subrange(53, 54) == e22) by {
        lemma_split(s, p21, e22, 54);
    }
    assert(s[53] == h.ext_loader_ver) by { assert(s[53] == s.subrange(53, 54)[0]); }
    assert(s.subrange(0, 51) == p20 && s.subrange(51, 53) == e21) by {
        lemma_split(s, p20, e21, 53);
    }
    lemma_le16_roundtrip(h.heap_end_ptr, s, 51);
    assert(s.subrange(0, 47) == p19 && s.subrange(47, 51) == e20) by {
        lemma_split(s, p19, e20, 51);
    }
    lemma_le32_roundtrip(h.bootsect_kludge, s, 47);
    assert(s.subrange(0, 43) == p18 && s.subrange(43, 47) == e19) by {
        lemma_split(s, p18, e19, 47);
    }
    lemma_le32_roundtrip(h.ramdisk_size, s, 43);
    assert(s.subrange(0, 39) == p17 && s.subrange(39, 43) == e18) by {
        lemma_split(s, p17, e18, 43);
    }
    lemma_le32_roundtrip(h.ramdisk_image, s, 39);
    assert(s.subrange(0, 35) == p16 && s.subrange(35, 39) == e17) by {
        lemma_split(s, p16, e17, 39);
    }
    lemma_le32_roundtrip(h.code32_start, s, 35);
    assert(s.subrange(0, 33) == p15 && s.subrange(33, 35) == e16) by {
        lemma_split(s, p15, e16, 35);
    }
    lemma_le16_roundtrip(h.setup_move_size, s, 33);
    assert(s.subrange(0, 32) == p14 && s.subrange(32, 33) == e15) by {
        lemma_split(s, p14, e15, 33);
    }
    assert(s[32] == h.loadflags) by { assert(s[32] == s.subrange(32, 33)[0]); }
    assert(s.subrange(0, 31) == p13 && s.subrange(31, 32) == e14) by {
        lemma_split(s, p13, e14, 32);
    }
    assert(s[31] == h.type_of_loader) by { assert(s[31] == s.subrange(31, 32)[0]); }
    assert(s.subrange(0, 29) == p12 && s.subrange(29, 31) == e13) by {
        lemma_split(s, p12, e13, 31);
    }
    lemma_le16_roundtrip(h.kernel_version, s, 29);
    assert(s.subrange(0, 27) == p11 && s.subrange(27, 29) == e12) by {
        lemma_split(s, p11, e12, 29);
    }
    lemma_le16_roundtrip(h.start_sys_seg, s, 27);
    assert(s.subrange(0, 23) == p10 && s.subrange(23, 27) == e11) by {
        lemma_split(s, p10, e11, 27);
    }
    lemma_le32_roundtrip(h.realmode_swtch, s, 23);
    assert(s.subrange(0, 21) == p9 && s.subrange(21, 23) == e10) by {
        lemma_split(s, p9, e10, 23);
    }
    lemma_le16_roundtrip(h.version, s, 21);
    assert(s.subrange(0, 17) == p8 && s.subrange(17, 21) == e9) by {
        lemma_split(s, p8, e9, 21);
    }
    lemma_le32_roundtrip(h.header, s, 17);
    assert(s.subrange(0, 15) == p7 && s.subrange(15, 17) == e8) by {
        lemma_split(s, p7, e8, 17);
    }
    lemma_le16_roundtrip(h.jump, s, 15);
    assert(s.subrange(0, 13) == p6 && s.subrange(13, 15) == e7) by {
        lemma_split(s, p6, e7, 15);
    }
    lemma_le16_roundtrip(h.boot_flag, s, 13);
    assert(s.subrange(0, 11) == p5 && s.subrange(11, 13) == e6) by {
        lemma_split(s, p5, e6, 13);
    }
    lemma_le16_roundtrip(h.root_dev, s, 11);
    assert(s.subrange(0, 9) == p4 && s.subrange(9, 11) == e5) by {
        lemma_split(s, p4, e5, 11);
    }
    lemma_le16_roundtrip(h.vid_mode, s, 9);
    assert(s.subrange(0, 7) == p3 && s.subrange(7, 9) == e4) by {
        lemma_split(s, p3, e4, 9);
    }
    lemma_le16_roundtrip(h.ram_size, s, 7);
    assert(s.subrange(0, 3) == p2 && s.subrange(3, 7) == e3) by {
        lemma_split(s, p2, e3, 7);
    }
    lemma_le32_roundtrip(h.syssize, s, 3);
    assert(s.subrange(0, 1) == p1 && s.subrange(1, 3) == e2) by {
        lemma_split(s, p1, e2, 3);
    }
    lemma_le16_roundtrip(h.root_flags, s, 1);
    assert(s.subrange(0, 0) == p0 && s.subrange(0, 1) == e1) by {
        lemma_split(s, p0, e1, 1);
    }
    assert(s[0] == h.setup_sects) by { assert(s[0] == s.subrange(0, 1)[0]); }
}

} // verus!
