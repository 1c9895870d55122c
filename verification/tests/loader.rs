use video_summary_bot::vmm::loader::{
    align_up, build_boot_params, parse_bzimage, BootParams, InitialRegs, KernelLoader, SetupHeader,
    BOOT_PARAMS_ADDR, CMDLINE_ADDR, GDT_ADDR, KERNEL_ADDR,
};
use video_summary_bot::vmm::memory::GuestRam;
use video_summary_bot::error::Error;

fn bzimage(setup_sects: u8, total: usize) -> Vec<u8> {
    let mut b = vec![0u8; total];
    b[0x1F1] = setup_sects;
    b[0x1FE] = 0x55;
    b[0x1FF] = 0xAA;
    b[0x202] = 0x48;
    b[0x203] = 0x64;
    b[0x204] = 0x72;
    b[0x205] = 0x53;
    let sects = if setup_sects == 0 { 4 } else { setup_sects as usize };
    for (i, x) in b.iter_mut().enumerate().skip((sects + 1) * 512) {
        *x = (i % 251) as u8;
    }
    b
}

#[test]
fn test_parse_bzimage_invalid() {
    let result = parse_bzimage(&[0u8; 100]);
    assert!(result.is_err());
}

#[test]
fn test_align_up() {
    assert_eq!(align_up(0x100001, 0x40_0000), 0x40_0000);
    assert_eq!(align_up(0x40_0000, 0x40_0000), 0x40_0000);
    assert_eq!(align_up(0x40_0001, 0x40_0000), 0x80_0000);
}

#[test]
fn test_boot_params_size() {
    assert!(std::mem::size_of::<BootParams>() <= 4096);
}

#[test]
fn zero_page_image_is_one_page() {
    let bp = build_boot_params(&SetupHeader::zeroed(), 2048, None, 0);
    assert_eq!(bp.to_bytes().len(), 4096);
}

#[test]
fn zero_page_places_header_and_e820() {
    let bp = build_boot_params(&SetupHeader::zeroed(), 2048, Some(0x400_0000), 0x1234);
    let page = bp.to_bytes();
    // e820 entry count at 0x1E8: low RAM, the legacy hole, main RAM
    assert_eq!(page[0x1E8], 3);
    // type_of_loader at 0x210 is 0xFF
    assert_eq!(page[0x210], 0xFF);
    // cmd_line_ptr at 0x228
    let ptr = u32::from_le_bytes([page[0x228], page[0x229], page[0x22A], page[0x22B]]);
    assert_eq!(ptr as u64, CMDLINE_ADDR);
    // ramdisk_image at 0x218, ramdisk_size at 0x21C
    let img = u32::from_le_bytes([page[0x218], page[0x219], page[0x21A], page[0x21B]]);
    let size = u32::from_le_bytes([page[0x21C], page[0x21D], page[0x21E], page[0x21F]]);
    assert_eq!(img, 0x400_0000);
    assert_eq!(size, 0x1234);
    // first e820 entry at 0x2D0: addr 0, size 0x9F000, type 1
    let size0 = u64::from_le_bytes(page[0x2D8..0x2E0].try_into().unwrap());
    let ty0 = u32::from_le_bytes(page[0x2E0..0x2E4].try_into().unwrap());
    assert_eq!(size0, 0x9F000);
    assert_eq!(ty0, 1);
}

#[test]
fn e820_without_main_ram_when_ram_is_one_mib() {
    let bp = build_boot_params(&SetupHeader::zeroed(), 1, None, 0);
    assert_eq!(bp.e820_table_count, 2);
}

#[test]
fn parse_bzimage_splits_setup_and_kernel() {
    let img = bzimage(1, 4096);
    let info = parse_bzimage(&img).unwrap();
    assert_eq!(info.setup_size, 1024);
    assert_eq!(info.kernel_data.len(), 4096 - 1024);
    assert_eq!(&info.kernel_data[..], &img[1024..]);
}

#[test]
fn parse_bzimage_zero_setup_sects_means_four() {
    let img = bzimage(0, 4096);
    let info = parse_bzimage(&img).unwrap();
    assert_eq!(info.setup_size, 5 * 512);
}

fn vmm_message(e: Error) -> String {
    match e {
        Error::Vmm(m) => m,
        other => panic!("unexpected error {:?}", other),
    }
}

#[test]
fn parse_bzimage_error_messages() {
    assert_eq!(vmm_message(parse_bzimage(&[0u8; 100]).err().unwrap()), "bzImage too small");
    let mut img = bzimage(1, 4096);
    img[0x1FE] = 0;
    assert_eq!(
        vmm_message(parse_bzimage(&img).err().unwrap()),
        "invalid boot_flag: 0xaa00 (expected 0xaa55)"
    );
    let mut img = bzimage(1, 4096);
    img[0x202] = 0;
    assert_eq!(vmm_message(parse_bzimage(&img).err().unwrap()), "not a bzImage (missing HdrS magic)");
    let img = bzimage(1, 1024);
    assert_eq!(vmm_message(parse_bzimage(&img).err().unwrap()), "bzImage: no kernel data after setup");
}

#[test]
fn initial_regs_for_linux() {
    let r = InitialRegs::for_linux_64(KERNEL_ADDR, BOOT_PARAMS_ADDR, 2048);
    assert_eq!(r.rip, 0x10_0000);
    assert_eq!(r.rsi, 0x7000);
    assert_eq!(r.rsp, 2048 * 1024 * 1024 - 0x1_0000);
    assert_eq!(r.cr0, 0x11);
    assert_eq!(r.cr4, 0x20);
    assert_eq!(r.efer, 0x100);
    assert_eq!(r.rflags, 0x2);
    let small = InitialRegs::for_linux_64(KERNEL_ADDR, BOOT_PARAMS_ADDR, 0);
    assert_eq!(small.rsp, 0);
}

#[test]
fn load_places_kernel_initrd_and_cmdline() {
    let mut ram = GuestRam::allocate(0, 65 * 1024 * 1024).unwrap();
    let img = bzimage(1, 4096);
    let initrd = vec![7u8; 100];
    let res = KernelLoader::load(&mut ram, &img, Some(&initrd), "console=ttyS0", 65).unwrap();
    assert_eq!(res.kernel_entry, KERNEL_ADDR);
    assert_eq!(res.boot_params_addr, BOOT_PARAMS_ADDR);
    let initrd_addr = res.initrd_addr.unwrap();
    assert_eq!(initrd_addr, 0x0400_0000);
    assert_eq!(res.initrd_size, 100);
    let mut buf = vec![0u8; 3072];
    ram.read(KERNEL_ADDR, &mut buf).unwrap();
    assert_eq!(&buf[..], &img[1024..]);
    let mut c = vec![0u8; 14];
    ram.read(CMDLINE_ADDR, &mut c).unwrap();
    assert_eq!(&c[..13], b"console=ttyS0");
    assert_eq!(c[13], 0);
    let mut r = vec![0u8; 100];
    ram.read(initrd_addr, &mut r).unwrap();
    assert!(r.iter().all(|&x| x == 7));
}

#[test]
fn load_rejects_bad_image_without_touching_ram() {
    let mut ram = GuestRam::allocate(0, 4 * 1024 * 1024).unwrap();
    let before = ram.bytes().to_vec();
    assert!(KernelLoader::load(&mut ram, &[0u8; 10], None, "", 4).is_err());
    assert_eq!(ram.bytes(), &before[..]);
}

#[test]
fn load_reports_out_of_range() {
    // 1 MiB of RAM cannot hold a kernel at 1 MiB
    let mut ram = GuestRam::allocate(0, 1024 * 1024).unwrap();
    let img = bzimage(1, 4096);
    let e = KernelLoader::load(&mut ram, &img, None, "x", 1).err().unwrap();
    assert_eq!(vmm_message(e), "gpa 0x100000 out of range");
}

#[test]
fn gdt_is_written_at_its_address() {
    let mut ram = GuestRam::allocate(0, 1024 * 1024).unwrap();
    let (base, limit) = video_summary_bot::vmm::loader::write_gdt(&mut ram).unwrap();
    assert_eq!(base, GDT_ADDR);
    assert_eq!(limit, 23);
    let mut g = vec![0u8; 24];
    ram.read(GDT_ADDR, &mut g).unwrap();
    assert_eq!(u64::from_le_bytes(g[8..16].try_into().unwrap()), 0x00AF_9A00_0000_FFFF);
    assert_eq!(u64::from_le_bytes(g[16..24].try_into().unwrap()), 0x00CF_9200_0000_FFFF);
}

#[test]
fn setup_header_roundtrip_bytes() {
    let img = bzimage(3, 8192);
    let h = SetupHeader::parse(&img, 0x1F1);
    let bytes = h.to_bytes();
    assert_eq!(&bytes[..], &img[0x1F1..0x1F1 + bytes.len()]);
}

#[test]
fn guest_ram_rejects_bad_sizes_and_ranges() {
    assert!(GuestRam::allocate(0, 0).is_err());
    assert!(GuestRam::allocate(0, 1000).is_err());
    let mut ram = GuestRam::allocate(0x1000, 4096).unwrap();
    assert_eq!(ram.base_gpa(), 0x1000);
    assert_eq!(ram.size(), 4096);
    assert!(ram.write(0x0, &[1]).is_err());
    assert!(ram.write(0x1000 + 4095, &[1, 2]).is_err());
    ram.write(0x1000 + 10, &[9, 8]).unwrap();
    let mut b = [0u8; 2];
    ram.read(0x100A, &mut b).unwrap();
    assert_eq!(b, [9, 8]);
    assert!(!ram.mapped());
    ram.set_mapped(true);
    assert!(ram.mapped());
}

#[test]
fn load_refuses_initrd_beyond_ram() {
    let mut ram = GuestRam::allocate(0, 16 * 1024 * 1024).unwrap();
    let img = bzimage(1, 4096);
    let initrd = vec![7u8; 100];
    assert!(KernelLoader::load(&mut ram, &img, Some(&initrd), "console=ttyS0", 16).is_err());
    let mut buf = vec![0u8; 3072];
    ram.read(KERNEL_ADDR, &mut buf).unwrap();
    assert_eq!(&buf[..], &img[1024..]);
}

#[test]
fn load_refuses_kernel_reaching_the_initrd() {
    let mut ram = GuestRam::allocate(0, 1024 * 1024).unwrap();
    let before = ram.bytes().to_vec();
    let img = bzimage(1, 1024 + 0x3F0_0000 + 1);
    let initrd = vec![7u8; 16];
    match KernelLoader::load(&mut ram, &img, Some(&initrd), "", 1) {
        Err(Error::Vmm(m)) => assert_eq!(m, "kernel too large: it would overlap the initrd at 0x4000000"),
        other => panic!("{:?}", other),
    }
    assert_eq!(ram.bytes(), &before[..]);
}
