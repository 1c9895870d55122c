use video_summary_bot::devices::serial::SerialPort;
use video_summary_bot::devices::virtio_block::VirtioBlock;
use video_summary_bot::devices::virtio_console::{ConsoleConfig, VirtioConsole};
use video_summary_bot::devices::virtio_fs::VirtioFs;
use video_summary_bot::devices::virtio_gpu::VirtioGpu;
use video_summary_bot::devices::virtio_input::{InputKind, VirtioInput};
use video_summary_bot::devices::virtio_mmio::{
    VirtioMmio, VirtioMmioBus, VIRTIO_MMIO_BASE_ADDR, VIRTIO_MMIO_CONFIG, VIRTIO_MMIO_CONFIG_GENERATION,
    VIRTIO_MMIO_DEVICE_ID, VIRTIO_MMIO_INTERRUPT_ACK, VIRTIO_MMIO_INTERRUPT_STATUS, VIRTIO_MMIO_MAGIC_VALUE,
    VIRTIO_MMIO_QUEUE_NUM_MAX, VIRTIO_MMIO_QUEUE_READY, VIRTIO_MMIO_QUEUE_SEL, VIRTIO_MMIO_SIZE,
    VIRTIO_MMIO_STATUS, VIRTIO_MMIO_VENDOR_ID, VIRTIO_MMIO_VERSION,
};
use video_summary_bot::devices::virtio_net::VirtioNet;
use video_summary_bot::devices::virtio_snd::VirtioSnd;
use video_summary_bot::devices::VirtioDeviceType;

#[test]
fn mmio_identity_registers() {
    let m = VirtioMmio::new(VIRTIO_MMIO_BASE_ADDR, VirtioConsole::new());
    assert_eq!(m.mmio_read(VIRTIO_MMIO_MAGIC_VALUE, 4), 0x7472_6976);
    assert_eq!(m.mmio_read(VIRTIO_MMIO_VERSION, 4), 2);
    assert_eq!(m.mmio_read(VIRTIO_MMIO_DEVICE_ID, 4), 3);
    assert_eq!(m.mmio_read(VIRTIO_MMIO_VENDOR_ID, 4), 0x554D_4551);
}

#[test]
fn mmio_status_write_then_read_and_reset_bumps_generation() {
    let mut m = VirtioMmio::new(VIRTIO_MMIO_BASE_ADDR, VirtioConsole::new());
    m.mmio_write(VIRTIO_MMIO_STATUS, 0x0F, 4);
    assert_eq!(m.mmio_read(VIRTIO_MMIO_STATUS, 4), 0x0F);
    let gen = m.mmio_read(VIRTIO_MMIO_CONFIG_GENERATION, 4);
    m.mmio_write(VIRTIO_MMIO_STATUS, 0, 4);
    assert_eq!(m.mmio_read(VIRTIO_MMIO_STATUS, 4), 0);
    assert_eq!(m.mmio_read(VIRTIO_MMIO_CONFIG_GENERATION, 4), gen + 1);
}

#[test]
fn mmio_queue_selection_and_ready() {
    let mut m = VirtioMmio::new(VIRTIO_MMIO_BASE_ADDR, VirtioConsole::new());
    m.mmio_write(VIRTIO_MMIO_QUEUE_SEL, 1, 4);
    assert_eq!(m.mmio_read(VIRTIO_MMIO_QUEUE_NUM_MAX, 4), 256);
    assert_eq!(m.mmio_read(VIRTIO_MMIO_QUEUE_READY, 4), 0);
    m.mmio_write(VIRTIO_MMIO_QUEUE_READY, 1, 4);
    assert_eq!(m.mmio_read(VIRTIO_MMIO_QUEUE_READY, 4), 1);
    m.mmio_write(VIRTIO_MMIO_QUEUE_SEL, 9, 4);
    assert_eq!(m.mmio_read(VIRTIO_MMIO_QUEUE_NUM_MAX, 4), 0);
}

#[test]
fn mmio_interrupt_raise_and_ack() {
    let mut m = VirtioMmio::new(VIRTIO_MMIO_BASE_ADDR, VirtioConsole::new());
    m.raise_interrupt(0b11);
    assert_eq!(m.mmio_read(VIRTIO_MMIO_INTERRUPT_STATUS, 4), 0b11);
    m.mmio_write(VIRTIO_MMIO_INTERRUPT_ACK, 0b01, 4);
    assert_eq!(m.mmio_read(VIRTIO_MMIO_INTERRUPT_STATUS, 4), 0b10);
}

#[test]
fn console_config_space() {
    let c = VirtioConsole::with_config(ConsoleConfig { cols: 80, rows: 25, max_nr_ports: 1, emerg_wr: 0 });
    let m = VirtioMmio::new(VIRTIO_MMIO_BASE_ADDR, c);
    assert_eq!(m.mmio_read(VIRTIO_MMIO_CONFIG, 4), 80 | (25 << 16));
    assert_eq!(m.mmio_read(VIRTIO_MMIO_CONFIG + 4, 4), 1);
    assert_eq!(m.mmio_read(VIRTIO_MMIO_CONFIG + 8, 4), 0);
}

#[test]
fn bus_windows_and_routing() {
    let mut bus: VirtioMmioBus<VirtioConsole> = VirtioMmioBus::new();
    let b0 = bus.add_device(VirtioConsole::new());
    let b1 = bus.add_device(VirtioConsole::new());
    assert_eq!(b0, 0xA000_0000);
    assert_eq!(b1, 0xA000_0000 + VIRTIO_MMIO_SIZE);
    assert!(bus.contains(b1 + 4));
    assert!(!bus.contains(b1 + VIRTIO_MMIO_SIZE));
    assert!(!bus.contains(0x1000));
    assert_eq!(bus.read(b1 + VIRTIO_MMIO_MAGIC_VALUE, 4), Some(0x7472_6976));
    assert_eq!(bus.read(0x1000, 4), None);
    assert!(bus.write(b1 + VIRTIO_MMIO_STATUS, 7, 4));
    assert_eq!(bus.read(b1 + VIRTIO_MMIO_STATUS, 4), Some(7));
    assert_eq!(bus.read(b0 + VIRTIO_MMIO_STATUS, 4), Some(0));
    assert!(!bus.write(0x1000, 7, 4));
    assert_eq!(bus.devices().len(), 2);
}

#[test]
fn device_types_and_constructors() {
    let b = VirtioBlock::new("disk.img".to_string(), 512 * 10 + 100);
    assert_eq!(b.device_type(), VirtioDeviceType::Block);
    assert_eq!(b.capacity_sectors, 10);
    let fs = VirtioFs::new("share".to_string(), "/tmp".to_string()).read_only();
    assert!(fs.read_only);
    assert_eq!(fs.device_type(), VirtioDeviceType::Fs);
    let g = VirtioGpu::new(800, 600);
    assert_eq!(g.device_type(), VirtioDeviceType::Gpu);
    let i = VirtioInput::new(InputKind::Keyboard);
    assert_eq!(i.device_type(), VirtioDeviceType::Input);
    let n = VirtioNet::new("user".to_string(), [1, 2, 3, 4, 5, 6]);
    assert_eq!(n.device_type(), VirtioDeviceType::Net);
    let s = VirtioSnd::new();
    assert_eq!(s.device_type(), VirtioDeviceType::Sound);
    assert_eq!(VirtioDeviceType::Console.code(), 3);
    assert_eq!(VirtioDeviceType::Fs.code(), 26);
}

#[test]
fn serial_port_buffers_output() {
    let mut p = SerialPort::new();
    p.write(b"ab");
    p.write(b"c");
    assert_eq!(p.buffer_snapshot(), b"abc".to_vec());
}
