//! Application settings: defaults, overridden by a configuration file and by
//! `VSB__`-prefixed environment variables (loading them is the caller's part).
use vstd::prelude::*;
use vstd::string::*;

verus! {

/// Defaults for new VMs.
#[derive(Debug, Clone)]
pub struct VmDefaults {
    /// vCPU count.
    pub cpus: u8,
    /// RAM in MiB.
    pub memory_mb: u32,
    /// Disk size in GiB.
    pub disk_gb: u32,
    /// Kernel image.
    pub kernel: Option<String>,
    /// Initramfs.
    pub initramfs: Option<String>,
    /// Root file system image.
    pub rootfs: Option<String>,
}

impl Default for VmDefaults {
    /// 2 vCPUs, 2048 MiB of RAM, a 10 GiB disk and no images.
    fn default() -> (d: Self)
        ensures
            d.cpus == 2,
            d.memory_mb == 2048,
            d.disk_gb == 10,
            d.kernel is None,
            d.initramfs is None,
            d.rootfs is None,
    {
        VmDefaults { cpus: 2, memory_mb: 2048, disk_gb: 10, kernel: None, initramfs: None, rootfs: None }
    }
}

/// Where and what to write.
#[derive(Debug, Clone)]
pub struct OutputConfig {
    /// Output directory.
    pub dir: String,
    /// Whether to keep the raw collected data.
    pub save_raw_data: bool,
    /// Whether to write the timeline as JSON.
    pub generate_timeline_json: bool,
}

impl Default for OutputConfig {
    /// `./output`, keeping raw data and writing the timeline.
    fn default() -> (o: Self)
        ensures
            o.dir@ == "./output"@,
            o.save_raw_data,
            o.generate_timeline_json,
    {
        OutputConfig { dir: String::from_str("./output"), save_raw_data: true, generate_timeline_json: true }
    }
}

} // verus!
