//! Disk images.
//!
//! - [`qcow2`] — QEMU copy-on-write v2 (not available yet)
//! - raw images are plain host files, read and written by the caller
use vstd::prelude::*;
use vstd::string::*;

pub mod qcow2;

use crate::error::Error;
use qcow2::Qcow2Image;

verus! {

/// Image format.
#[derive(Debug, Clone, Copy, PartialEq, Eq, Structural)]
pub enum ImageFormat {
    /// A plain file.
    Raw,
    /// qcow2.
    Qcow2,
}

/// What `std::path::Path::extension` gives for `path`, as text.
pub uninterp spec fn path_extension(path: Seq<char>) -> Option<Seq<char>>;

/// `Path::extension`: the part of the file name after its last `.`, when the name has one
/// not at its start. The contract names the result; it is not restated here.
#[verifier::external_body]
fn extension_of(path: &str) -> (r: Option<String>)
    ensures
        match r {
            Some(e) => path_extension(path@) == Some(e@),
            None => path_extension(path@) is None,
        },
{
    std::path::Path::new(path).extension().and_then(|e| e.to_str()).map(|e| e.to_string())
}

impl ImageFormat {
    /// The format of an image file: qcow2 when its extension is `qcow2`, raw otherwise.
    pub fn from_path(path: &str) -> (f: Self)
        ensures
            f == (if path_extension(path@) == Some("qcow2"@) { ImageFormat::Qcow2 } else { ImageFormat::Raw }),
    {
        match extension_of(path) {
            Some(e) => if e == String::from_str("qcow2") {
                ImageFormat::Qcow2
            } else {
                ImageFormat::Raw
            },
            None => ImageFormat::Raw,
        }
    }
}

/// A disk image.
pub trait DiskImage {
    /// The format.
    fn format(&self) -> ImageFormat;

    /// Capacity in bytes.
    fn capacity(&self) -> u64;

    /// Reads `buf.len()` bytes at `offset`.
    fn read(&self, offset: u64, buf: &mut [u8]) -> Result<(), Error>;

    /// Writes `buf` at `offset`.
    fn write(&self, offset: u64, buf: &[u8]) -> Result<(), Error>;

    /// Flushes to the host.
    fn flush(&self) -> Result<(), Error>;
}

/// An image to be used: a raw file that the caller creates or opens, or a qcow2 image.
#[derive(Debug)]
pub enum ImageHandle {
    /// A raw file of `size_bytes` (when being created) at `path`.
    Raw {
        /// Host path.
        path: String,
        /// Size to create, when creating.
        size_bytes: Option<u64>,
    },
    /// A qcow2 image.
    Qcow2(Qcow2Image),
}

/// Creates an image of the given format: a raw file of `size_bytes` at `path` (created
/// by the caller), or a qcow2 image, which cannot be created yet.
pub fn create_image(path: &str, format: ImageFormat, size_bytes: u64) -> (r: Result<ImageHandle, Error>)
    ensures
        format == ImageFormat::Raw ==> (r matches Ok(ImageHandle::Raw { path: p, size_bytes: s })
            && p@ == path@ && s == Some(size_bytes)),
        format == ImageFormat::Qcow2 ==> (r matches Err(Error::Image(m))
            && m@ == "qcow2 create not implemented yet"@),
{
    match format {
        ImageFormat::Raw => Ok(ImageHandle::Raw { path: String::from_str(path), size_bytes: Some(size_bytes) }),
        ImageFormat::Qcow2 => match Qcow2Image::create(path, size_bytes) {
            Ok(i) => Ok(ImageHandle::Qcow2(i)),
            Err(e) => Err(e),
        },
    }
}

/// Opens an existing image by its format (see `ImageFormat::from_path`): a raw file
/// (opened by the caller) or a qcow2 image, which cannot be opened yet.
pub fn open_image(path: &str) -> (r: Result<ImageHandle, Error>)
    ensures
        path_extension(path@) != Some("qcow2"@) ==> (r matches Ok(ImageHandle::Raw { path: p, size_bytes: None })
            && p@ == path@),
        path_extension(path@) == Some("qcow2"@) ==> (r matches Err(Error::Image(m))
            && m@ == "qcow2 open not implemented yet: "@ + path@),
{
    match ImageFormat::from_path(path) {
        ImageFormat::Raw => Ok(ImageHandle::Raw { path: String::from_str(path), size_bytes: None }),
        ImageFormat::Qcow2 => match Qcow2Image::open(path) {
            Ok(i) => Ok(ImageHandle::Qcow2(i)),
            Err(e) => Err(e),
        },
    }
}

} // verus!
