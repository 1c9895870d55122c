//! qcow2 images (copy-on-write, compression, snapshots). Only the interface
//! exists: creating, opening, reading and writing are refused with an error.
use vstd::prelude::*;
use vstd::string::*;

use crate::error::Error;
use crate::image::{DiskImage, ImageFormat};

verus! {

/// A qcow2 image.
#[derive(Debug)]
pub struct Qcow2Image {
    path: String,
    capacity: u64,
}

impl Qcow2Image {
    /// Capacity in bytes.
    pub closed spec fn spec_capacity(&self) -> u64 {
        self.capacity
    }

    /// Creating qcow2 images is not available yet.
    pub fn create(path: &str, size_bytes: u64) -> (r: Result<Self, Error>)
        ensures
            r matches Err(Error::Image(m)) && m@ == "qcow2 create not implemented yet"@,
    {
        Err(Error::Image(String::from_str("qcow2 create not implemented yet")))
    }

    /// Opening qcow2 images is not available yet.
    pub fn open(path: &str) -> (r: Result<Self, Error>)
        ensures
            r matches Err(Error::Image(m)) && m@ == "qcow2 open not implemented yet: "@ + path@,
    {
        let mut m = String::from_str("qcow2 open not implemented yet: ");
        m.append(path);
        Err(Error::Image(m))
    }
}

impl DiskImage for Qcow2Image {
    fn format(&self) -> (f: ImageFormat)
        ensures
            f == ImageFormat::Qcow2,
    {
        ImageFormat::Qcow2
    }

    fn capacity(&self) -> (c: u64)
        ensures
            c == self.spec_capacity(),
    {
        self.capacity
    }

    fn read(&self, offset: u64, buf: &mut [u8]) -> (r: Result<(), Error>)
        ensures
            r matches Err(Error::Image(m)) && m@ == "qcow2 read not implemented yet"@,
    {
        Err(Error::Image(String::from_str("qcow2 read not implemented yet")))
    }

    fn write(&self, offset: u64, buf: &[u8]) -> (r: Result<(), Error>)
        ensures
            r matches Err(Error::Image(m)) && m@ == "qcow2 write not implemented yet"@,
    {
        Err(Error::Image(String::from_str("qcow2 write not implemented yet")))
    }

    fn flush(&self) -> (r: Result<(), Error>)
        ensures
            r is Ok,
    {
        Ok(())
    }
}

} // verus!
