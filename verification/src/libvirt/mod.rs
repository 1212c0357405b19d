//! A hypervisor backed by libvirt: its settings, the XML documents it hands to
//! libvirt, what it reads back from libvirt, and the decisions that drive its
//! requests.

pub mod cloud_init;
pub mod create;
pub mod domain;
pub mod lookup;
pub mod remove;
pub mod storage;
pub mod xml;

use vstd::prelude::*;

verus! {

/// Settings of a libvirt-backed hypervisor.
pub struct LibvirtHypervisor {
    uri: String,
    storage_pool: String,
    storage_dir: String,
    default_image: String,
    ssh_key_path: String,
}

impl LibvirtHypervisor {
    /// The libvirt connection URI.
    pub closed spec fn uri(&self) -> Seq<char> {
        self.uri@
    }

    /// The storage pool that holds the disks.
    pub closed spec fn storage_pool(&self) -> Seq<char> {
        self.storage_pool@
    }

    /// The directory of the storage pool.
    pub closed spec fn storage_dir(&self) -> Seq<char> {
        self.storage_dir@
    }

    /// The image used when a request names none.
    pub closed spec fn default_image(&self) -> Seq<char> {
        self.default_image@
    }

    /// The file that holds the SSH public key given to new machines.
    pub closed spec fn ssh_key_path(&self) -> Seq<char> {
        self.ssh_key_path@
    }

    /// The libvirt connection URI.
    pub fn uri_str(&self) -> (r: &str)
        ensures
            r@ == self.uri(),
    {
        self.uri.as_str()
    }

    /// The storage pool that holds the disks.
    pub fn storage_pool_str(&self) -> (r: &str)
        ensures
            r@ == self.storage_pool(),
    {
        self.storage_pool.as_str()
    }

    /// The directory of the storage pool.
    pub fn storage_dir_str(&self) -> (r: &str)
        ensures
            r@ == self.storage_dir(),
    {
        self.storage_dir.as_str()
    }

    /// The image used when a request names none.
    pub fn default_image_str(&self) -> (r: &str)
        ensures
            r@ == self.default_image(),
    {
        self.default_image.as_str()
    }

    /// The file that holds the SSH public key given to new machines.
    pub fn ssh_key_path_str(&self) -> (r: &str)
        ensures
            r@ == self.ssh_key_path(),
    {
        self.ssh_key_path.as_str()
    }

    pub fn new(
        uri: String,
        storage_pool: String,
        storage_dir: String,
        default_image: String,
        ssh_key_path: String,
    ) -> (r: Self)
        ensures
            r.uri() == uri@,
            r.storage_pool() == storage_pool@,
            r.storage_dir() == storage_dir@,
            r.default_image() == default_image@,
            r.ssh_key_path() == ssh_key_path@,
    {
        LibvirtHypervisor { uri, storage_pool, storage_dir, default_image, ssh_key_path }
    }
}

} // verus!
