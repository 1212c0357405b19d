//! The virtual machines that the service manages, and the request that creates one.

use vstd::prelude::*;

verus! {

/// A virtual machine's identifier: the 128-bit value of its UUID, most significant
/// byte first, so that the integer order is the order of the UUIDs' bytes.
pub type VmId = u128;

/// A virtual machine as the service reports it.
#[derive(Debug, PartialEq, Eq)]
pub struct Vm {
    pub id: VmId,
    pub name: String,
    pub state: VmState,
    pub resources: VmResources,
    pub image: Image,
    pub network: Network,
    pub metadata: Metadata,
}

/// The run state of a virtual machine.
#[derive(Debug, Clone, Copy, PartialEq, Eq)]
pub enum VmState {
    NoState,
    Running,
    Blocked,
    Paused,
    ShuttingDown,
    ShutOff,
    Crashed,
    Suspended,
    Unknown,
}

/// The base image a virtual machine's disk was created from.
#[derive(Debug, PartialEq, Eq)]
pub struct Image {
    pub name: Option<String>,
}

/// Memory, processors and disk of a virtual machine.
#[derive(Debug, PartialEq, Eq)]
pub struct VmResources {
    pub memory_mib: u64,
    pub vcpus: u32,
    pub disk: Disk,
}

/// A virtual machine's disk.
#[derive(Debug, PartialEq, Eq)]
pub struct Disk {
    pub capacity_bytes: u64,
    pub allocated_bytes: u64,
    pub format: Option<String>,
}

/// Network addresses of a virtual machine.
#[derive(Debug, PartialEq, Eq)]
pub struct Network {
    pub ip_address: Option<String>,
    pub mac_address: Option<String>,
}

/// Facts about the guest system.
#[derive(Debug, PartialEq, Eq)]
pub struct Metadata {
    pub architecture: Option<String>,
    pub ssh_user: Option<String>,
}

/// What a caller asks for when it creates a virtual machine.
#[derive(Debug, PartialEq, Eq)]
pub struct CreateVmSpec {
    pub name: String,
    pub memory_mib: u64,
    pub disk_gib: u64,
    pub vcpus: u32,
    pub image: Option<String>,
}

/// A copy of an optional string.
pub fn copy_opt_string(s: &Option<String>) -> (r: Option<String>)
    ensures
        r == *s,
{
    match s {
        Some(v) => Some(v.clone()),
        None => None,
    }
}

impl Clone for Image {
    fn clone(&self) -> (r: Self)
        ensures
            r == *self,
    {
        Image { name: copy_opt_string(&self.name) }
    }
}

impl Clone for Disk {
    fn clone(&self) -> (r: Self)
        ensures
            r == *self,
    {
        Disk {
            capacity_bytes: self.capacity_bytes,
            allocated_bytes: self.allocated_bytes,
            format: copy_opt_string(&self.format),
        }
    }
}

impl Clone for VmResources {
    fn clone(&self) -> (r: Self)
        ensures
            r == *self,
    {
        VmResources { memory_mib: self.memory_mib, vcpus: self.vcpus, disk: self.disk.clone() }
    }
}

impl Clone for Network {
    fn clone(&self) -> (r: Self)
        ensures
            r == *self,
    {
        Network {
            ip_address: copy_opt_string(&self.ip_address),
            mac_address: copy_opt_string(&self.mac_address),
        }
    }
}

impl Clone for Metadata {
    fn clone(&self) -> (r: Self)
        ensures
            r == *self,
    {
        Metadata {
            architecture: copy_opt_string(&self.architecture),
            ssh_user: copy_opt_string(&self.ssh_user),
        }
    }
}

impl Clone for Vm {
    fn clone(&self) -> (r: Self)
        ensures
            r == *self,
    {
        Vm {
            id: self.id,
            name: self.name.clone(),
            state: self.state,
            resources: self.resources.clone(),
            image: self.image.clone(),
            network: self.network.clone(),
            metadata: self.metadata.clone(),
        }
    }
}

impl Clone for CreateVmSpec {
    fn clone(&self) -> (r: Self)
        ensures
            r == *self,
    {
        CreateVmSpec {
            name: self.name.clone(),
            memory_mib: self.memory_mib,
            disk_gib: self.disk_gib,
            vcpus: self.vcpus,
            image: copy_opt_string(&self.image),
        }
    }
}

} // verus!
