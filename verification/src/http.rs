//! What the HTTP interface decides: the defaults of a creation request and the
//! status code of each answer.

use vstd::prelude::*;

use crate::application::{CreateVmError, DeleteVmError, GetVmError, ListVmsError};
use crate::domain::CreateVmSpec;

verus! {

pub const STATUS_OK: u16 = 200;

pub const STATUS_CREATED: u16 = 201;

pub const STATUS_NO_CONTENT: u16 = 204;

pub const STATUS_BAD_REQUEST: u16 = 400;

pub const STATUS_NOT_FOUND: u16 = 404;

pub const STATUS_CONFLICT: u16 = 409;

pub const STATUS_INTERNAL_SERVER_ERROR: u16 = 500;

/// The memory of a machine whose request names none, in MiB.
pub fn default_memory_mib() -> (r: u64)
    ensures
        r == 512,
{
    512
}

/// The processors of a machine whose request names none.
pub fn default_vcpus() -> (r: u32)
    ensures
        r == 1,
{
    1
}

/// The disk of a machine whose request names none, in GiB.
pub fn default_disk_gib() -> (r: u64)
    ensures
        r == 8,
{
    8
}

/// The body of a creation request, its defaults filled in.
pub struct CreateVmRequest {
    pub name: String,
    pub image: Option<String>,
    pub memory_mib: u64,
    pub vcpus: u32,
    pub disk_gib: u64,
}

impl CreateVmRequest {
    /// The creation that the request asks for.
    pub fn into_spec(self) -> (r: CreateVmSpec)
        ensures
            r.name == self.name,
            r.memory_mib == self.memory_mib,
            r.disk_gib == self.disk_gib,
            r.vcpus == self.vcpus,
            r.image == self.image,
    {
        CreateVmSpec {
            name: self.name,
            memory_mib: self.memory_mib,
            disk_gib: self.disk_gib,
            vcpus: self.vcpus,
            image: self.image,
        }
    }
}

/// The status of a refused creation: a request the service refuses is the
/// client's fault, a name in use a conflict, a hypervisor failure the server's.
pub open spec fn create_error_status_of(e: CreateVmError) -> u16 {
    match e {
        CreateVmError::NameAlreadyExists => STATUS_CONFLICT,
        CreateVmError::Hypervisor(_) => STATUS_INTERNAL_SERVER_ERROR,
        _ => STATUS_BAD_REQUEST,
    }
}

pub fn create_error_status(e: &CreateVmError) -> (r: u16)
    ensures
        r == create_error_status_of(*e),
{
    match e {
        CreateVmError::InvalidName => STATUS_BAD_REQUEST,
        CreateVmError::InvalidMemory => STATUS_BAD_REQUEST,
        CreateVmError::InvalidVcpus => STATUS_BAD_REQUEST,
        CreateVmError::InvalidImage => STATUS_BAD_REQUEST,
        CreateVmError::InvalidStorage => STATUS_BAD_REQUEST,
        CreateVmError::ImageNotFound => STATUS_BAD_REQUEST,
        CreateVmError::NameAlreadyExists => STATUS_CONFLICT,
        CreateVmError::Hypervisor(_) => STATUS_INTERNAL_SERVER_ERROR,
    }
}

/// The status of a failed listing.
pub fn list_error_status(e: &ListVmsError) -> (r: u16)
    ensures
        r == STATUS_INTERNAL_SERVER_ERROR,
{
    match e {
        ListVmsError::Hypervisor(_) => STATUS_INTERNAL_SERVER_ERROR,
    }
}

/// The status of a failed lookup.
pub fn get_error_status(e: &GetVmError) -> (r: u16)
    ensures
        r == match e {
            GetVmError::NotFound => STATUS_NOT_FOUND,
            GetVmError::Hypervisor(_) => STATUS_INTERNAL_SERVER_ERROR,
        },
{
    match e {
        GetVmError::NotFound => STATUS_NOT_FOUND,
        GetVmError::Hypervisor(_) => STATUS_INTERNAL_SERVER_ERROR,
    }
}

/// The status of a failed deletion.
pub fn delete_error_status(e: &DeleteVmError) -> (r: u16)
    ensures
        r == match e {
            DeleteVmError::NotFound => STATUS_NOT_FOUND,
            DeleteVmError::Hypervisor(_) => STATUS_INTERNAL_SERVER_ERROR,
        },
{
    match e {
        DeleteVmError::NotFound => STATUS_NOT_FOUND,
        DeleteVmError::Hypervisor(_) => STATUS_INTERNAL_SERVER_ERROR,
    }
}

} // verus!
