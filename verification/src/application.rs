//! The VM service: validates requests before they reach a hypervisor and turns
//! the hypervisor's answers into the service's errors.

use vstd::prelude::*;

use crate::domain::{CreateVmSpec, Vm, VmId};
use crate::text::{char_is_ascii_alphanumeric, chars_of, is_ascii_alphanumeric, string_of, trim, trim_chars};

verus! {

/// A backend that runs virtual machines.
pub trait Hypervisor: Send + Sync {
    fn create_vm(&self, spec: CreateVmSpec) -> Result<Vm, HypervisorCreateError>;

    fn list_vms(&self) -> Result<Vec<Vm>, String>;

    fn get_vm(&self, id: VmId) -> Result<Option<Vm>, String>;

    fn delete_vm(&self, id: VmId) -> Result<bool, String>;
}

/// Why a hypervisor did not create a virtual machine.
#[derive(Debug, PartialEq, Eq)]
pub enum HypervisorCreateError {
    NameAlreadyExists,
    ImageNotFound,
    Internal(String),
}

/// Why the service did not create a virtual machine.
#[derive(Debug, PartialEq, Eq)]
pub enum CreateVmError {
    InvalidName,
    InvalidMemory,
    InvalidVcpus,
    InvalidStorage,
    InvalidImage,
    ImageNotFound,
    NameAlreadyExists,
    Hypervisor(String),
}

/// Why the service did not return a virtual machine.
#[derive(Debug, PartialEq, Eq)]
pub enum GetVmError {
    NotFound,
    Hypervisor(String),
}

/// Why the service did not list the virtual machines.
#[derive(Debug, PartialEq, Eq)]
pub enum ListVmsError {
    Hypervisor(String),
}

/// Why the service did not delete a virtual machine.
#[derive(Debug, PartialEq, Eq)]
pub enum DeleteVmError {
    NotFound,
    Hypervisor(String),
}

/// A character allowed in VM and image names: an ASCII letter or digit, `-`, `_` or `.`.
pub open spec fn is_name_char(c: char) -> bool {
    is_ascii_alphanumeric(c) || c == '-' || c == '_' || c == '.'
}

/// A non-empty name made only of allowed characters.
pub open spec fn is_valid_name(s: Seq<char>) -> bool {
    s.len() > 0 && forall|i: int| 0 <= i < s.len() ==> is_name_char(#[trigger] s[i])
}

/// The first rule that a creation request breaks, in the order the service checks them;
/// `None` when it breaks none. The name is checked after trimming whitespace, the image
/// name as it is given.
pub open spec fn create_request_error(spec: CreateVmSpec) -> Option<CreateVmError> {
    if !is_valid_name(trim(spec.name@)) {
        Some(CreateVmError::InvalidName)
    } else if !(128 <= spec.memory_mib <= 2048) {
        Some(CreateVmError::InvalidMemory)
    } else if !(1 <= spec.vcpus <= 4) {
        Some(CreateVmError::InvalidVcpus)
    } else if !(4 <= spec.disk_gib <= 10) {
        Some(CreateVmError::InvalidStorage)
    } else if spec.image matches Some(image) && !is_valid_name(image@) {
        Some(CreateVmError::InvalidImage)
    } else {
        None
    }
}

/// The request that reaches the hypervisor: the caller's, with the name trimmed.
pub open spec fn normalized_request(spec: CreateVmSpec, out: CreateVmSpec) -> bool {
    &&& out.name@ == trim(spec.name@)
    &&& out.memory_mib == spec.memory_mib
    &&& out.disk_gib == spec.disk_gib
    &&& out.vcpus == spec.vcpus
    &&& out.image == spec.image
}

/// A valid name has no whitespace at either end, so trimming leaves it as it is.
pub proof fn lemma_valid_name_is_trimmed(s: Seq<char>)
    requires
        is_valid_name(s),
    ensures
        trim(s) == s,
{
    assert(!crate::text::is_whitespace(s[0]));
    assert(!crate::text::is_whitespace(s.last()));
    assert(crate::text::trim_start(s) == s);
}

/// Normalizing is idempotent: the request that the checks let through passes
/// them again and comes out unchanged.
pub proof fn law_normalized_request_passes_unchanged(spec: CreateVmSpec, out: CreateVmSpec)
    requires
        create_request_error(spec) is None,
        normalized_request(spec, out),
    ensures
        create_request_error(out) is None,
        normalized_request(out, out),
{
    lemma_valid_name_is_trimmed(trim(spec.name@));
}

/// Any non-empty text of ASCII letters, digits, `-`, `_` and `.` is a valid name,
/// whatever its length; a request with such a name, memory of 128 to 2048 MiB, 1
/// to 4 processors, a disk of 4 to 10 GiB and no image or an image named the same
/// way breaks no rule, and its name reaches the hypervisor as it is.
pub proof fn law_plain_names_are_accepted(spec: CreateVmSpec)
    requires
        spec.name@.len() > 0,
        forall|i: int|
            0 <= i < spec.name@.len() ==> {
                let c = #[trigger] spec.name@[i];
                ('a' <= c <= 'z') || ('A' <= c <= 'Z') || ('0' <= c <= '9') || c == '-' || c == '_'
                    || c == '.'
            },
        128 <= spec.memory_mib <= 2048,
        1 <= spec.vcpus <= 4,
        4 <= spec.disk_gib <= 10,
        spec.image matches Some(image) ==> image@.len() > 0 && forall|i: int|
            0 <= i < image@.len() ==> {
                let c = #[trigger] image@[i];
                ('a' <= c <= 'z') || ('A' <= c <= 'Z') || ('0' <= c <= '9') || c == '-' || c
                    == '_' || c == '.'
            },
    ensures
        is_valid_name(spec.name@),
        trim(spec.name@) == spec.name@,
        create_request_error(spec) is None,
{
    assert(is_valid_name(spec.name@));
    lemma_valid_name_is_trimmed(spec.name@);
    if let Some(image) = spec.image {
        assert(is_valid_name(image@));
    }
}

fn is_name_character(c: char) -> (r: bool)
    ensures
        r == is_name_char(c),
{
    char_is_ascii_alphanumeric(c) || c == '-' || c == '_' || c == '.'
}

/// Whether `s` is a valid name.
pub fn valid_name(s: &Vec<char>) -> (r: bool)
    ensures
        r == is_valid_name(s@),
{
    if s.len() == 0 {
        return false;
    }
    let mut i: usize = 0;
    while i < s.len()
        invariant
            i <= s.len(),
            forall|j: int| 0 <= j < i ==> is_name_char(#[trigger] s@[j]),
        decreases s.len() - i,
    {
        if !is_name_character(s[i]) {
            return false;
        }
        i = i + 1;
    }
    true
}

/// Checks a creation request and trims its name; returns the request that the
/// hypervisor is to receive, or the first rule that the request breaks.
pub fn prepare_create(spec: CreateVmSpec) -> (r: Result<CreateVmSpec, CreateVmError>)
    ensures
        match create_request_error(spec) {
            Some(e) => r == Err::<CreateVmSpec, CreateVmError>(e),
            None => r matches Ok(out) && normalized_request(spec, out),
        },
{
    let name = trim_chars(&chars_of(spec.name.as_str()));
    if !valid_name(&name) {
        return Err(CreateVmError::InvalidName);
    }
    if !(128 <= spec.memory_mib && spec.memory_mib <= 2048) {
        return Err(CreateVmError::InvalidMemory);
    }
    if !(1 <= spec.vcpus && spec.vcpus <= 4) {
        return Err(CreateVmError::InvalidVcpus);
    }
    if !(4 <= spec.disk_gib && spec.disk_gib <= 10) {
        return Err(CreateVmError::InvalidStorage);
    }
    match &spec.image {
        Some(image) => {
            if !valid_name(&chars_of(image.as_str())) {
                return Err(CreateVmError::InvalidImage);
            }
        },
        None => {},
    }
    Ok(
        CreateVmSpec {
            name: string_of(&name),
            memory_mib: spec.memory_mib,
            disk_gib: spec.disk_gib,
            vcpus: spec.vcpus,
            image: spec.image,
        },
    )
}

/// The service's error for a hypervisor's refusal.
pub open spec fn create_error_of(e: HypervisorCreateError) -> CreateVmError {
    match e {
        HypervisorCreateError::NameAlreadyExists => CreateVmError::NameAlreadyExists,
        HypervisorCreateError::ImageNotFound => CreateVmError::ImageNotFound,
        HypervisorCreateError::Internal(message) => CreateVmError::Hypervisor(message),
    }
}

/// The service's answer to a creation whose hypervisor answered `outcome`.
pub open spec fn create_answer(outcome: Result<Vm, HypervisorCreateError>) -> Result<Vm, CreateVmError> {
    match outcome {
        Ok(vm) => Ok(vm),
        Err(e) => Err(create_error_of(e)),
    }
}

/// The service's answer to a creation request that passed its checks, given the hypervisor's.
pub fn finish_create(outcome: Result<Vm, HypervisorCreateError>) -> (r: Result<Vm, CreateVmError>)
    ensures
        match outcome {
            Ok(vm) => r == Ok::<Vm, CreateVmError>(vm),
            Err(e) => r == Err::<Vm, CreateVmError>(create_error_of(e)),
        },
{
    match outcome {
        Ok(vm) => Ok(vm),
        Err(HypervisorCreateError::NameAlreadyExists) => Err(CreateVmError::NameAlreadyExists),
        Err(HypervisorCreateError::ImageNotFound) => Err(CreateVmError::ImageNotFound),
        Err(HypervisorCreateError::Internal(message)) => Err(CreateVmError::Hypervisor(message)),
    }
}

/// The service's answer to a lookup whose hypervisor answered `outcome`.
pub open spec fn get_answer(outcome: Result<Option<Vm>, String>) -> Result<Vm, GetVmError> {
    match outcome {
        Ok(Some(vm)) => Ok(vm),
        Ok(None) => Err(GetVmError::NotFound),
        Err(message) => Err(GetVmError::Hypervisor(message)),
    }
}

/// The service's answer to a deletion whose hypervisor answered `outcome`.
pub open spec fn delete_answer(outcome: Result<bool, String>) -> Result<(), DeleteVmError> {
    match outcome {
        Ok(true) => Ok(()),
        Ok(false) => Err(DeleteVmError::NotFound),
        Err(message) => Err(DeleteVmError::Hypervisor(message)),
    }
}

/// The service's answer to a listing whose hypervisor answered `outcome`.
pub open spec fn list_answer(outcome: Result<Vec<Vm>, String>) -> Result<Vec<Vm>, ListVmsError> {
    match outcome {
        Ok(vms) => Ok(vms),
        Err(message) => Err(ListVmsError::Hypervisor(message)),
    }
}

/// The service's answer to a lookup, given the hypervisor's.
pub fn finish_get(outcome: Result<Option<Vm>, String>) -> (r: Result<Vm, GetVmError>)
    ensures
        match outcome {
            Ok(Some(vm)) => r == Ok::<Vm, GetVmError>(vm),
            Ok(None) => r == Err::<Vm, GetVmError>(GetVmError::NotFound),
            Err(message) => r == Err::<Vm, GetVmError>(GetVmError::Hypervisor(message)),
        },
{
    match outcome {
        Ok(Some(vm)) => Ok(vm),
        Ok(None) => Err(GetVmError::NotFound),
        Err(message) => Err(GetVmError::Hypervisor(message)),
    }
}

/// The service's answer to a deletion, given the hypervisor's.
pub fn finish_delete(outcome: Result<bool, String>) -> (r: Result<(), DeleteVmError>)
    ensures
        match outcome {
            Ok(true) => r == Ok::<(), DeleteVmError>(()),
            Ok(false) => r == Err::<(), DeleteVmError>(DeleteVmError::NotFound),
            Err(message) => r == Err::<(), DeleteVmError>(DeleteVmError::Hypervisor(message)),
        },
{
    match outcome {
        Ok(true) => Ok(()),
        Ok(false) => Err(DeleteVmError::NotFound),
        Err(message) => Err(DeleteVmError::Hypervisor(message)),
    }
}

/// The service's answer to a listing, given the hypervisor's.
pub fn finish_list(outcome: Result<Vec<Vm>, String>) -> (r: Result<Vec<Vm>, ListVmsError>)
    ensures
        match outcome {
            Ok(vms) => r == Ok::<Vec<Vm>, ListVmsError>(vms),
            Err(message) => r == Err::<Vec<Vm>, ListVmsError>(ListVmsError::Hypervisor(message)),
        },
{
    match outcome {
        Ok(vms) => Ok(vms),
        Err(message) => Err(ListVmsError::Hypervisor(message)),
    }
}

/// The VM service over a hypervisor.
pub struct VmService<H: Hypervisor> {
    hypervisor: H,
}

impl<H: Hypervisor> VmService<H> {
    /// The hypervisor the service sends requests to.
    pub closed spec fn backend(&self) -> H {
        self.hypervisor
    }

    pub fn new(hypervisor: H) -> (r: Self)
        ensures
            r.backend() == hypervisor,
    {
        VmService { hypervisor }
    }

    /// Creates a virtual machine. A request that breaks a rule is refused with that
    /// rule's error before the hypervisor sees it; otherwise the hypervisor gets the
    /// request with its name trimmed, and the answer is the hypervisor's, its
    /// refusals turned into the service's errors.
    pub fn create_vm(&self, spec: CreateVmSpec) -> (r: Result<Vm, CreateVmError>)
        ensures
            create_request_error(spec) matches Some(e) ==> r == Err::<Vm, CreateVmError>(e),
            create_request_error(spec) is None ==> exists|
                prepared: CreateVmSpec,
                outcome: Result<Vm, HypervisorCreateError>,
            |
                normalized_request(spec, prepared) && call_ensures(
                    H::create_vm,
                    (&self.backend(), prepared),
                    outcome,
                ) && r == create_answer(outcome),
    {
        match prepare_create(spec) {
            Err(e) => Err(e),
            Ok(prepared) => {
                let ghost handed = prepared;
                let outcome = self.hypervisor.create_vm(prepared);
                let ghost answered = outcome;
                let r = finish_create(outcome);
                assert(normalized_request(spec, handed) && call_ensures(
                    H::create_vm,
                    (&self.backend(), handed),
                    answered,
                ) && r == create_answer(answered));
                r
            },
        }
    }

    /// Lists the virtual machines: the hypervisor's list, or its failure as the
    /// service's error.
    pub fn list_vms(&self) -> (r: Result<Vec<Vm>, ListVmsError>)
        ensures
            exists|outcome: Result<Vec<Vm>, String>|
                call_ensures(H::list_vms, (&self.backend(),), outcome) && r == list_answer(
                    outcome,
                ),
    {
        let outcome = self.hypervisor.list_vms();
        let ghost answered = outcome;
        let r = finish_list(outcome);
        assert(call_ensures(H::list_vms, (&self.backend(),), answered) && r == list_answer(answered));
        r
    }

    /// Returns the virtual machine with the given identifier; `NotFound` when the
    /// hypervisor has none. The hypervisor is asked for `id`.
    pub fn get_vm(&self, id: VmId) -> (r: Result<Vm, GetVmError>)
        ensures
            exists|outcome: Result<Option<Vm>, String>|
                call_ensures(H::get_vm, (&self.backend(), id), outcome) && r == get_answer(
                    outcome,
                ),
    {
        let outcome = self.hypervisor.get_vm(id);
        let ghost answered = outcome;
        let r = finish_get(outcome);
        assert(call_ensures(H::get_vm, (&self.backend(), id), answered) && r == get_answer(answered));
        r
    }

    /// Deletes the virtual machine with the given identifier; `NotFound` when the
    /// hypervisor has none. The hypervisor is asked to delete `id`.
    pub fn delete_vm(&self, id: VmId) -> (r: Result<(), DeleteVmError>)
        ensures
            exists|outcome: Result<bool, String>|
                call_ensures(H::delete_vm, (&self.backend(), id), outcome) && r == delete_answer(
                    outcome,
                ),
    {
        let outcome = self.hypervisor.delete_vm(id);
        let ghost answered = outcome;
        let r = finish_delete(outcome);
        assert(call_ensures(H::delete_vm, (&self.backend(), id), answered) && r == delete_answer(
            answered,
        ));
        r
    }
}

} // verus!
