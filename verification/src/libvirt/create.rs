//! The decisions of creating a machine on libvirt: which request to make next,
//! given what the previous one returned, and what to release when one fails.

use vstd::prelude::*;

use super::LibvirtHypervisor;
use super::storage::{image_path, image_path_text, volume_file_name, volume_file_text};
use super::xml::{domain_xml, domain_xml_text, volume_xml, DomainXmlSpec, VolumeXmlSpec};
use crate::application::HypervisorCreateError;
use crate::domain::{CreateVmSpec, Vm, VmId};
use crate::ids::{is_random_uuid, new_vm_id};

verus! {

/// Where a creation stands: which answer it waits for.
#[derive(Debug, Clone, Copy, PartialEq, Eq)]
pub enum CreateStage {
    Connecting,
    ListingDomains,
    CheckingImage,
    FindingPool,
    CreatingVolume,
    ReadingVolumePath,
    CreatingSeed,
    DefiningDomain,
    StartingDomain,
    DescribingDomain,
    Finished,
}

/// A creation in progress.
pub struct CreateState {
    pub stage: CreateStage,
    pub name: String,
    pub memory_mib: u64,
    pub disk_gib: u64,
    pub vcpus: u32,
    pub image: Option<String>,
    pub image_path: String,
    pub disk_path: String,
    pub id: VmId,
    pub seed_path: String,
}

/// The request to make next.
pub enum CreateAction {
    /// Open a connection to libvirt at `uri`.
    OpenConnection { uri: String },
    /// List all domains and read each one's name.
    ListDomainNames,
    /// Tell whether `path` is a regular file.
    CheckImageFile { path: String },
    /// Look up the storage pool named `pool`.
    LookupPool { pool: String },
    /// Create a volume in the pool from the description `xml`.
    CreateVolume { xml: String },
    /// Read the path of the volume just created.
    ReadVolumePath,
    /// Write the cloud-init seed of the machine `name` with identifier `id`.
    CreateSeed { id: VmId, name: String },
    /// Define a domain from the description `xml`.
    DefineDomain { xml: String },
    /// Start the domain just defined.
    StartDomain,
    /// Describe the domain just started.
    DescribeDomain,
    /// Stop: first undefine the domain, remove the seed image and delete the
    /// volume, as far as asked, ignoring their failures; then answer `outcome`.
    Finish {
        undefine_domain: bool,
        remove_seed: Option<String>,
        delete_volume: bool,
        outcome: Result<Vm, HypervisorCreateError>,
    },
}

/// The answer to the request made last.
pub enum CreateEvent {
    Opened(Result<(), String>),
    /// Each domain's name, `None` where it could not be read.
    DomainNames(Result<Vec<Option<String>>, String>),
    ImageIsFile(bool),
    PoolFound(Result<(), String>),
    VolumeCreated(Result<(), String>),
    VolumePath(Result<String, String>),
    SeedCreated(Result<String, String>),
    DomainDefined(Result<(), String>),
    DomainStarted(Result<(), String>),
    Described(Result<Vm, String>),
}

/// Whether a creation at `stage` waits for an answer of the kind of `e`.
pub open spec fn awaits(stage: CreateStage, e: CreateEvent) -> bool {
    match e {
        CreateEvent::Opened(_) => stage == CreateStage::Connecting,
        CreateEvent::DomainNames(_) => stage == CreateStage::ListingDomains,
        CreateEvent::ImageIsFile(_) => stage == CreateStage::CheckingImage,
        CreateEvent::PoolFound(_) => stage == CreateStage::FindingPool,
        CreateEvent::VolumeCreated(_) => stage == CreateStage::CreatingVolume,
        CreateEvent::VolumePath(_) => stage == CreateStage::ReadingVolumePath,
        CreateEvent::SeedCreated(_) => stage == CreateStage::CreatingSeed,
        CreateEvent::DomainDefined(_) => stage == CreateStage::DefiningDomain,
        CreateEvent::DomainStarted(_) => stage == CreateStage::StartingDomain,
        CreateEvent::Described(_) => stage == CreateStage::DescribingDomain,
    }
}

/// Whether the disk volume exists once a creation is at `stage`.
pub open spec fn volume_made(stage: CreateStage) -> bool {
    stage == CreateStage::ReadingVolumePath || stage == CreateStage::CreatingSeed || stage
        == CreateStage::DefiningDomain || stage == CreateStage::StartingDomain || stage
        == CreateStage::DescribingDomain
}

/// Whether the seed image exists once a creation is at `stage`.
pub open spec fn seed_made(stage: CreateStage) -> bool {
    stage == CreateStage::DefiningDomain || stage == CreateStage::StartingDomain || stage
        == CreateStage::DescribingDomain
}

/// Whether the domain is defined once a creation is at `stage`.
pub open spec fn domain_made(stage: CreateStage) -> bool {
    stage == CreateStage::StartingDomain || stage == CreateStage::DescribingDomain
}

/// Whether some listed domain is named `name`.
pub open spec fn name_listed(names: Seq<Option<String>>, name: Seq<char>) -> bool {
    exists|i: int| 0 <= i < names.len() && (#[trigger] names[i] matches Some(n) && n@ == name)
}

/// The creation stops with `outcome`, releasing what it made as the flags say.
pub open spec fn finishes(
    s2: CreateState,
    a: CreateAction,
    undefine: bool,
    remove_seed: Option<Seq<char>>,
    delete_volume: bool,
    outcome: Result<Vm, HypervisorCreateError>,
) -> bool {
    &&& s2.stage == CreateStage::Finished
    &&& a matches CreateAction::Finish { undefine_domain, remove_seed: rs, delete_volume: dv, outcome: o }
    &&& undefine_domain == undefine
    &&& crate::text::opt_view(rs) == remove_seed
    &&& dv == delete_volume
    &&& o == outcome
}

/// The creation moves to `stage` and keeps everything else.
pub open spec fn advances(s: CreateState, s2: CreateState, stage: CreateStage) -> bool {
    s2 == CreateState { stage, ..s }
}

/// One step of a creation: the next state and request after answer `e` at `s`.
pub open spec fn is_create_step(
    h: LibvirtHypervisor,
    s: CreateState,
    e: CreateEvent,
    s2: CreateState,
    a: CreateAction,
) -> bool {
    match e {
        CreateEvent::Opened(Err(m)) => finishes(
            s2,
            a,
            false,
            None,
            false,
            Err(HypervisorCreateError::Internal(m)),
        ),
        CreateEvent::Opened(Ok(_)) => advances(s, s2, CreateStage::ListingDomains) && a
            is ListDomainNames,
        CreateEvent::DomainNames(Err(m)) => finishes(
            s2,
            a,
            false,
            None,
            false,
            Err(HypervisorCreateError::Internal(m)),
        ),
        CreateEvent::DomainNames(Ok(names)) => if name_listed(names@, s.name@) {
            finishes(s2, a, false, None, false, Err(HypervisorCreateError::NameAlreadyExists))
        } else {
            &&& s2 == CreateState { stage: CreateStage::CheckingImage, image_path: s2.image_path, ..s }
            &&& s2.image_path@ == image_path_text(
                h.storage_dir(),
                match s.image {
                    Some(i) => i@,
                    None => h.default_image(),
                },
            )
            &&& a matches CreateAction::CheckImageFile { path } && path@ == s2.image_path@
        },
        CreateEvent::ImageIsFile(false) => finishes(
            s2,
            a,
            false,
            None,
            false,
            Err(HypervisorCreateError::ImageNotFound),
        ),
        CreateEvent::ImageIsFile(true) => advances(s, s2, CreateStage::FindingPool) && (a matches CreateAction::LookupPool { pool } && pool@ == h.storage_pool()),
        CreateEvent::PoolFound(Err(m)) => finishes(
            s2,
            a,
            false,
            None,
            false,
            Err(HypervisorCreateError::Internal(m)),
        ),
        CreateEvent::PoolFound(Ok(_)) => advances(s, s2, CreateStage::CreatingVolume) && (a matches CreateAction::CreateVolume { xml } && xml@ == super::xml::volume_xml_text(
            volume_file_text(s.name@),
            s.disk_gib,
            s.image_path@,
        )),
        CreateEvent::VolumeCreated(Err(m)) => finishes(
            s2,
            a,
            false,
            None,
            false,
            Err(HypervisorCreateError::Internal(m)),
        ),
        CreateEvent::VolumeCreated(Ok(_)) => advances(s, s2, CreateStage::ReadingVolumePath) && a
            is ReadVolumePath,
        CreateEvent::VolumePath(Err(m)) => finishes(
            s2,
            a,
            false,
            None,
            true,
            Err(HypervisorCreateError::Internal(m)),
        ),
        CreateEvent::VolumePath(Ok(path)) => {
            &&& s2 == CreateState { stage: CreateStage::CreatingSeed, disk_path: path, id: s2.id, ..s }
            &&& is_random_uuid(s2.id)
            &&& a matches CreateAction::CreateSeed { id, name } && id == s2.id && name@ == s.name@
        },
        CreateEvent::SeedCreated(Err(m)) => finishes(
            s2,
            a,
            false,
            None,
            true,
            Err(HypervisorCreateError::Internal(m)),
        ),
        CreateEvent::SeedCreated(Ok(path)) => {
            &&& s2 == CreateState { stage: CreateStage::DefiningDomain, seed_path: path, ..s }
            &&& a matches CreateAction::DefineDomain { xml } && xml@ == domain_xml_text(
                s.name@,
                s.id,
                s.memory_mib,
                s.vcpus,
                s.disk_path@,
                path@,
            )
        },
        CreateEvent::DomainDefined(Err(m)) => finishes(
            s2,
            a,
            false,
            Some(s.seed_path@),
            true,
            Err(HypervisorCreateError::Internal(m)),
        ),
        CreateEvent::DomainDefined(Ok(_)) => advances(s, s2, CreateStage::StartingDomain) && a
            is StartDomain,
        CreateEvent::DomainStarted(Err(m)) => finishes(
            s2,
            a,
            true,
            Some(s.seed_path@),
            true,
            Err(HypervisorCreateError::Internal(m)),
        ),
        CreateEvent::DomainStarted(Ok(_)) => advances(s, s2, CreateStage::DescribingDomain) && a
            is DescribeDomain,
        CreateEvent::Described(Err(m)) => finishes(
            s2,
            a,
            false,
            None,
            false,
            Err(HypervisorCreateError::Internal(m)),
        ),
        CreateEvent::Described(Ok(vm)) => finishes(s2, a, false, None, false, Ok(vm)),
    }
}

/// A creation that fails before its domain runs releases exactly what it made:
/// it undefines the domain if it defined it, removes the seed image if it wrote
/// it, and deletes the volume if it created it. A failure to describe the
/// running domain releases nothing.
pub proof fn law_failed_creation_releases_what_it_made(
    h: LibvirtHypervisor,
    s: CreateState,
    e: CreateEvent,
    s2: CreateState,
    a: CreateAction,
)
    requires
        awaits(s.stage, e),
        is_create_step(h, s, e, s2, a),
        a matches CreateAction::Finish { outcome, .. } && outcome is Err,
    ensures
        a matches CreateAction::Finish { undefine_domain, remove_seed, delete_volume, .. } && {
            if s.stage == CreateStage::DescribingDomain {
                !undefine_domain && remove_seed is None && !delete_volume
            } else {
                &&& undefine_domain == domain_made(s.stage)
                &&& delete_volume == volume_made(s.stage)
                &&& crate::text::opt_view(remove_seed) == (if seed_made(s.stage) {
                    Some(s.seed_path@)
                } else {
                    None
                })
            }
        },
{
}

/// A creation succeeds only with the description of the domain it started, and
/// then releases nothing.
pub proof fn law_created_vm_is_the_started_domain(
    h: LibvirtHypervisor,
    s: CreateState,
    e: CreateEvent,
    s2: CreateState,
    a: CreateAction,
)
    requires
        awaits(s.stage, e),
        is_create_step(h, s, e, s2, a),
        a matches CreateAction::Finish { outcome, .. } && outcome is Ok,
    ensures
        s.stage == CreateStage::DescribingDomain,
        e matches CreateEvent::Described(Ok(vm)) && (a matches CreateAction::Finish {
            undefine_domain,
            remove_seed,
            delete_volume,
            outcome,
        } && outcome == Ok::<Vm, HypervisorCreateError>(vm) && !undefine_domain && remove_seed is None
            && !delete_volume),
{
}

/// A creation is refused for its name exactly when a listed domain has that name,
/// and then nothing has been made.
pub proof fn law_taken_name_is_refused(
    h: LibvirtHypervisor,
    s: CreateState,
    names: Vec<Option<String>>,
    s2: CreateState,
    a: CreateAction,
)
    requires
        s.stage == CreateStage::ListingDomains,
        is_create_step(h, s, CreateEvent::DomainNames(Ok(names)), s2, a),
    ensures
        (a matches CreateAction::Finish { outcome, .. } && outcome == Err::<Vm, HypervisorCreateError>(
            HypervisorCreateError::NameAlreadyExists,
        )) <==> name_listed(names@, s.name@),
        name_listed(names@, s.name@) ==> (a matches CreateAction::Finish {
            undefine_domain,
            remove_seed,
            delete_volume,
            ..
        } && !undefine_domain && remove_seed is None && !delete_volume),
        forall|i: int|
            0 <= i < names@.len() && (#[trigger] names@[i]) is Some && names@[i].unwrap()@
                == s.name@ ==> (a matches CreateAction::Finish { outcome, .. } && outcome
                == Err::<Vm, HypervisorCreateError>(HypervisorCreateError::NameAlreadyExists)),
        (forall|i: int|
            0 <= i < names@.len() ==> !((#[trigger] names@[i]) is Some && names@[i].unwrap()@
                == s.name@)) ==> a is CheckImageFile,
{
    assert forall|i: int|
        0 <= i < names@.len() && (#[trigger] names@[i]) is Some && names@[i].unwrap()@
            == s.name@ implies name_listed(names@, s.name@) by {
        assert(names@[i] matches Some(n) && n@ == s.name@);
    }
    if name_listed(names@, s.name@) {
        let i = choose|i: int|
            0 <= i < names@.len() && (#[trigger] names@[i] matches Some(n) && n@ == s.name@);
        assert(names@[i] is Some && names@[i].unwrap()@ == s.name@);
    }
}

/// Once the seed is written, the domain that the creation defines is named after
/// the machine: its description opens with the domain header followed by
/// `<name>`, the requested name and `</name>`.
pub proof fn law_defined_domain_is_named_after_the_machine(
    h: LibvirtHypervisor,
    s: CreateState,
    seed: String,
    s2: CreateState,
    a: CreateAction,
)
    requires
        is_create_step(h, s, CreateEvent::SeedCreated(Ok(seed)), s2, a),
    ensures
        a matches CreateAction::DefineDomain { xml } && {
            let head = "<domain type=\"kvm\">\n<name>"@ + s.name@ + "</name>"@;
            &&& head.len() <= xml@.len()
            &&& xml@.subrange(0, head.len() as int) == head
        },
{
    reveal_strlit("<domain type=\"kvm\">\n<name>");
    reveal_strlit("</name>");
    reveal_strlit("</name>\n<uuid>");
    let xml = domain_xml_text(s.name@, s.id, s.memory_mib, s.vcpus, s.disk_path@, seed@);
    let head = "<domain type=\"kvm\">\n<name>"@ + s.name@ + "</name>"@;
    assert(xml.subrange(0, head.len() as int) =~= head);
}

fn finish(
    s: CreateState,
    undefine_domain: bool,
    remove_seed: bool,
    delete_volume: bool,
    outcome: Result<Vm, HypervisorCreateError>,
) -> (r: (CreateState, CreateAction))
    ensures
        finishes(
            r.0,
            r.1,
            undefine_domain,
            if remove_seed {
                Some(s.seed_path@)
            } else {
                None
            },
            delete_volume,
            outcome,
        ),
{
    let seed = if remove_seed {
        Some(s.seed_path.clone())
    } else {
        None
    };
    (
        CreateState { stage: CreateStage::Finished, ..s },
        CreateAction::Finish { undefine_domain, remove_seed: seed, delete_volume, outcome },
    )
}

fn is_listed(names: &Vec<Option<String>>, name: &String) -> (r: bool)
    ensures
        r == name_listed(names@, name@),
{
    let mut i: usize = 0;
    while i < names.len()
        invariant
            i <= names.len(),
            forall|j: int| 0 <= j < i ==> !(#[trigger] names@[j] matches Some(n) && n@ == name@),
        decreases names.len() - i,
    {
        match &names[i] {
            Some(n) => {
                if *n == *name {
                    return true;
                }
            },
            None => {},
        }
        i = i + 1;
    }
    false
}

impl LibvirtHypervisor {
    /// Starts creating a machine from `spec`: the first request opens a connection.
    pub fn create_start(&self, spec: CreateVmSpec) -> (r: (CreateState, CreateAction))
        ensures
            r.0.stage == CreateStage::Connecting,
            r.0.name == spec.name,
            r.0.memory_mib == spec.memory_mib,
            r.0.disk_gib == spec.disk_gib,
            r.0.vcpus == spec.vcpus,
            r.0.image == spec.image,
            r.1 matches CreateAction::OpenConnection { uri } && uri@ == self.uri(),
    {
        (
            CreateState {
                stage: CreateStage::Connecting,
                name: spec.name,
                memory_mib: spec.memory_mib,
                disk_gib: spec.disk_gib,
                vcpus: spec.vcpus,
                image: spec.image,
                image_path: String::new(),
                disk_path: String::new(),
                id: 0,
                seed_path: String::new(),
            },
            CreateAction::OpenConnection { uri: String::from_str(self.uri_str()) },
        )
    }

    /// The next state and request after answer `e`.
    pub fn create_step(&self, s: CreateState, e: CreateEvent) -> (r: (CreateState, CreateAction))
        requires
            awaits(s.stage, e),
        ensures
            is_create_step(*self, s, e, r.0, r.1),
    {
        match e {
            CreateEvent::Opened(Err(m)) => finish(
                s,
                false,
                false,
                false,
                Err(HypervisorCreateError::Internal(m)),
            ),
            CreateEvent::Opened(Ok(_)) => (
                CreateState { stage: CreateStage::ListingDomains, ..s },
                CreateAction::ListDomainNames,
            ),
            CreateEvent::DomainNames(Err(m)) => finish(
                s,
                false,
                false,
                false,
                Err(HypervisorCreateError::Internal(m)),
            ),
            CreateEvent::DomainNames(Ok(names)) => {
                if is_listed(&names, &s.name) {
                    finish(s, false, false, false, Err(HypervisorCreateError::NameAlreadyExists))
                } else {
                    let path = match &s.image {
                        Some(i) => image_path(self.storage_dir_str(), i.as_str()),
                        None => image_path(self.storage_dir_str(), self.default_image_str()),
                    };
                    let action = CreateAction::CheckImageFile { path: path.clone() };
                    (CreateState { stage: CreateStage::CheckingImage, image_path: path, ..s }, action)
                }
            },
            CreateEvent::ImageIsFile(false) => finish(
                s,
                false,
                false,
                false,
                Err(HypervisorCreateError::ImageNotFound),
            ),
            CreateEvent::ImageIsFile(true) => (
                CreateState { stage: CreateStage::FindingPool, ..s },
                CreateAction::LookupPool { pool: String::from_str(self.storage_pool_str()) },
            ),
            CreateEvent::PoolFound(Err(m)) => finish(
                s,
                false,
                false,
                false,
                Err(HypervisorCreateError::Internal(m)),
            ),
            CreateEvent::PoolFound(Ok(_)) => {
                let volume_name = volume_file_name(s.name.as_str());
                let xml = volume_xml(
                    VolumeXmlSpec {
                        volume_name: volume_name.as_str(),
                        disk_gib: s.disk_gib,
                        backing_path: s.image_path.as_str(),
                    },
                );
                (
                    CreateState { stage: CreateStage::CreatingVolume, ..s },
                    CreateAction::CreateVolume { xml },
                )
            },
            CreateEvent::VolumeCreated(Err(m)) => finish(
                s,
                false,
                false,
                false,
                Err(HypervisorCreateError::Internal(m)),
            ),
            CreateEvent::VolumeCreated(Ok(_)) => (
                CreateState { stage: CreateStage::ReadingVolumePath, ..s },
                CreateAction::ReadVolumePath,
            ),
            CreateEvent::VolumePath(Err(m)) => finish(
                s,
                false,
                false,
                true,
                Err(HypervisorCreateError::Internal(m)),
            ),
            CreateEvent::VolumePath(Ok(path)) => {
                let id = new_vm_id();
                let action = CreateAction::CreateSeed { id, name: s.name.clone() };
                (CreateState { stage: CreateStage::CreatingSeed, disk_path: path, id, ..s }, action)
            },
            CreateEvent::SeedCreated(Err(m)) => finish(
                s,
                false,
                false,
                true,
                Err(HypervisorCreateError::Internal(m)),
            ),
            CreateEvent::SeedCreated(Ok(path)) => {
                let xml = domain_xml(
                    DomainXmlSpec {
                        name: s.name.as_str(),
                        id: s.id,
                        memory_mib: s.memory_mib,
                        vcpus: s.vcpus,
                        disk_path: s.disk_path.as_str(),
                        seed_path: path.as_str(),
                    },
                );
                (
                    CreateState { stage: CreateStage::DefiningDomain, seed_path: path, ..s },
                    CreateAction::DefineDomain { xml },
                )
            },
            CreateEvent::DomainDefined(Err(m)) => finish(
                s,
                false,
                true,
                true,
                Err(HypervisorCreateError::Internal(m)),
            ),
            CreateEvent::DomainDefined(Ok(_)) => (
                CreateState { stage: CreateStage::StartingDomain, ..s },
                CreateAction::StartDomain,
            ),
            CreateEvent::DomainStarted(Err(m)) => finish(
                s,
                true,
                true,
                true,
                Err(HypervisorCreateError::Internal(m)),
            ),
            CreateEvent::DomainStarted(Ok(_)) => (
                CreateState { stage: CreateStage::DescribingDomain, ..s },
                CreateAction::DescribeDomain,
            ),
            CreateEvent::Described(Err(m)) => finish(
                s,
                false,
                false,
                false,
                Err(HypervisorCreateError::Internal(m)),
            ),
            CreateEvent::Described(Ok(vm)) => finish(s, false, false, false, Ok(vm)),
        }
    }
}

} // verus!
