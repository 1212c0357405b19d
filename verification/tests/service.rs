use std::sync::Mutex;

use celebrimbor::application::{
    prepare_create, CreateVmError, DeleteVmError, GetVmError, Hypervisor, HypervisorCreateError,
    ListVmsError, VmService,
};
use celebrimbor::domain::{CreateVmSpec, Disk, Image, Metadata, Network, Vm, VmId, VmResources, VmState};

fn vm(id: VmId, name: &str) -> Vm {
    Vm {
        id,
        name: name.to_owned(),
        state: VmState::Running,
        resources: VmResources {
            memory_mib: 512,
            vcpus: 1,
            disk: Disk { capacity_bytes: 0, allocated_bytes: 0, format: None },
        },
        image: Image { name: None },
        network: Network { ip_address: None, mac_address: None },
        metadata: Metadata { architecture: None, ssh_user: None },
    }
}

/// A hypervisor that records the requests it receives and answers as scripted.
struct Scripted {
    received: Mutex<Vec<CreateVmSpec>>,
    create: fn(&CreateVmSpec) -> Result<Vm, HypervisorCreateError>,
    list: Result<Vec<Vm>, String>,
    get: Result<Option<Vm>, String>,
    delete: Result<bool, String>,
}

impl Scripted {
    fn accepting() -> Self {
        Scripted {
            received: Mutex::new(Vec::new()),
            create: |spec| Ok(vm(7, &spec.name)),
            list: Ok(vec![vm(1, "a"), vm(2, "b")]),
            get: Ok(Some(vm(3, "c"))),
            delete: Ok(true),
        }
    }
}

impl Hypervisor for Scripted {
    fn create_vm(&self, spec: CreateVmSpec) -> Result<Vm, HypervisorCreateError> {
        let answer = (self.create)(&spec);
        self.received.lock().unwrap().push(spec);
        answer
    }

    fn list_vms(&self) -> Result<Vec<Vm>, String> {
        self.list.clone()
    }

    fn get_vm(&self, _id: VmId) -> Result<Option<Vm>, String> {
        self.get.clone()
    }

    fn delete_vm(&self, _id: VmId) -> Result<bool, String> {
        self.delete.clone()
    }
}

fn spec(name: &str, memory_mib: u64, vcpus: u32, disk_gib: u64, image: Option<&str>) -> CreateVmSpec {
    CreateVmSpec {
        name: name.to_owned(),
        memory_mib,
        disk_gib,
        vcpus,
        image: image.map(|i| i.to_owned()),
    }
}

fn refused(request: CreateVmSpec) -> CreateVmError {
    let service = VmService::new(Scripted::accepting());
    let error = service.create_vm(request).unwrap_err();
    error
}

#[test]
fn service_trims_the_name_before_the_hypervisor_sees_it() {
    let service = VmService::new(Scripted::accepting());
    let created = service.create_vm(spec("  annatar\t\n", 512, 1, 8, None)).unwrap();
    assert_eq!(created.name, "annatar");
}

#[test]
fn service_refuses_bad_names() {
    for name in ["", "   ", "has space", "slash/name", "ünïcode", "semi;colon"] {
        assert_eq!(refused(spec(name, 512, 1, 8, None)), CreateVmError::InvalidName, "{name:?}");
    }
    for name in ["a", "A-b_c.d", "0", "..."] {
        assert!(prepare_create(spec(name, 512, 1, 8, None)).is_ok(), "{name:?}");
    }
}

#[test]
fn service_checks_memory_vcpus_and_disk_bounds() {
    assert_eq!(refused(spec("a", 127, 1, 8, None)), CreateVmError::InvalidMemory);
    assert_eq!(refused(spec("a", 2049, 1, 8, None)), CreateVmError::InvalidMemory);
    assert!(prepare_create(spec("a", 128, 1, 8, None)).is_ok());
    assert!(prepare_create(spec("a", 2048, 1, 8, None)).is_ok());
    assert_eq!(refused(spec("a", 512, 0, 8, None)), CreateVmError::InvalidVcpus);
    assert_eq!(refused(spec("a", 512, 5, 8, None)), CreateVmError::InvalidVcpus);
    assert!(prepare_create(spec("a", 512, 4, 8, None)).is_ok());
    assert_eq!(refused(spec("a", 512, 1, 3, None)), CreateVmError::InvalidStorage);
    assert_eq!(refused(spec("a", 512, 1, 11, None)), CreateVmError::InvalidStorage);
    assert!(prepare_create(spec("a", 512, 1, 4, None)).is_ok());
    assert!(prepare_create(spec("a", 512, 1, 10, None)).is_ok());
}

#[test]
fn service_checks_the_image_name_untrimmed() {
    assert_eq!(refused(spec("a", 512, 1, 8, Some(""))), CreateVmError::InvalidImage);
    assert_eq!(refused(spec("a", 512, 1, 8, Some(" img"))), CreateVmError::InvalidImage);
    assert_eq!(refused(spec("a", 512, 1, 8, Some("../etc"))), CreateVmError::InvalidImage);
    assert!(prepare_create(spec("a", 512, 1, 8, Some("ubuntu-24.04.qcow2"))).is_ok());
}

#[test]
fn service_reports_the_first_broken_rule() {
    assert_eq!(refused(spec("", 1, 0, 0, Some(""))), CreateVmError::InvalidName);
    assert_eq!(refused(spec("a", 1, 0, 0, Some(""))), CreateVmError::InvalidMemory);
    assert_eq!(refused(spec("a", 512, 0, 0, Some(""))), CreateVmError::InvalidVcpus);
    assert_eq!(refused(spec("a", 512, 1, 0, Some(""))), CreateVmError::InvalidStorage);
}

#[test]
fn service_sends_nothing_to_the_hypervisor_for_a_refused_request() {
    let service = VmService::new(Scripted::accepting());
    let _ = service.create_vm(spec("bad name", 512, 1, 8, None));
    let _ = service.create_vm(spec("a", 4096, 1, 8, None));
    let created = service.create_vm(spec(" ok ", 1024, 2, 10, Some("img"))).unwrap();
    assert_eq!(created.id, 7);
    let prepared = prepare_create(spec(" ok ", 1024, 2, 10, Some("img"))).unwrap();
    assert_eq!(prepared, spec("ok", 1024, 2, 10, Some("img")));
    assert_eq!(prepare_create(prepared.clone()).unwrap(), prepared);
}

#[test]
fn service_turns_hypervisor_refusals_into_its_errors() {
    let mut hypervisor = Scripted::accepting();
    hypervisor.create = |_| Err(HypervisorCreateError::NameAlreadyExists);
    assert_eq!(VmService::new(hypervisor).create_vm(spec("a", 512, 1, 8, None)).unwrap_err(), CreateVmError::NameAlreadyExists);
    let mut hypervisor = Scripted::accepting();
    hypervisor.create = |_| Err(HypervisorCreateError::ImageNotFound);
    assert_eq!(VmService::new(hypervisor).create_vm(spec("a", 512, 1, 8, None)).unwrap_err(), CreateVmError::ImageNotFound);
    let mut hypervisor = Scripted::accepting();
    hypervisor.create = |_| Err(HypervisorCreateError::Internal("boom".to_owned()));
    assert_eq!(
        VmService::new(hypervisor).create_vm(spec("a", 512, 1, 8, None)).unwrap_err(),
        CreateVmError::Hypervisor("boom".to_owned())
    );
}

#[test]
fn service_answers_lookups_listings_and_deletions() {
    let service = VmService::new(Scripted::accepting());
    assert_eq!(service.get_vm(3).unwrap().name, "c");
    assert_eq!(service.list_vms().unwrap().len(), 2);
    assert_eq!(service.delete_vm(3), Ok(()));

    let mut hypervisor = Scripted::accepting();
    hypervisor.get = Ok(None);
    hypervisor.delete = Ok(false);
    hypervisor.list = Err("down".to_owned());
    let service = VmService::new(hypervisor);
    assert_eq!(service.get_vm(3).unwrap_err(), GetVmError::NotFound);
    assert_eq!(service.delete_vm(3).unwrap_err(), DeleteVmError::NotFound);
    assert_eq!(service.list_vms().unwrap_err(), ListVmsError::Hypervisor("down".to_owned()));

    let mut hypervisor = Scripted::accepting();
    hypervisor.get = Err("gone".to_owned());
    hypervisor.delete = Err("stuck".to_owned());
    let service = VmService::new(hypervisor);
    assert_eq!(service.get_vm(3).unwrap_err(), GetVmError::Hypervisor("gone".to_owned()));
    assert_eq!(service.delete_vm(3).unwrap_err(), DeleteVmError::Hypervisor("stuck".to_owned()));
}
