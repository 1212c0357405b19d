use celebrimbor::application::{HypervisorCreateError, VmService};
use celebrimbor::domain::{CreateVmSpec, VmState};
use celebrimbor::hypervisor::InMemoryHypervisor;

fn spec(name: &str, disk_gib: u64, image: Option<&str>) -> CreateVmSpec {
    CreateVmSpec {
        name: name.to_owned(),
        memory_mib: 1024,
        disk_gib,
        vcpus: 2,
        image: image.map(|i| i.to_owned()),
    }
}

#[test]
fn in_memory_creates_a_running_machine_with_defaults() {
    let mut store = InMemoryHypervisor::new();
    let vm = store.create_vm(spec("annatar", 8, None)).unwrap();
    assert_eq!(vm.name, "annatar");
    assert_eq!(vm.state, VmState::Running);
    assert_eq!(vm.resources.memory_mib, 1024);
    assert_eq!(vm.resources.vcpus, 2);
    assert_eq!(vm.resources.disk.capacity_bytes, 8 * 1024 * 1024 * 1024);
    assert_eq!(vm.resources.disk.allocated_bytes, 0);
    assert_eq!(vm.resources.disk.format.as_deref(), Some("qcow2"));
    assert_eq!(vm.image.name.as_deref(), Some("ubuntu-24.04-arm64.qcow2"));
    assert_eq!(vm.network.ip_address, None);
    assert_eq!(vm.network.mac_address, None);
    assert_eq!(vm.metadata.architecture.as_deref(), Some("aarch64"));
    assert_eq!(vm.metadata.ssh_user.as_deref(), Some("ubuntu"));
    let uuid = uuid::Uuid::from_u128(vm.id);
    assert_eq!(uuid.get_version_num(), 4);
}

#[test]
fn in_memory_keeps_the_requested_image() {
    let mut store = InMemoryHypervisor::new();
    let vm = store.create_vm(spec("a", 4, Some("debian.qcow2"))).unwrap();
    assert_eq!(vm.image.name.as_deref(), Some("debian.qcow2"));
}

#[test]
fn in_memory_finds_what_it_created_and_forgets_what_it_deleted() {
    let mut store = InMemoryHypervisor::new();
    let a = store.create_vm(spec("a", 4, None)).unwrap();
    let b = store.create_vm(spec("b", 5, None)).unwrap();
    assert_eq!(store.get_vm(a.id), Some(a.clone()));
    assert_eq!(store.get_vm(b.id), Some(b.clone()));
    assert!(store.delete_vm(a.id));
    assert_eq!(store.get_vm(a.id), None);
    assert!(!store.delete_vm(a.id));
    assert_eq!(store.get_vm(b.id), Some(b));
}

#[test]
fn in_memory_refuses_a_name_in_use_and_changes_nothing() {
    let mut store = InMemoryHypervisor::new();
    let a = store.create_vm(spec("a", 4, None)).unwrap();
    assert_eq!(store.create_vm(spec("a", 9, Some("x"))), Err(HypervisorCreateError::NameAlreadyExists));
    assert_eq!(store.list_vms(), vec![a.clone()]);
    assert!(store.delete_vm(a.id));
    assert!(store.create_vm(spec("a", 9, None)).is_ok());
}

#[test]
fn in_memory_lists_every_machine_in_identifier_order() {
    let mut store = InMemoryHypervisor::new();
    assert!(store.list_vms().is_empty());
    let mut ids = Vec::new();
    for name in ["e", "d", "c", "b", "a", "f", "g", "h"] {
        ids.push(store.create_vm(spec(name, 4, None)).unwrap().id);
    }
    let listed = store.list_vms();
    assert_eq!(listed.len(), 8);
    assert!(listed.windows(2).all(|pair| pair[0].id < pair[1].id));
    ids.sort();
    assert_eq!(listed.iter().map(|vm| vm.id).collect::<Vec<_>>(), ids);
    let uuids: Vec<uuid::Uuid> = listed.iter().map(|vm| uuid::Uuid::from_u128(vm.id)).collect();
    assert!(uuids.windows(2).all(|pair| pair[0] < pair[1]));
}

#[test]
fn in_memory_capacity_is_in_bytes_at_the_largest_disk() {
    let mut store = InMemoryHypervisor::new();
    let vm = store.create_vm(spec("big", u64::MAX / 1073741824, None)).unwrap();
    assert_eq!(vm.resources.disk.capacity_bytes, (u64::MAX / 1073741824) * 1073741824);
}

#[test]
fn in_memory_delete_undoes_create() {
    let mut store = InMemoryHypervisor::new();
    let a = store.create_vm(spec("a", 4, None)).unwrap();
    let before = store.list_vms();
    let b = store.create_vm(spec("b", 6, None)).unwrap();
    assert_eq!(store.list_vms().len(), 2);
    assert!(store.delete_vm(b.id));
    assert_eq!(store.list_vms(), before);
    assert_eq!(store.get_vm(a.id), Some(a));
}

#[test]
fn in_memory_refuses_a_taken_name_whatever_the_disk() {
    let mut store = InMemoryHypervisor::new();
    let a = store.create_vm(spec("a", 4, None)).unwrap();
    assert!(store.has_name(&"a".to_owned()));
    assert!(!store.has_name(&"b".to_owned()));
    assert_eq!(store.create_vm(spec("a", u64::MAX, None)), Err(HypervisorCreateError::NameAlreadyExists));
    assert_eq!(store.list_vms(), vec![a]);
}

struct Locked(std::sync::Mutex<InMemoryHypervisor>);

impl celebrimbor::application::Hypervisor for Locked {
    fn create_vm(&self, spec: CreateVmSpec) -> Result<celebrimbor::domain::Vm, HypervisorCreateError> {
        self.0.lock().unwrap().create_vm(spec)
    }
    fn list_vms(&self) -> Result<Vec<celebrimbor::domain::Vm>, String> {
        Ok(self.0.lock().unwrap().list_vms())
    }
    fn get_vm(&self, id: celebrimbor::domain::VmId) -> Result<Option<celebrimbor::domain::Vm>, String> {
        Ok(self.0.lock().unwrap().get_vm(id))
    }
    fn delete_vm(&self, id: celebrimbor::domain::VmId) -> Result<bool, String> {
        Ok(self.0.lock().unwrap().delete_vm(id))
    }
}

#[test]
fn service_over_in_memory_store_trims_and_returns_the_stored_machine() {
    let service = VmService::new(Locked(std::sync::Mutex::new(InMemoryHypervisor::new())));
    let vm = service
        .create_vm(CreateVmSpec {
            name: "  annatar\n".to_owned(),
            memory_mib: 128,
            disk_gib: 10,
            vcpus: 4,
            image: Some("ubuntu.qcow2".to_owned()),
        })
        .unwrap();
    assert_eq!(vm.name, "annatar");
    assert_eq!(vm.resources.memory_mib, 128);
    assert_eq!(vm.resources.vcpus, 4);
    assert_eq!(vm.resources.disk.capacity_bytes, 10737418240);
    assert_eq!(vm.image.name, Some("ubuntu.qcow2".to_owned()));
    assert_eq!(service.get_vm(vm.id).unwrap(), vm);
}

#[test]
fn in_memory_stores_a_new_machine_under_the_given_id() {
    let mut store = InMemoryHypervisor::new();
    let vm = store.store_new_vm(spec("a", 4, None), 7);
    assert_eq!(vm.id, 7);
    assert_eq!(store.get_vm(7), Some(vm));
    let drawn = store.create_vm(spec("b", 4, None)).unwrap();
    assert_eq!(uuid::Uuid::from_u128(drawn.id).get_version_num(), 4);
    assert_eq!((drawn.id >> 62) & 0x3, 2);
}

#[test]
fn in_memory_machine_stays_found_across_other_calls() {
    let mut store = InMemoryHypervisor::new();
    let a = store.create_vm(spec("a", 4, None)).unwrap();
    let b = store.create_vm(spec("b", 4, None)).unwrap();
    assert!(store.create_vm(spec("a", 5, None)).is_err());
    let _ = store.list_vms();
    assert!(store.delete_vm(b.id));
    let _c = store.create_vm(spec("c", 6, None)).unwrap();
    assert_eq!(store.get_vm(a.id), Some(a));
}

#[test]
fn service_over_in_memory_store_refuses_before_storing() {
    let service = VmService::new(Locked(std::sync::Mutex::new(InMemoryHypervisor::new())));
    let refused = service.create_vm(CreateVmSpec {
        name: "annatar".to_owned(),
        memory_mib: 2049,
        disk_gib: 11,
        vcpus: 5,
        image: Some(String::new()),
    });
    assert_eq!(refused, Err(celebrimbor::application::CreateVmError::InvalidMemory));
    assert!(service.list_vms().unwrap().is_empty());
}
