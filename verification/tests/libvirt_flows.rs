use celebrimbor::application::HypervisorCreateError;
use celebrimbor::domain::{CreateVmSpec, Disk, Image, Metadata, Network, Vm, VmResources, VmState};
use celebrimbor::libvirt::cloud_init::{
    cloud_localds_failure, meta_data, seed_directory_name, seed_path, seed_step_error,
    ssh_public_key, user_data, SeedStep,
};
use celebrimbor::libvirt::create::{CreateAction, CreateEvent, CreateStage, CreateState};
use celebrimbor::libvirt::domain::{first_ipv4, vm_from_domain, vm_state, DomainFacts, InterfaceAddress};
use celebrimbor::libvirt::lookup::{lookup_step, LookupAction, LookupEvent};
use celebrimbor::libvirt::remove::{remove_start, RemoveAction, RemoveEvent};
use celebrimbor::libvirt::storage::{image_path, volume_file_name, volumes_to_delete};
use celebrimbor::libvirt::LibvirtHypervisor;

fn hypervisor() -> LibvirtHypervisor {
    LibvirtHypervisor::new(
        "qemu:///system".to_owned(),
        "celebrimbor".to_owned(),
        "/var/lib/libvirt/images/celebrimbor".to_owned(),
        "ubuntu-24.04-arm64.qcow2".to_owned(),
        "/home/pi/key.pub".to_owned(),
    )
}

fn spec(image: Option<&str>) -> CreateVmSpec {
    CreateVmSpec {
        name: "annatar".to_owned(),
        memory_mib: 1024,
        disk_gib: 8,
        vcpus: 2,
        image: image.map(|i| i.to_owned()),
    }
}

fn some_vm() -> Vm {
    Vm {
        id: 42,
        name: "annatar".to_owned(),
        state: VmState::Running,
        resources: VmResources {
            memory_mib: 1024,
            vcpus: 2,
            disk: Disk { capacity_bytes: 1, allocated_bytes: 0, format: None },
        },
        image: Image { name: None },
        network: Network { ip_address: None, mac_address: None },
        metadata: Metadata { architecture: None, ssh_user: None },
    }
}

/// Steps a creation through `events`; returns the last state and action.
fn run(events: Vec<CreateEvent>, image: Option<&str>) -> (CreateState, CreateAction, Vec<String>) {
    let h = hypervisor();
    let (mut state, mut action) = h.create_start(spec(image));
    let mut kinds = Vec::new();
    for event in events {
        kinds.push(describe(&action));
        (state, action) = h.create_step(state, event);
    }
    (state, action, kinds)
}

fn describe(action: &CreateAction) -> String {
    match action {
        CreateAction::OpenConnection { uri } => format!("open {uri}"),
        CreateAction::ListDomainNames => "list".to_owned(),
        CreateAction::CheckImageFile { path } => format!("check {path}"),
        CreateAction::LookupPool { pool } => format!("pool {pool}"),
        CreateAction::CreateVolume { .. } => "volume".to_owned(),
        CreateAction::ReadVolumePath => "path".to_owned(),
        CreateAction::CreateSeed { name, .. } => format!("seed {name}"),
        CreateAction::DefineDomain { .. } => "define".to_owned(),
        CreateAction::StartDomain => "start".to_owned(),
        CreateAction::DescribeDomain => "describe".to_owned(),
        CreateAction::Finish { .. } => "finish".to_owned(),
    }
}

fn happy_events() -> Vec<CreateEvent> {
    vec![
        CreateEvent::Opened(Ok(())),
        CreateEvent::DomainNames(Ok(vec![Some("other".to_owned()), None])),
        CreateEvent::ImageIsFile(true),
        CreateEvent::PoolFound(Ok(())),
        CreateEvent::VolumeCreated(Ok(())),
        CreateEvent::VolumePath(Ok("/pool/annatar.qcow2".to_owned())),
        CreateEvent::SeedCreated(Ok("/pool/annatar-seed.img".to_owned())),
        CreateEvent::DomainDefined(Ok(())),
        CreateEvent::DomainStarted(Ok(())),
        CreateEvent::Described(Ok(some_vm())),
    ]
}

fn finish_of(action: CreateAction) -> (bool, Option<String>, bool, Result<Vm, HypervisorCreateError>) {
    match action {
        CreateAction::Finish { undefine_domain, remove_seed, delete_volume, outcome } => {
            (undefine_domain, remove_seed, delete_volume, outcome)
        }
        other => panic!("expected the end, got {}", describe(&other)),
    }
}

#[test]
fn creation_walks_through_every_request_in_order() {
    let (state, action, kinds) = run(happy_events(), None);
    assert_eq!(
        kinds,
        vec![
            "open qemu:///system",
            "list",
            "check /var/lib/libvirt/images/celebrimbor/src/ubuntu-24.04-arm64.qcow2",
            "pool celebrimbor",
            "volume",
            "path",
            "seed annatar",
            "define",
            "start",
            "describe",
        ]
    );
    assert_eq!(state.stage, CreateStage::Finished);
    assert_eq!(finish_of(action), (false, None, false, Ok(some_vm())));
}

#[test]
fn creation_describes_the_volume_and_domain_it_asks_for() {
    let h = hypervisor();
    let (mut state, mut action) = h.create_start(spec(Some("debian.qcow2")));
    let mut volume_xml = String::new();
    let mut domain_xml = String::new();
    let mut seed_id = 0;
    for event in happy_events() {
        match &action {
            CreateAction::CreateVolume { xml } => volume_xml = xml.clone(),
            CreateAction::DefineDomain { xml } => domain_xml = xml.clone(),
            CreateAction::CreateSeed { id, .. } => seed_id = *id,
            _ => {}
        }
        (state, action) = h.create_step(state, event);
    }
    assert!(volume_xml.contains("<name>annatar.qcow2</name>"));
    assert!(volume_xml.contains("<capacity unit=\"GiB\">8</capacity>"));
    assert!(volume_xml.contains("<path>/var/lib/libvirt/images/celebrimbor/src/debian.qcow2</path>"));
    assert!(domain_xml.contains(&format!("<uuid>{}</uuid>", uuid::Uuid::from_u128(seed_id))));
    assert!(domain_xml.contains("<source file=\"/pool/annatar.qcow2\"/>"));
    assert!(domain_xml.contains("<source file=\"/pool/annatar-seed.img\"/>"));
    assert!(domain_xml.contains("<memory unit=\"MiB\">1024</memory>"));
    assert!(domain_xml.contains("<vcpu placement=\"static\">2</vcpu>"));
    assert_eq!(state.id, seed_id);
}

#[test]
fn creation_refuses_a_name_in_use() {
    let mut events = happy_events();
    events.truncate(2);
    events[1] = CreateEvent::DomainNames(Ok(vec![None, Some("annatar".to_owned())]));
    let (_, action, _) = run(events, None);
    assert_eq!(finish_of(action), (false, None, false, Err(HypervisorCreateError::NameAlreadyExists)));
}

#[test]
fn creation_refuses_a_missing_image() {
    let mut events = happy_events();
    events.truncate(3);
    events[2] = CreateEvent::ImageIsFile(false);
    let (_, action, _) = run(events, None);
    assert_eq!(finish_of(action), (false, None, false, Err(HypervisorCreateError::ImageNotFound)));
}

/// Fails the creation at step `at` with `event`; returns what it releases.
fn fail_at(at: usize, event: CreateEvent) -> (bool, Option<String>, bool, Result<Vm, HypervisorCreateError>) {
    let mut events = happy_events();
    events.truncate(at + 1);
    events[at] = event;
    finish_of(run(events, None).1)
}

#[test]
fn creation_releases_what_it_made_when_a_step_fails() {
    let internal = |m: &str| Err(HypervisorCreateError::Internal(m.to_owned()));
    assert_eq!(fail_at(0, CreateEvent::Opened(Err("e0".to_owned()))), (false, None, false, internal("e0")));
    assert_eq!(fail_at(1, CreateEvent::DomainNames(Err("e1".to_owned()))), (false, None, false, internal("e1")));
    assert_eq!(fail_at(3, CreateEvent::PoolFound(Err("e3".to_owned()))), (false, None, false, internal("e3")));
    assert_eq!(fail_at(4, CreateEvent::VolumeCreated(Err("e4".to_owned()))), (false, None, false, internal("e4")));
    assert_eq!(fail_at(5, CreateEvent::VolumePath(Err("e5".to_owned()))), (false, None, true, internal("e5")));
    assert_eq!(fail_at(6, CreateEvent::SeedCreated(Err("e6".to_owned()))), (false, None, true, internal("e6")));
    assert_eq!(
        fail_at(7, CreateEvent::DomainDefined(Err("e7".to_owned()))),
        (false, Some("/pool/annatar-seed.img".to_owned()), true, internal("e7"))
    );
    assert_eq!(
        fail_at(8, CreateEvent::DomainStarted(Err("e8".to_owned()))),
        (true, Some("/pool/annatar-seed.img".to_owned()), true, internal("e8"))
    );
    assert_eq!(fail_at(9, CreateEvent::Described(Err("e9".to_owned()))), (false, None, false, internal("e9")));
}

#[test]
fn lookup_finds_the_first_domain_with_the_identifier() {
    let h = hypervisor();
    let (mut state, mut action) = h.lookup_start(9);
    let events = vec![
        LookupEvent::Opened(Ok(())),
        LookupEvent::Domains(Ok(3)),
        LookupEvent::DomainId(Ok(4)),
        LookupEvent::DomainId(Ok(9)),
    ];
    let mut reads = Vec::new();
    for event in events {
        if let LookupAction::ReadDomainId { index } = &action {
            reads.push(*index);
        }
        (state, action) = lookup_step(state, event);
    }
    assert_eq!(reads, vec![0, 1]);
    assert!(matches!(action, LookupAction::Found { index: 1 }));
}

#[test]
fn lookup_reports_absence_and_failures() {
    let h = hypervisor();
    let (state, _) = h.lookup_start(9);
    let (state, _) = lookup_step(state, LookupEvent::Opened(Ok(())));
    let (_, action) = lookup_step(state, LookupEvent::Domains(Ok(0)));
    assert!(matches!(action, LookupAction::NotFound));

    let (state, _) = h.lookup_start(9);
    let (state, _) = lookup_step(state, LookupEvent::Opened(Ok(())));
    let (state, _) = lookup_step(state, LookupEvent::Domains(Ok(2)));
    let (state, _) = lookup_step(state, LookupEvent::DomainId(Ok(1)));
    let (_, action) = lookup_step(state, LookupEvent::DomainId(Ok(2)));
    assert!(matches!(action, LookupAction::NotFound));

    let (state, _) = h.lookup_start(9);
    let (_, action) = lookup_step(state, LookupEvent::Opened(Err("refused".to_owned())));
    assert!(matches!(action, LookupAction::Fail { message } if message == "refused"));

    let (state, _) = h.lookup_start(9);
    let (state, _) = lookup_step(state, LookupEvent::Opened(Ok(())));
    let (state, _) = lookup_step(state, LookupEvent::Domains(Ok(2)));
    let (_, action) = lookup_step(state, LookupEvent::DomainId(Err("no uuid".to_owned())));
    assert!(matches!(action, LookupAction::Fail { message } if message == "no uuid"));
}

fn remove_run(events: Vec<RemoveEvent>) -> (Vec<String>, RemoveAction) {
    let h = hypervisor();
    let (mut state, mut action) = remove_start(3);
    let mut log = Vec::new();
    for event in events {
        log.push(match &action {
            RemoveAction::ReadName { index } => format!("name {index}"),
            RemoveAction::CheckActive { index } => format!("active {index}"),
            RemoveAction::Destroy { index } => format!("destroy {index}"),
            RemoveAction::Undefine { index } => format!("undefine {index}"),
            RemoveAction::LookupPool { pool } => format!("pool {pool}"),
            RemoveAction::ListVolumes => "volumes".to_owned(),
            RemoveAction::DeleteVolume { name } => format!("delete {name}"),
            RemoveAction::Finish { .. } => "finish".to_owned(),
        });
        (state, action) = h.remove_step(state, event);
    }
    (log, action)
}

#[test]
fn deletion_stops_a_running_machine_and_deletes_its_listed_volumes() {
    let (log, action) = remove_run(vec![
        RemoveEvent::Name(Ok("annatar".to_owned())),
        RemoveEvent::Active(Ok(true)),
        RemoveEvent::Destroyed(Ok(())),
        RemoveEvent::Undefined(Ok(())),
        RemoveEvent::PoolFound(Ok(())),
        RemoveEvent::Volumes(Ok(vec![
            "other.qcow2".to_owned(),
            "annatar-seed.img".to_owned(),
            "annatar.qcow2".to_owned(),
        ])),
        RemoveEvent::VolumeDeleted(Ok(())),
        RemoveEvent::VolumeDeleted(Ok(())),
    ]);
    assert_eq!(
        log,
        vec![
            "name 3",
            "active 3",
            "destroy 3",
            "undefine 3",
            "pool celebrimbor",
            "volumes",
            "delete annatar.qcow2",
            "delete annatar-seed.img",
        ]
    );
    assert!(matches!(action, RemoveAction::Finish { outcome: Ok(true) }));
}

#[test]
fn deletion_skips_destroying_a_stopped_machine_and_missing_volumes() {
    let (log, action) = remove_run(vec![
        RemoveEvent::Name(Ok("annatar".to_owned())),
        RemoveEvent::Active(Ok(false)),
        RemoveEvent::Undefined(Ok(())),
        RemoveEvent::PoolFound(Ok(())),
        RemoveEvent::Volumes(Ok(vec!["annatar-seed.img".to_owned()])),
        RemoveEvent::VolumeDeleted(Ok(())),
    ]);
    assert_eq!(log[2], "undefine 3");
    assert_eq!(log[5], "delete annatar-seed.img");
    assert!(matches!(action, RemoveAction::Finish { outcome: Ok(true) }));

    let (_, action) = remove_run(vec![
        RemoveEvent::Name(Ok("annatar".to_owned())),
        RemoveEvent::Active(Ok(false)),
        RemoveEvent::Undefined(Ok(())),
        RemoveEvent::PoolFound(Ok(())),
        RemoveEvent::Volumes(Ok(vec![])),
    ]);
    assert!(matches!(action, RemoveAction::Finish { outcome: Ok(true) }));
}

#[test]
fn deletion_stops_at_the_first_failure() {
    let (_, action) = remove_run(vec![RemoveEvent::Name(Err("n".to_owned()))]);
    assert!(matches!(action, RemoveAction::Finish { outcome: Err(m) } if m == "n"));
    let (_, action) = remove_run(vec![
        RemoveEvent::Name(Ok("a".to_owned())),
        RemoveEvent::Active(Ok(true)),
        RemoveEvent::Destroyed(Err("d".to_owned())),
    ]);
    assert!(matches!(action, RemoveAction::Finish { outcome: Err(m) } if m == "d"));
    let (log, action) = remove_run(vec![
        RemoveEvent::Name(Ok("a".to_owned())),
        RemoveEvent::Active(Ok(false)),
        RemoveEvent::Undefined(Ok(())),
        RemoveEvent::PoolFound(Ok(())),
        RemoveEvent::Volumes(Ok(vec!["a.qcow2".to_owned(), "a-seed.img".to_owned()])),
        RemoveEvent::VolumeDeleted(Err("v".to_owned())),
    ]);
    assert_eq!(log.last().unwrap(), "delete a.qcow2");
    assert!(matches!(action, RemoveAction::Finish { outcome: Err(m) } if m == "v"));
}

#[test]
fn volumes_to_delete_follow_the_machine_name() {
    let listed = vec!["x.qcow2".to_owned(), "x-seed.img".to_owned(), "y.qcow2".to_owned()];
    assert_eq!(volumes_to_delete("x", &listed), vec!["x.qcow2".to_owned(), "x-seed.img".to_owned()]);
    assert_eq!(volumes_to_delete("y", &listed), vec!["y.qcow2".to_owned()]);
    assert!(volumes_to_delete("z", &listed).is_empty());
    assert_eq!(volume_file_name("x"), "x.qcow2");
    assert_eq!(image_path("/pool", "img.qcow2"), "/pool/src/img.qcow2");
    assert_eq!(image_path("/pool/", "img.qcow2"), "/pool/src/img.qcow2");
}

#[test]
fn seed_contents_carry_the_key_identifier_and_host_name() {
    assert_eq!(ssh_public_key("  ssh-ed25519 AAAA user@host\n"), Ok("ssh-ed25519 AAAA user@host".to_owned()));
    assert_eq!(ssh_public_key("ecdsa-sha2 AAAA"), Err("SSH public key has an unsupported format".to_owned()));
    assert_eq!(ssh_public_key(""), Err("SSH public key has an unsupported format".to_owned()));
    assert_eq!(
        user_data("ssh-ed25519 AAAA"),
        "#cloud-config\nusers:\n  - name: ubuntu\n    groups: [adm, sudo]\n    shell: /bin/bash\n    sudo: ALL=(ALL) NOPASSWD:ALL\n    ssh_authorized_keys:\n      - ssh-ed25519 AAAA\nssh_pwauth: false\ndisable_root: true\n"
    );
    let id = 0xd2eb1806a4ca4e1e861569b9bfbc79e0;
    assert_eq!(meta_data(id, "annatar"), "instance-id: d2eb1806-a4ca-4e1e-8615-69b9bfbc79e0\nlocal-hostname: annatar\n");
    assert_eq!(seed_directory_name(id), "celebrimbor-d2eb1806-a4ca-4e1e-8615-69b9bfbc79e0");
    assert_eq!(seed_path("/var/lib/libvirt/images/celebrimbor", "annatar"), "/var/lib/libvirt/images/celebrimbor/annatar-seed.img");
    assert_eq!(cloud_localds_failure("  bad image\n"), "cloud-localds failed: bad image");
    assert_eq!(seed_step_error(SeedStep::ReadKey, "denied"), "failed to read SSH public key: denied");
    assert_eq!(seed_step_error(SeedStep::RunCloudLocalds, "x"), "failed to run cloud-localds: x");
}

#[test]
fn domain_facts_become_a_machine() {
    let facts = DomainFacts {
        id: 5,
        name: "annatar".to_owned(),
        state_code: 5,
        max_mem_kib: 1048576,
        vcpus: 2,
        interfaces: vec![
            vec![InterfaceAddress { kind: 1, address: "fe80::1".to_owned() }],
            vec![
                InterfaceAddress { kind: 1, address: "fe80::2".to_owned() },
                InterfaceAddress { kind: 0, address: "192.168.122.10".to_owned() },
                InterfaceAddress { kind: 0, address: "10.0.0.2".to_owned() },
            ],
        ],
        domain_xml: "<domain type='kvm'><os><type arch='aarch64' machine='virt'>hvm</type></os><interface><mac address='52:54:00:aa:bb:cc'/></interface></domain>".to_owned(),
        disk_capacity: 10737418240,
        disk_allocation: 1024,
        volume_xml: "<volume><target><format type='qcow2'/></target><backingStore><path>/images/src/ubuntu.qcow2</path><format type='qcow2'/></backingStore></volume>".to_owned(),
    };
    let vm = vm_from_domain(facts);
    assert_eq!(vm.id, 5);
    assert_eq!(vm.state, VmState::ShutOff);
    assert_eq!(vm.resources.memory_mib, 1024);
    assert_eq!(vm.resources.disk.format.as_deref(), Some("qcow2"));
    assert_eq!(vm.image.name.as_deref(), Some("ubuntu.qcow2"));
    assert_eq!(vm.network.ip_address.as_deref(), Some("192.168.122.10"));
    assert_eq!(vm.network.mac_address.as_deref(), Some("52:54:00:aa:bb:cc"));
    assert_eq!(vm.metadata.architecture.as_deref(), Some("aarch64"));
    assert_eq!(vm.metadata.ssh_user.as_deref(), Some("ubuntu"));
    assert_eq!(first_ipv4(&vec![]), None);
}

#[test]
fn domain_state_codes_map_to_machine_states() {
    let expected = [
        VmState::NoState,
        VmState::Running,
        VmState::Blocked,
        VmState::Paused,
        VmState::ShuttingDown,
        VmState::ShutOff,
        VmState::Crashed,
        VmState::Suspended,
        VmState::Unknown,
    ];
    for (code, state) in expected.iter().enumerate() {
        assert_eq!(vm_state(code as u32), *state);
    }
    assert_eq!(vm_state(u32::MAX), VmState::Unknown);
}

#[test]
fn creation_draws_a_random_uuid_once_the_volume_path_is_known() {
    let events: Vec<CreateEvent> = happy_events().into_iter().take(6).collect();
    let (state, action, _) = run(events, None);
    assert_eq!(state.stage, CreateStage::CreatingSeed);
    assert_eq!(uuid::Uuid::from_u128(state.id).get_version_num(), 4);
    assert_eq!((state.id >> 62) & 0x3, 2);
    match action {
        CreateAction::CreateSeed { id, name } => {
            assert_eq!(id, state.id);
            assert_eq!(name, "annatar");
        }
        other => panic!("expected the seed, got {}", describe(&other)),
    }
    let (other, _, _) = run(happy_events().into_iter().take(6).collect(), None);
    assert_ne!(other.id, state.id);
}
