use celebrimbor::application::{CreateVmError, DeleteVmError, GetVmError, ListVmsError};
use celebrimbor::http::{
    create_error_status, default_disk_gib, default_memory_mib, default_vcpus, delete_error_status,
    get_error_status, list_error_status, CreateVmRequest,
};

#[test]
fn request_defaults_are_a_small_machine() {
    assert_eq!(default_memory_mib(), 512);
    assert_eq!(default_vcpus(), 1);
    assert_eq!(default_disk_gib(), 8);
    let spec = CreateVmRequest {
        name: "a".to_owned(),
        image: Some("i".to_owned()),
        memory_mib: 1,
        vcpus: 2,
        disk_gib: 3,
    }
    .into_spec();
    assert_eq!((spec.name.as_str(), spec.image.as_deref(), spec.memory_mib, spec.vcpus, spec.disk_gib), ("a", Some("i"), 1, 2, 3));
}

#[test]
fn refusals_map_to_client_conflict_and_server_statuses() {
    for e in [
        CreateVmError::InvalidName,
        CreateVmError::InvalidMemory,
        CreateVmError::InvalidVcpus,
        CreateVmError::InvalidStorage,
        CreateVmError::InvalidImage,
        CreateVmError::ImageNotFound,
    ] {
        assert_eq!(create_error_status(&e), 400);
    }
    assert_eq!(create_error_status(&CreateVmError::NameAlreadyExists), 409);
    assert_eq!(create_error_status(&CreateVmError::Hypervisor("x".to_owned())), 500);
    assert_eq!(list_error_status(&ListVmsError::Hypervisor("x".to_owned())), 500);
    assert_eq!(get_error_status(&GetVmError::NotFound), 404);
    assert_eq!(get_error_status(&GetVmError::Hypervisor("x".to_owned())), 500);
    assert_eq!(delete_error_status(&DeleteVmError::NotFound), 404);
    assert_eq!(delete_error_status(&DeleteVmError::Hypervisor("x".to_owned())), 500);
}
