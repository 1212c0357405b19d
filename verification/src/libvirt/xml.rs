//! The XML documents that describe a new volume and a new domain to libvirt.

use vstd::prelude::*;

use crate::domain::VmId;
use crate::ids::{uuid_text, vm_id_text};
use crate::text::{decimal, push_decimal, push_str, string_of};

verus! {

/// What a volume description is made from.
pub struct VolumeXmlSpec<'a> {
    pub volume_name: &'a str,
    pub disk_gib: u64,
    pub backing_path: &'a str,
}

/// What a domain description is made from.
pub struct DomainXmlSpec<'a> {
    pub name: &'a str,
    pub id: VmId,
    pub memory_mib: u64,
    pub vcpus: u32,
    pub disk_path: &'a str,
    pub seed_path: &'a str,
}

pub const VOLUME_HEAD: &'static str = "<volume>\n<name>";

pub const VOLUME_CAPACITY: &'static str = "</name>\n<capacity unit=\"GiB\">";

pub const VOLUME_BACKING: &'static str = "</capacity>\n<target>\n<format type=\"qcow2\"/>\n</target>\n<backingStore>\n<path>";

pub const VOLUME_TAIL: &'static str = "</path>\n<format type=\"qcow2\"/>\n</backingStore>\n</volume>";

pub const DOMAIN_HEAD: &'static str = "<domain type=\"kvm\">\n<name>";

pub const DOMAIN_UUID: &'static str = "</name>\n<uuid>";

pub const DOMAIN_MEMORY: &'static str = "</uuid>\n<memory unit=\"MiB\">";

pub const DOMAIN_VCPU: &'static str = "</memory>\n<vcpu placement=\"static\">";

pub const DOMAIN_OS: &'static str = "</vcpu>\n<os>\n<type arch=\"aarch64\" machine=\"virt\">";

pub const DOMAIN_DISK: &'static str = "hvm</type>\n<loader readonly=\"yes\" type=\"pflash\">/usr/share/AAVMF/AAVMF_CODE.no-secboot.fd</loader>\n<nvram template=\"/usr/share/AAVMF/AAVMF_VARS.fd\"/>\n<boot dev=\"hd\"/>\n</os>\n<features>\n<acpi/>\n</features>\n<cpu mode=\"host-passthrough\"/>\n<devices>\n<emulator>/usr/bin/qemu-system-aarch64</emulator>\n<disk type=\"file\" device=\"disk\">\n  <driver name=\"qemu\" type=\"qcow2\"/>\n  <source file=\"";

pub const DOMAIN_SEED: &'static str = "\"/>\n  <target dev=\"vda\" bus=\"virtio\"/>\n</disk>\n<disk type=\"file\" device=\"cdrom\">\n  <driver name=\"qemu\" type=\"raw\"/>\n  <source file=\"";

pub const DOMAIN_TAIL: &'static str = "\"/>\n  <target dev=\"sda\" bus=\"scsi\"/>\n  <readonly/>\n</disk>\n<controller type=\"scsi\" model=\"virtio-scsi\"/>\n<interface type=\"network\">\n  <source network=\"default\"/>\n  <model type=\"virtio\"/>\n</interface>\n<serial type=\"pty\"/>\n<console type=\"pty\"/>\n</devices>\n</domain>";

/// The description of a qcow2 volume of `disk_gib` GiB named `volume_name`, backed
/// by the qcow2 image at `backing_path`.
pub open spec fn volume_xml_text(volume_name: Seq<char>, disk_gib: u64, backing_path: Seq<char>) -> Seq<
    char,
> {
    VOLUME_HEAD@ + volume_name + VOLUME_CAPACITY@ + decimal(disk_gib as nat) + VOLUME_BACKING@
        + backing_path + VOLUME_TAIL@
}

/// The description of a KVM domain for aarch64 that boots from the disk at
/// `disk_path` and has the cloud-init seed at `seed_path` as a CD-ROM.
pub open spec fn domain_xml_text(
    name: Seq<char>,
    id: VmId,
    memory_mib: u64,
    vcpus: u32,
    disk_path: Seq<char>,
    seed_path: Seq<char>,
) -> Seq<char> {
    DOMAIN_HEAD@ + name + DOMAIN_UUID@ + uuid_text(id) + DOMAIN_MEMORY@ + decimal(memory_mib as nat)
        + DOMAIN_VCPU@ + decimal(vcpus as nat) + DOMAIN_OS@ + DOMAIN_DISK@ + disk_path + DOMAIN_SEED@ + seed_path
        + DOMAIN_TAIL@
}

/// The description of a new volume.
pub fn volume_xml(spec: VolumeXmlSpec<'_>) -> (r: String)
    ensures
        r@ == volume_xml_text(spec.volume_name@, spec.disk_gib, spec.backing_path@),
{
    let mut out: Vec<char> = Vec::new();
    push_str(&mut out, VOLUME_HEAD);
    push_str(&mut out, spec.volume_name);
    push_str(&mut out, VOLUME_CAPACITY);
    push_decimal(&mut out, spec.disk_gib);
    push_str(&mut out, VOLUME_BACKING);
    push_str(&mut out, spec.backing_path);
    push_str(&mut out, VOLUME_TAIL);
    string_of(&out)
}

/// The description of a new domain.
pub fn domain_xml(spec: DomainXmlSpec<'_>) -> (r: String)
    ensures
        r@ == domain_xml_text(
            spec.name@,
            spec.id,
            spec.memory_mib,
            spec.vcpus,
            spec.disk_path@,
            spec.seed_path@,
        ),
{
    let mut out: Vec<char> = Vec::new();
    push_str(&mut out, DOMAIN_HEAD);
    push_str(&mut out, spec.name);
    push_str(&mut out, DOMAIN_UUID);
    let id = vm_id_text(spec.id);
    push_str(&mut out, id.as_str());
    push_str(&mut out, DOMAIN_MEMORY);
    push_decimal(&mut out, spec.memory_mib);
    push_str(&mut out, DOMAIN_VCPU);
    push_decimal(&mut out, spec.vcpus as u64);
    push_str(&mut out, DOMAIN_OS);
    push_str(&mut out, DOMAIN_DISK);
    push_str(&mut out, spec.disk_path);
    push_str(&mut out, DOMAIN_SEED);
    push_str(&mut out, spec.seed_path);
    push_str(&mut out, DOMAIN_TAIL);
    string_of(&out)
}

} // verus!
