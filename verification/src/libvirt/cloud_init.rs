//! The cloud-init seed that gives a new machine its user and SSH key.

use vstd::prelude::*;

use crate::domain::VmId;
use crate::ids::{uuid_text, vm_id_text};
use crate::text::{chars_of, push_str, string_of, trim, trim_chars};
use super::storage::{join_path, path_join};

verus! {

pub const SSH_KEY_PREFIX: &'static str = "ssh-";

pub const UNSUPPORTED_KEY: &'static str = "SSH public key has an unsupported format";

pub const USER_DATA_HEAD: &'static str = "#cloud-config\nusers:\n  - name: ubuntu\n    groups: [adm, sudo]\n    shell: /bin/bash\n    sudo: ALL=(ALL) NOPASSWD:ALL\n    ssh_authorized_keys:\n      - ";

pub const USER_DATA_TAIL: &'static str = "\nssh_pwauth: false\ndisable_root: true\n";

pub const META_DATA_ID: &'static str = "instance-id: ";

pub const META_DATA_HOST: &'static str = "\nlocal-hostname: ";

pub const SEED_DIR_PREFIX: &'static str = "celebrimbor-";

pub const SEED_SUFFIX: &'static str = "-seed.img";

pub const CLOUD_LOCALDS_FAILED: &'static str = "cloud-localds failed: ";

/// A step of writing the seed, for the message of its failure.
#[derive(Debug, Clone, Copy, PartialEq, Eq)]
pub enum SeedStep {
    ReadKey,
    CreateDirectory,
    WriteUserData,
    WriteMetaData,
    RunCloudLocalds,
}

pub const READ_KEY_FAILED: &'static str = "failed to read SSH public key: ";

pub const CREATE_DIRECTORY_FAILED: &'static str = "failed to create cloud-init directory: ";

pub const WRITE_USER_DATA_FAILED: &'static str = "failed to write cloud-init user-data: ";

pub const WRITE_META_DATA_FAILED: &'static str = "failed to write cloud-init meta-data: ";

pub const RUN_CLOUD_LOCALDS_FAILED: &'static str = "failed to run cloud-localds: ";

/// How the message for a failed step begins.
pub open spec fn seed_step_prefix(step: SeedStep) -> Seq<char> {
    match step {
        SeedStep::ReadKey => READ_KEY_FAILED@,
        SeedStep::CreateDirectory => CREATE_DIRECTORY_FAILED@,
        SeedStep::WriteUserData => WRITE_USER_DATA_FAILED@,
        SeedStep::WriteMetaData => WRITE_META_DATA_FAILED@,
        SeedStep::RunCloudLocalds => RUN_CLOUD_LOCALDS_FAILED@,
    }
}

/// The message for a step that failed with `detail`.
pub fn seed_step_error(step: SeedStep, detail: &str) -> (r: String)
    ensures
        r@ == seed_step_prefix(step) + detail@,
{
    let mut out: Vec<char> = Vec::new();
    match step {
        SeedStep::ReadKey => push_str(&mut out, READ_KEY_FAILED),
        SeedStep::CreateDirectory => push_str(&mut out, CREATE_DIRECTORY_FAILED),
        SeedStep::WriteUserData => push_str(&mut out, WRITE_USER_DATA_FAILED),
        SeedStep::WriteMetaData => push_str(&mut out, WRITE_META_DATA_FAILED),
        SeedStep::RunCloudLocalds => push_str(&mut out, RUN_CLOUD_LOCALDS_FAILED),
    }
    push_str(&mut out, detail);
    string_of(&out)
}

/// Whether `s` begins with `prefix`.
pub open spec fn starts_with(s: Seq<char>, prefix: Seq<char>) -> bool {
    prefix.len() <= s.len() && s.subrange(0, prefix.len() as int) == prefix
}

fn chars_start_with(s: &Vec<char>, prefix: &Vec<char>) -> (r: bool)
    ensures
        r == starts_with(s@, prefix@),
{
    if prefix.len() > s.len() {
        return false;
    }
    let mut i: usize = 0;
    while i < prefix.len()
        invariant
            prefix.len() <= s.len(),
            i <= prefix.len(),
            forall|j: int| 0 <= j < i ==> s@[j] == prefix@[j],
        decreases prefix.len() - i,
    {
        if s[i] != prefix[i] {
            assert(s@.subrange(0, prefix.len() as int)[i as int] != prefix@[i as int]);
            return false;
        }
        i = i + 1;
    }
    assert(s@.subrange(0, prefix.len() as int) =~= prefix@);
    true
}

/// The SSH public key in the key file's content: the content without surrounding
/// whitespace, which must begin with `ssh-`.
pub fn ssh_public_key(content: &str) -> (r: Result<String, String>)
    ensures
        starts_with(trim(content@), SSH_KEY_PREFIX@) ==> (r matches Ok(key) && key@ == trim(
            content@,
        )),
        !starts_with(trim(content@), SSH_KEY_PREFIX@) ==> (r matches Err(message) && message@
            == UNSUPPORTED_KEY@),
{
    let key = trim_chars(&chars_of(content));
    if chars_start_with(&key, &chars_of(SSH_KEY_PREFIX)) {
        Ok(string_of(&key))
    } else {
        Err(String::from_str(UNSUPPORTED_KEY))
    }
}

/// The cloud-config user data: one user `ubuntu` in groups `adm` and `sudo`, with
/// bash, password-less sudo and the given SSH key; no password login, no root login.
pub open spec fn user_data_text(ssh_key: Seq<char>) -> Seq<char> {
    USER_DATA_HEAD@ + ssh_key + USER_DATA_TAIL@
}

/// The cloud-init meta data: the instance identifier and the host name.
pub open spec fn meta_data_text(id: VmId, name: Seq<char>) -> Seq<char> {
    META_DATA_ID@ + uuid_text(id) + META_DATA_HOST@ + name + seq!['\n']
}

pub fn user_data(ssh_key: &str) -> (r: String)
    ensures
        r@ == user_data_text(ssh_key@),
{
    let mut out: Vec<char> = Vec::new();
    push_str(&mut out, USER_DATA_HEAD);
    push_str(&mut out, ssh_key);
    push_str(&mut out, USER_DATA_TAIL);
    string_of(&out)
}

pub fn meta_data(id: VmId, name: &str) -> (r: String)
    ensures
        r@ == meta_data_text(id, name@),
{
    let mut out: Vec<char> = Vec::new();
    push_str(&mut out, META_DATA_ID);
    let id_text = vm_id_text(id);
    push_str(&mut out, id_text.as_str());
    push_str(&mut out, META_DATA_HOST);
    push_str(&mut out, name);
    out.push('\n');
    string_of(&out)
}

/// The name of the temporary directory that holds the seed's sources.
pub fn seed_directory_name(id: VmId) -> (r: String)
    ensures
        r@ == SEED_DIR_PREFIX@ + uuid_text(id),
{
    let mut out: Vec<char> = Vec::new();
    push_str(&mut out, SEED_DIR_PREFIX);
    let id_text = vm_id_text(id);
    push_str(&mut out, id_text.as_str());
    string_of(&out)
}

/// The file name of a machine's seed image.
pub open spec fn seed_file_text(name: Seq<char>) -> Seq<char> {
    name + SEED_SUFFIX@
}

pub fn seed_file_name(name: &str) -> (r: String)
    ensures
        r@ == seed_file_text(name@),
{
    let mut out: Vec<char> = Vec::new();
    push_str(&mut out, name);
    push_str(&mut out, SEED_SUFFIX);
    string_of(&out)
}

/// Where a machine's seed image goes: in the storage directory.
pub fn seed_path(storage_dir: &str, name: &str) -> (r: String)
    ensures
        r@ == join_path(storage_dir@, seed_file_text(name@)),
{
    let file = seed_file_name(name);
    path_join(storage_dir, file.as_str())
}

/// The message when `cloud-localds` reports failure with the given error output.
pub fn cloud_localds_failure(stderr: &str) -> (r: String)
    ensures
        r@ == CLOUD_LOCALDS_FAILED@ + trim(stderr@),
{
    let mut out: Vec<char> = Vec::new();
    push_str(&mut out, CLOUD_LOCALDS_FAILED);
    let detail = trim_chars(&chars_of(stderr));
    crate::text::push_chars(&mut out, &detail);
    string_of(&out)
}

} // verus!
