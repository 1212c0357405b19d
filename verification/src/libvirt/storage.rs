//! Names and paths of the volumes that back a machine.

use vstd::prelude::*;

use crate::text::{chars_of, push_str, string_of};
use super::cloud_init::{seed_file_name, seed_file_text};

verus! {

pub const VOLUME_SUFFIX: &'static str = ".qcow2";

pub const IMAGE_SOURCE_DIR: &'static str = "src";

/// `base` joined with `part` as `Path::join` does on Unix: an absolute `part`
/// replaces `base`; otherwise `part` follows `base`, with a `/` between them
/// unless `base` is empty or already ends with one.
pub open spec fn join_path(base: Seq<char>, part: Seq<char>) -> Seq<char> {
    if part.len() > 0 && part[0] == '/' {
        part
    } else if base.len() == 0 || base.last() == '/' {
        base + part
    } else {
        base + seq!['/'] + part
    }
}

/// `base` joined with `part`.
pub fn path_join(base: &str, part: &str) -> (r: String)
    ensures
        r@ == join_path(base@, part@),
{
    let b = chars_of(base);
    let p = chars_of(part);
    if p.len() > 0 && p[0] == '/' {
        return String::from_str(part);
    }
    let mut out = b;
    if out.len() > 0 && out[out.len() - 1] != '/' {
        out.push('/');
    }
    push_str(&mut out, part);
    proof {
        if !(base@.len() == 0 || base@.last() == '/') {
            assert(out@ =~= base@ + seq!['/'] + part@);
        }
    }
    string_of(&out)
}

/// The file name of a machine's disk volume.
pub open spec fn volume_file_text(name: Seq<char>) -> Seq<char> {
    name + VOLUME_SUFFIX@
}

pub fn volume_file_name(name: &str) -> (r: String)
    ensures
        r@ == volume_file_text(name@),
{
    let mut out: Vec<char> = Vec::new();
    push_str(&mut out, name);
    push_str(&mut out, VOLUME_SUFFIX);
    string_of(&out)
}

/// Where the image file `image` lives: in `src` under the storage directory.
pub open spec fn image_path_text(storage_dir: Seq<char>, image: Seq<char>) -> Seq<char> {
    join_path(join_path(storage_dir, IMAGE_SOURCE_DIR@), image)
}

pub fn image_path(storage_dir: &str, image: &str) -> (r: String)
    ensures
        r@ == image_path_text(storage_dir@, image@),
{
    let dir = path_join(storage_dir, IMAGE_SOURCE_DIR);
    path_join(dir.as_str(), image)
}

/// Whether a volume named `name` is among `listed`.
pub open spec fn volume_listed(listed: Seq<String>, name: Seq<char>) -> bool {
    exists|i: int| 0 <= i < listed.len() && #[trigger] listed[i]@ == name
}

/// The volumes of machine `name` to delete: its disk and its seed image, each
/// only if the pool lists it, in that order.
pub open spec fn machine_volumes_to_delete(name: Seq<char>, listed: Seq<String>) -> Seq<Seq<char>> {
    let disk = volume_file_text(name);
    let seed = seed_file_text(name);
    (if volume_listed(listed, disk) {
        seq![disk]
    } else {
        seq![]
    }) + (if volume_listed(listed, seed) {
        seq![seed]
    } else {
        seq![]
    })
}

fn is_volume_listed(listed: &Vec<String>, name: &String) -> (r: bool)
    ensures
        r == volume_listed(listed@, name@),
{
    let mut i: usize = 0;
    while i < listed.len()
        invariant
            i <= listed.len(),
            forall|j: int| 0 <= j < i ==> (#[trigger] listed@[j])@ != name@,
        decreases listed.len() - i,
    {
        if listed[i] == *name {
            return true;
        }
        i = i + 1;
    }
    false
}

/// The volumes of machine `name` to delete, given the pool's volume names.
pub fn volumes_to_delete(name: &str, listed: &Vec<String>) -> (r: Vec<String>)
    ensures
        r@.map_values(|v: String| v@) == machine_volumes_to_delete(name@, listed@),
{
    let disk = volume_file_name(name);
    let seed = seed_file_name(name);
    let mut r: Vec<String> = Vec::new();
    if is_volume_listed(listed, &disk) {
        r.push(disk);
    }
    if is_volume_listed(listed, &seed) {
        r.push(seed);
    }
    assert(r@.map_values(|v: String| v@) =~= machine_volumes_to_delete(name@, listed@));
    r
}

} // verus!
