//! What the hypervisor reads back from libvirt's XML descriptions.

use vstd::prelude::*;

use super::LibvirtHypervisor;
use crate::domain::{Disk, Image, Metadata, Network, Vm, VmId, VmResources, VmState};
use super::storage::{image_path_text, join_path, IMAGE_SOURCE_DIR};
use super::xml::{domain_xml_text, volume_xml_text, VOLUME_TAIL};
use crate::ids::{lemma_uuid_text_lacks_lt, uuid_text};
use crate::text::{
    chars_of, file_name, find, find_chars, find_chars_from, find_from, lacks_char,
    lemma_decimal_lacks_lt, lemma_file_name_of_plain_name, lemma_find_from_is,
    lemma_find_char_from_at, lemma_find_from_at, lemma_find_from_none, lemma_occurs_at_head, pair_at, occurs_at, opt_view, path_file_name, push_str,
    slice_chars, string_of, decimal,
};

verus! {

/// The value of attribute `attribute` of the first element that starts with
/// `<element`: the text between the quotes that follow `attribute=` in that tag,
/// single or double, or `None` where any of these is missing.
pub open spec fn xml_attribute_value(xml: Seq<char>, element: Seq<char>, attribute: Seq<char>) -> Option<
    Seq<char>,
> {
    match find(xml, seq!['<'] + element) {
        None => None,
        Some(start) => match find_from(xml, seq!['>'], start) {
            None => None,
            Some(end) => {
                let tag = xml.subrange(start, end);
                let key = attribute + seq!['='];
                match find(tag, key) {
                    None => None,
                    Some(k) => {
                        let vs = k + key.len();
                        if vs >= tag.len() {
                            None
                        } else {
                            let quote = tag[vs];
                            if quote != '\'' && quote != '"' {
                                None
                            } else {
                                let rest = tag.subrange(vs + 1, tag.len() as int);
                                match find(rest, seq![quote]) {
                                    None => None,
                                    Some(ve) => Some(rest.subrange(0, ve)),
                                }
                            }
                        }
                    },
                }
            },
        },
    }
}

/// The path of the backing store in a volume description: from the first
/// `<backingStore` on, the `file` of a `<source` element, else the `value` of a
/// `<path` element, else the text between `<path>` and the next `</path>`.
pub open spec fn backing_store_path(xml: Seq<char>) -> Option<Seq<char>> {
    match find(xml, "<backingStore"@) {
        None => None,
        Some(b) => {
            let rest = xml.subrange(b, xml.len() as int);
            match xml_attribute_value(rest, "source"@, "file"@) {
                Some(p) => Some(p),
                None => match xml_attribute_value(rest, "path"@, "value"@) {
                    Some(p) => Some(p),
                    None => match find(rest, "<path>"@) {
                        None => None,
                        Some(open) => {
                            let ps = open + "<path>"@.len();
                            match find(rest.subrange(ps, rest.len() as int), "</path>"@) {
                                None => None,
                                Some(pe) => Some(rest.subrange(ps, ps + pe)),
                            }
                        },
                    },
                },
            }
        },
    }
}

/// The file name of the image behind a volume: the last component of its backing
/// store's path.
pub open spec fn backing_image_name(xml: Seq<char>) -> Option<Seq<char>> {
    match backing_store_path(xml) {
        None => None,
        Some(p) => file_name(p),
    }
}

/// `xml_attribute_value` over characters.
fn attribute_chars(xml: &Vec<char>, element: &str, attribute: &str) -> (r: Option<Vec<char>>)
    ensures
        match r {
            Some(v) => xml_attribute_value(xml@, element@, attribute@) == Some(v@),
            None => xml_attribute_value(xml@, element@, attribute@) is None,
        },
{
    let mut open: Vec<char> = Vec::new();
    open.push('<');
    push_str(&mut open, element);
    assert(open@ =~= seq!['<'] + element@);
    let start = match find_chars(xml, &open) {
        None => return None,
        Some(k) => k,
    };
    let mut gt: Vec<char> = Vec::new();
    gt.push('>');
    assert(gt@ =~= seq!['>']);
    let end = match find_chars_from(xml, &gt, start) {
        None => return None,
        Some(k) => k,
    };
    let tag = slice_chars(xml, start, end);
    let mut key: Vec<char> = Vec::new();
    push_str(&mut key, attribute);
    key.push('=');
    assert(key@ =~= attribute@ + seq!['=']);
    let k = match find_chars(&tag, &key) {
        None => return None,
        Some(k) => k,
    };
    let vs = k + key.len();
    if vs >= tag.len() {
        return None;
    }
    let quote = tag[vs];
    if quote != '\'' && quote != '"' {
        return None;
    }
    let rest = slice_chars(&tag, vs + 1, tag.len());
    let mut q: Vec<char> = Vec::new();
    q.push(quote);
    assert(q@ =~= seq![quote]);
    let ve = match find_chars(&rest, &q) {
        None => return None,
        Some(k) => k,
    };
    Some(slice_chars(&rest, 0, ve))
}

/// The backing store path of a volume description made by `volume_xml` is the
/// backing path it was made with, where neither that path nor the volume name holds a `<`.
proof fn lemma_volume_backing_store_path(vn: Seq<char>, g: u64, bp: Seq<char>)
    requires
        lacks_char(vn, '<'),
        lacks_char(bp, '<'),
    ensures
        backing_store_path(volume_xml_text(vn, g, bp)) == Some(bp),
{
    reveal_strlit("<volume>\n<name>");
    reveal_strlit("</name>\n<capacity unit=\"GiB\">");
    reveal_strlit("</capacity>\n<target>\n<format type=\"qcow2\"/>\n</target>\n<backingStore>\n<path>");
    reveal_strlit("</path>\n<format type=\"qcow2\"/>\n</backingStore>\n</volume>");
    reveal_strlit("<backingStore");
    let d = decimal(g as nat);
    lemma_decimal_lacks_lt(g as nat);
    let s = volume_xml_text(vn, g, bp);
    let b0: int = 15int + vn.len() + 29 + d.len();
    let pos: int = b0 + 54;
    let p = "<backingStore"@;
    assert(p.len() == 13);
    assert forall|j: int| 0 <= j < pos implies !occurs_at(s, p, j) by {
        if occurs_at(s, p, j) {
            lemma_occurs_at_head(s, p, j);
            if j < 15 {
            } else if j < 15 + vn.len() {
                assert(s[j] == vn[j - 15]);
            } else if j < 15 + vn.len() + 29 {
            } else if j < b0 {
                assert(s[j] == d[j - (15 + vn.len() + 29)]);
            } else {
            }
        }
    }
    assert(s.subrange(pos, pos + 13) =~= p);
    lemma_find_from_is(s, p, 0, pos);
    assert(find(s, p) == Some(pos));
    let rest = s.subrange(pos, s.len() as int);
    reveal_strlit("<backingStore>\n<path>");
    let b2 = "<backingStore>\n<path>"@;
    assert(b2.len() == 21);
    let t = VOLUME_TAIL@;
    assert(rest =~= b2 + bp + t);
    // The backing store has no <source element ...
    reveal_strlit("source");
    let ps = seq!['<'] + "source"@;
    assert(ps[0] == '<' && ps[1] == 's' && ps.len() == 7);
    assert forall|j: int| 0 <= j implies !occurs_at(rest, ps, j) by {
        if occurs_at(rest, ps, j) {
            lemma_occurs_at_head(rest, ps, j);
            if j < 21 {
            } else if j < 21 + bp.len() {
                assert(rest[j] == bp[j - 21]);
            } else {
            }
        }
    }
    lemma_find_from_none(rest, ps, 0);
    assert(xml_attribute_value(rest, "source"@, "file"@) is None);
    // ... and its <path has no value attribute ...
    reveal_strlit("path");
    reveal_strlit("value");
    let pp = seq!['<'] + "path"@;
    assert(pp.len() == 5);
    assert(rest.subrange(15, 20) =~= pp);
    assert forall|j: int| 0 <= j < 15 implies !occurs_at(rest, pp, j) by {
        if occurs_at(rest, pp, j) {
            lemma_occurs_at_head(rest, pp, j);
        }
    }
    lemma_find_from_is(rest, pp, 0, 15);
    assert(rest.subrange(20, 21) =~= seq!['>']);
    assert forall|j: int| 15 <= j < 20 implies !occurs_at(rest, seq!['>'], j) by {
        if occurs_at(rest, seq!['>'], j) {
            assert(rest.subrange(j, j + 1)[0] == '>');
        }
    }
    lemma_find_from_is(rest, seq!['>'], 15, 20);
    assert(xml_attribute_value(rest, "path"@, "value"@) is None);
    // ... so the path is the text of <path>.
    reveal_strlit("<path>");
    reveal_strlit("</path>");
    let po = "<path>"@;
    assert(rest.subrange(15, 21) =~= po);
    assert forall|j: int| 0 <= j < 15 implies !occurs_at(rest, po, j) by {
        if occurs_at(rest, po, j) {
            lemma_occurs_at_head(rest, po, j);
        }
    }
    lemma_find_from_is(rest, po, 0, 15);
    let tail = rest.subrange(21, rest.len() as int);
    assert(tail =~= bp + t);
    let pc = "</path>"@;
    assert(tail.subrange(bp.len() as int, bp.len() + 7int) =~= pc);
    assert forall|j: int| 0 <= j < bp.len() implies !occurs_at(tail, pc, j) by {
        if occurs_at(tail, pc, j) {
            lemma_occurs_at_head(tail, pc, j);
            assert(tail[j] == bp[j]);
        }
    }
    lemma_find_from_is(tail, pc, 0, bp.len() as int);
    assert(rest.subrange(21, 21int + bp.len()) =~= bp);
}

/// A volume described by `volume_xml` reads back the backing path it was made
/// with: `backing_image` of its description is the file name of that path, where
/// neither the path nor the volume name holds a `<`.
pub proof fn law_volume_reads_back_its_backing_path(
    volume_name: Seq<char>,
    disk_gib: u64,
    backing_path: Seq<char>,
)
    requires
        lacks_char(volume_name, '<'),
        lacks_char(backing_path, '<'),
    ensures
        backing_store_path(volume_xml_text(volume_name, disk_gib, backing_path)) == Some(
            backing_path,
        ),
        backing_image_name(volume_xml_text(volume_name, disk_gib, backing_path)) == file_name(
            backing_path,
        ),
{
    lemma_volume_backing_store_path(volume_name, disk_gib, backing_path);
}

/// Whether `name` is a plain file name: not empty, without `/` or `<`, and
/// neither `.` nor `..`.
pub open spec fn is_plain_file_name(name: Seq<char>) -> bool {
    &&& name.len() > 0
    &&& lacks_char(name, '/')
    &&& lacks_char(name, '<')
    &&& name != seq!['.']
    &&& name != seq!['.', '.']
}

/// A volume created over the image `image` in the storage directory names that
/// image again when its description is read back: `backing_image` of the
/// description that `volume_xml` writes for the image's path is `image`.
pub proof fn law_volume_names_its_image(
    volume_name: Seq<char>,
    disk_gib: u64,
    storage_dir: Seq<char>,
    image: Seq<char>,
)
    requires
        lacks_char(volume_name, '<'),
        lacks_char(storage_dir, '<'),
        is_plain_file_name(image),
    ensures
        backing_image_name(
            volume_xml_text(volume_name, disk_gib, image_path_text(storage_dir, image)),
        ) == Some(image),
{
    reveal_strlit("src");
    let dir = join_path(storage_dir, IMAGE_SOURCE_DIR@);
    assert(IMAGE_SOURCE_DIR@ == "src"@);
    assert(lacks_char(dir, '<'));
    let q = if dir.len() == 0 || dir.last() == '/' {
        dir
    } else {
        dir + seq!['/']
    };
    assert(image_path_text(storage_dir, image) == q + image);
    lemma_file_name_of_plain_name(q, image);
    lemma_volume_backing_store_path(volume_name, disk_gib, q + image);
}

/// The disk of a volume described by `volume_xml` reads back as qcow2: the
/// `type` of the first `<format` element of the description is `qcow2`, where
/// the volume name holds no `<`.
pub proof fn law_volume_format_is_qcow2(volume_name: Seq<char>, disk_gib: u64, backing_path: Seq<char>)
    requires
        lacks_char(volume_name, '<'),
    ensures
        xml_attribute_value(
            volume_xml_text(volume_name, disk_gib, backing_path),
            "format"@,
            "type"@,
        ) == Some("qcow2"@),
{
    reveal_strlit("<volume>\n<name>");
    reveal_strlit("</name>\n<capacity unit=\"GiB\">");
    reveal_strlit(
        "</capacity>\n<target>\n<format type=\"qcow2\"/>\n</target>\n<backingStore>\n<path>",
    );
    reveal_strlit("format");
    reveal_strlit("type");
    reveal_strlit("qcow2");
    reveal_strlit("<format type=\"qcow2\"/");
    let d = decimal(disk_gib as nat);
    lemma_decimal_lacks_lt(disk_gib as nat);
    let s = volume_xml_text(volume_name, disk_gib, backing_path);
    let off: int = 15int + volume_name.len() + 29 + d.len();
    let pos: int = off + 21;
    let pf = seq!['<'] + "format"@;
    assert(s.subrange(pos, pos + 7) =~= pf);
    assert forall|j: int| 0 <= j < pos implies !#[trigger] pair_at(s, j, pf[0], pf[1]) by {
        if 15 <= j < 15 + volume_name.len() {
            assert(s[j] == volume_name[j - 15]);
        } else if 15 + volume_name.len() + 29 <= j < off {
            assert(s[j] == d[j - (15 + volume_name.len() + 29)]);
        }
    }
    lemma_find_from_at(s, pf, 0, pos);
    lemma_find_char_from_at(s, '>', pos, pos + 21);
    let tag = s.subrange(pos, pos + 21);
    assert(tag =~= "<format type=\"qcow2\"/"@);
    let key = "type"@ + seq!['='];
    assert(tag.subrange(8, 13) =~= key);
    lemma_find_from_at(tag, key, 0, 8);
    let rest = tag.subrange(14, 21);
    lemma_find_char_from_at(rest, '"', 0, 5);
    assert(rest.subrange(0, 5) =~= "qcow2"@);
}

/// A domain described by `domain_xml` reads back as an aarch64 machine: the
/// `arch` of its first `<type` element is `aarch64`, where the domain's name
/// holds no `<`.
pub proof fn law_domain_architecture_is_aarch64(
    name: Seq<char>,
    id: VmId,
    memory_mib: u64,
    vcpus: u32,
    disk_path: Seq<char>,
    seed_path: Seq<char>,
)
    requires
        lacks_char(name, '<'),
    ensures
        xml_attribute_value(
            domain_xml_text(name, id, memory_mib, vcpus, disk_path, seed_path),
            "type"@,
            "arch"@,
        ) == Some("aarch64"@),
{
    reveal_strlit("<domain type=\"kvm\">\n<name>");
    reveal_strlit("</name>\n<uuid>");
    reveal_strlit("</uuid>\n<memory unit=\"MiB\">");
    reveal_strlit("</memory>\n<vcpu placement=\"static\">");
    reveal_strlit("type");
    reveal_strlit("arch");
    reveal_strlit("aarch64");
    reveal_strlit("<type arch=\"aarch64\" machine=\"virt\"");
    let u = uuid_text(id);
    lemma_uuid_text_lacks_lt(id);
    let d1 = decimal(memory_mib as nat);
    lemma_decimal_lacks_lt(memory_mib as nat);
    let d2 = decimal(vcpus as nat);
    lemma_decimal_lacks_lt(vcpus as nat);
    let s = domain_xml_text(name, id, memory_mib, vcpus, disk_path, seed_path);
    let o1: int = 26int + name.len();
    let o2: int = o1 + 14;
    let o3: int = o2 + 36;
    let o4: int = o3 + 27;
    let o5: int = o4 + d1.len();
    let o6: int = o5 + 35;
    let off: int = o6 + d2.len();
    let pos: int = off + 13;
    reveal_strlit("</vcpu>\n<os>\n<type arch=\"aarch64\" machine=\"virt\">");
    let pt = seq!['<'] + "type"@;
    assert(s.subrange(pos, pos + 5) =~= pt);
    assert forall|j: int| 0 <= j < pos implies !#[trigger] pair_at(s, j, pt[0], pt[1]) by {
        if 26 <= j < o1 {
            assert(s[j] == name[j - 26]);
        } else if o2 <= j < o3 {
            assert(s[j] == u[j - o2]);
        } else if o4 <= j < o5 {
            assert(s[j] == d1[j - o4]);
        } else if o6 <= j < off {
            assert(s[j] == d2[j - o6]);
        }
    }
    lemma_find_from_at(s, pt, 0, pos);
    lemma_find_char_from_at(s, '>', pos, pos + 35);
    let tag = s.subrange(pos, pos + 35);
    assert(tag =~= "<type arch=\"aarch64\" machine=\"virt\""@);
    let key = "arch"@ + seq!['='];
    assert(tag.subrange(6, 11) =~= key);
    lemma_find_from_at(tag, key, 0, 6);
    let rest = tag.subrange(12, 35);
    lemma_find_char_from_at(rest, '"', 0, 7);
    assert(rest.subrange(0, 7) =~= "aarch64"@);
}

/// `backing_store_path` over characters.
fn backing_path_chars(xml: &Vec<char>) -> (r: Option<Vec<char>>)
    ensures
        match r {
            Some(v) => backing_store_path(xml@) == Some(v@),
            None => backing_store_path(xml@) is None,
        },
{
    let b = match find_chars(xml, &chars_of("<backingStore")) {
        None => return None,
        Some(b) => b,
    };
    let rest = slice_chars(xml, b, xml.len());
    match attribute_chars(&rest, "source", "file") {
        Some(p) => return Some(p),
        None => {},
    }
    match attribute_chars(&rest, "path", "value") {
        Some(p) => return Some(p),
        None => {},
    }
    let open_tag = chars_of("<path>");
    let open = match find_chars(&rest, &open_tag) {
        None => return None,
        Some(k) => k,
    };
    let ps = open + open_tag.len();
    let tail = slice_chars(&rest, ps, rest.len());
    let pe = match find_chars(&tail, &chars_of("</path>")) {
        None => return None,
        Some(k) => k,
    };
    Some(slice_chars(&rest, ps, ps + pe))
}

impl LibvirtHypervisor {
    /// The value of an attribute of the first element with the given name.
    pub fn xml_attribute(xml: &str, element: &str, attribute: &str) -> (r: Option<String>)
        ensures
            opt_view(r) == xml_attribute_value(xml@, element@, attribute@),
    {
        match attribute_chars(&chars_of(xml), element, attribute) {
            Some(v) => Some(string_of(&v)),
            None => None,
        }
    }

    /// The file name of the image behind a volume, read from its XML description.
    pub fn backing_image(volume_xml: &str) -> (r: Option<String>)
        ensures
            opt_view(r) == backing_image_name(volume_xml@),
    {
        let path = match backing_path_chars(&chars_of(volume_xml)) {
            None => return None,
            Some(p) => p,
        };
        match path_file_name(&path) {
            Some(name) => Some(string_of(&name)),
            None => None,
        }
    }
}

/// The machine state for libvirt's domain state code (`virDomainState`).
pub open spec fn vm_state_of(code: u32) -> VmState {
    if code == 0 {
        VmState::NoState
    } else if code == 1 {
        VmState::Running
    } else if code == 2 {
        VmState::Blocked
    } else if code == 3 {
        VmState::Paused
    } else if code == 4 {
        VmState::ShuttingDown
    } else if code == 5 {
        VmState::ShutOff
    } else if code == 6 {
        VmState::Crashed
    } else if code == 7 {
        VmState::Suspended
    } else {
        VmState::Unknown
    }
}

/// The machine state for libvirt's domain state code.
pub fn vm_state(code: u32) -> (r: VmState)
    ensures
        r == vm_state_of(code),
{
    if code == 0 {
        VmState::NoState
    } else if code == 1 {
        VmState::Running
    } else if code == 2 {
        VmState::Blocked
    } else if code == 3 {
        VmState::Paused
    } else if code == 4 {
        VmState::ShuttingDown
    } else if code == 5 {
        VmState::ShutOff
    } else if code == 6 {
        VmState::Crashed
    } else if code == 7 {
        VmState::Suspended
    } else {
        VmState::Unknown
    }
}

/// libvirt's code for an IPv4 address (`VIR_IP_ADDR_TYPE_IPV4`).
pub const IPV4: i64 = 0;

/// An address of a domain's network interface, as libvirt reports it.
pub struct InterfaceAddress {
    pub kind: i64,
    pub address: String,
}

/// The first IPv4 address of the first interface that has one.
pub open spec fn first_ipv4_of(interfaces: Seq<Seq<InterfaceAddress>>) -> Option<Seq<char>>
    decreases interfaces.len(),
{
    if interfaces.len() == 0 {
        None
    } else {
        match first_ipv4_in(interfaces[0]) {
            Some(a) => Some(a),
            None => first_ipv4_of(interfaces.drop_first()),
        }
    }
}

/// The first IPv4 address in `addresses`.
pub open spec fn first_ipv4_in(addresses: Seq<InterfaceAddress>) -> Option<Seq<char>>
    decreases addresses.len(),
{
    if addresses.len() == 0 {
        None
    } else if addresses[0].kind == IPV4 {
        Some(addresses[0].address@)
    } else {
        first_ipv4_in(addresses.drop_first())
    }
}

/// Within one interface, the reported address is the first of kind IPv4 (libvirt's
/// code 0), and there is none when no address has that kind.
proof fn lemma_first_ipv4_in(addresses: Seq<InterfaceAddress>, j: int)
    requires
        0 <= j <= addresses.len(),
        forall|k: int| 0 <= k < j ==> (#[trigger] addresses[k]).kind != 0,
    ensures
        j < addresses.len() && addresses[j].kind == 0 ==> first_ipv4_in(addresses) == Some(
            addresses[j].address@,
        ),
        j == addresses.len() ==> first_ipv4_in(addresses) is None,
    decreases j,
{
    if j > 0 {
        let rest = addresses.drop_first();
        assert forall|k: int| 0 <= k < j - 1 implies (#[trigger] rest[k]).kind != 0 by {
            assert(rest[k] == addresses[k + 1]);
        }
        lemma_first_ipv4_in(rest, j - 1);
        assert(addresses[0].kind != 0);
    }
}

/// The address reported for a domain is the first IPv4 address (libvirt's code 0)
/// over its interfaces in libvirt's order: when interface `i` holds one at `j`
/// and no earlier interface, nor an earlier address of interface `i`, holds one,
/// it is that address; when no interface holds one, there is none.
pub proof fn law_reported_address_is_the_first_ipv4(
    interfaces: Seq<Seq<InterfaceAddress>>,
    i: int,
    j: int,
)
    requires
        0 <= i <= interfaces.len(),
        forall|p: int, k: int|
            0 <= p < i && 0 <= k < interfaces[p].len() ==> (#[trigger] interfaces[p][k]).kind != 0,
        i < interfaces.len() ==> {
            &&& 0 <= j < interfaces[i].len()
            &&& interfaces[i][j].kind == 0
            &&& forall|k: int| 0 <= k < j ==> (#[trigger] interfaces[i][k]).kind != 0
        },
    ensures
        i < interfaces.len() ==> first_ipv4_of(interfaces) == Some(interfaces[i][j].address@),
        i == interfaces.len() ==> first_ipv4_of(interfaces) is None,
    decreases i,
{
    if i > 0 {
        let first = interfaces[0];
        assert forall|k: int| 0 <= k < first.len() implies (#[trigger] first[k]).kind != 0 by {
            assert(interfaces[0][k].kind != 0);
        }
        lemma_first_ipv4_in(first, first.len() as int);
        let rest = interfaces.drop_first();
        assert forall|p: int, k: int|
            0 <= p < i - 1 && 0 <= k < rest[p].len() implies (#[trigger] rest[p][k]).kind != 0 by {
            assert(rest[p] == interfaces[p + 1]);
            assert(interfaces[p + 1][k].kind != 0);
        }
        if i < interfaces.len() {
            assert(rest[i - 1] == interfaces[i]);
            assert forall|k: int| 0 <= k < j implies (#[trigger] rest[i - 1][k]).kind != 0 by {
                assert(interfaces[i][k].kind != 0);
            }
        }
        law_reported_address_is_the_first_ipv4(rest, i - 1, j);
    } else if i < interfaces.len() {
        lemma_first_ipv4_in(interfaces[0], j);
    }
}

fn first_ipv4_among(addresses: &Vec<InterfaceAddress>) -> (r: Option<String>)
    ensures
        opt_view(r) == first_ipv4_in(addresses@),
{
    let mut i: usize = 0;
    assert(addresses@.subrange(0, addresses.len() as int) =~= addresses@);
    while i < addresses.len()
        invariant
            i <= addresses.len(),
            first_ipv4_in(addresses@) == first_ipv4_in(addresses@.subrange(i as int, addresses.len() as int)),
        decreases addresses.len() - i,
    {
        assert(addresses@.subrange(i as int, addresses.len() as int).drop_first() =~= addresses@.subrange(
            i + 1,
            addresses.len() as int,
        ));
        if addresses[i].kind == IPV4 {
            return Some(addresses[i].address.clone());
        }
        i = i + 1;
    }
    None
}

/// The first IPv4 address over the interfaces, in order.
pub fn first_ipv4(interfaces: &Vec<Vec<InterfaceAddress>>) -> (r: Option<String>)
    ensures
        opt_view(r) == first_ipv4_of(interfaces@.map_values(|a: Vec<InterfaceAddress>| a@)),
{
    let ghost all = interfaces@.map_values(|a: Vec<InterfaceAddress>| a@);
    let mut i: usize = 0;
    assert(all.subrange(0, all.len() as int) =~= all);
    while i < interfaces.len()
        invariant
            i <= interfaces.len(),
            all == interfaces@.map_values(|a: Vec<InterfaceAddress>| a@),
            first_ipv4_of(all) == first_ipv4_of(all.subrange(i as int, all.len() as int)),
        decreases interfaces.len() - i,
    {
        assert(all.subrange(i as int, all.len() as int).drop_first() =~= all.subrange(
            i + 1,
            all.len() as int,
        ));
        match first_ipv4_among(&interfaces[i]) {
            Some(a) => {
                return Some(a);
            },
            None => {},
        }
        i = i + 1;
    }
    None
}

/// What libvirt reports about a domain and its disk.
pub struct DomainFacts {
    pub id: VmId,
    pub name: String,
    pub state_code: u32,
    pub max_mem_kib: u64,
    pub vcpus: u32,
    pub interfaces: Vec<Vec<InterfaceAddress>>,
    pub domain_xml: String,
    pub disk_capacity: u64,
    pub disk_allocation: u64,
    pub volume_xml: String,
}

/// The machine that the facts describe.
pub open spec fn is_vm_of(vm: Vm, facts: DomainFacts) -> bool {
    &&& vm.id == facts.id
    &&& vm.name@ == facts.name@
    &&& vm.state == vm_state_of(facts.state_code)
    &&& vm.resources.memory_mib == facts.max_mem_kib / 1024
    &&& vm.resources.vcpus == facts.vcpus
    &&& vm.resources.disk.capacity_bytes == facts.disk_capacity
    &&& vm.resources.disk.allocated_bytes == facts.disk_allocation
    &&& opt_view(vm.resources.disk.format) == xml_attribute_value(facts.volume_xml@, "format"@, "type"@)
    &&& opt_view(vm.image.name) == backing_image_name(facts.volume_xml@)
    &&& opt_view(vm.network.ip_address) == first_ipv4_of(
        facts.interfaces@.map_values(|a: Vec<InterfaceAddress>| a@),
    )
    &&& opt_view(vm.network.mac_address) == xml_attribute_value(facts.domain_xml@, "mac"@, "address"@)
    &&& opt_view(vm.metadata.architecture) == xml_attribute_value(facts.domain_xml@, "type"@, "arch"@)
    &&& vm.metadata.ssh_user matches Some(u) && u@ == "ubuntu"@
}

/// The machine that libvirt's facts about a domain describe.
pub fn vm_from_domain(facts: DomainFacts) -> (r: Vm)
    ensures
        is_vm_of(r, facts),
{
    let ip_address = first_ipv4(&facts.interfaces);
    let mac_address = LibvirtHypervisor::xml_attribute(facts.domain_xml.as_str(), "mac", "address");
    let architecture = LibvirtHypervisor::xml_attribute(facts.domain_xml.as_str(), "type", "arch");
    let image_name = LibvirtHypervisor::backing_image(facts.volume_xml.as_str());
    let disk_format = LibvirtHypervisor::xml_attribute(facts.volume_xml.as_str(), "format", "type");
    Vm {
        id: facts.id,
        name: facts.name,
        state: vm_state(facts.state_code),
        resources: VmResources {
            memory_mib: facts.max_mem_kib / 1024,
            vcpus: facts.vcpus,
            disk: Disk {
                capacity_bytes: facts.disk_capacity,
                allocated_bytes: facts.disk_allocation,
                format: disk_format,
            },
        },
        image: Image { name: image_name },
        network: Network { ip_address, mac_address },
        metadata: Metadata { architecture, ssh_user: Some(String::from_str("ubuntu")) },
    }
}

} // verus!
