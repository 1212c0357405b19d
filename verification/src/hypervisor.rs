//! A hypervisor that keeps its virtual machines in memory.

use vstd::prelude::*;

use std::collections::HashMap;
#[allow(unused_imports)]
use vstd::std_specs::iter::IteratorSpec;

use crate::application::HypervisorCreateError;
use crate::domain::{CreateVmSpec, Disk, Image, Metadata, Network, Vm, VmId, VmResources, VmState};
use crate::ids::{is_random_uuid, new_vm_id};
use crate::listing::{distinct_ids, sort_vms_by_id, strictly_sorted_by_id};

verus! {

broadcast use vstd::std_specs::hash::group_hash_axioms;

/// Bytes in a gibibyte.
pub const GIB: u64 = 1073741824;

/// The image a virtual machine gets when the request names none.
pub open spec fn default_image_name() -> Seq<char> {
    "ubuntu-24.04-arm64.qcow2"@
}

/// What a virtual machine created in memory from `spec` holds, apart from its identifier.
pub open spec fn is_in_memory_vm(vm: Vm, spec: CreateVmSpec) -> bool {
    &&& vm.name@ == spec.name@
    &&& vm.state == VmState::Running
    &&& vm.resources.memory_mib == spec.memory_mib
    &&& vm.resources.vcpus == spec.vcpus
    &&& vm.resources.disk.capacity_bytes == spec.disk_gib * GIB
    &&& vm.resources.disk.allocated_bytes == 0
    &&& vm.resources.disk.format matches Some(f) && f@ == "qcow2"@
    &&& vm.image.name matches Some(n) && n@ == (match spec.image {
        Some(i) => i@,
        None => default_image_name(),
    })
    &&& vm.network.ip_address is None
    &&& vm.network.mac_address is None
    &&& vm.metadata.architecture matches Some(a) && a@ == "aarch64"@
    &&& vm.metadata.ssh_user matches Some(u) && u@ == "ubuntu"@
}

/// Whether some virtual machine in `vms` is named `name`.
pub open spec fn name_taken(vms: Map<VmId, Vm>, name: Seq<char>) -> bool {
    exists|k: VmId| vms.contains_key(k) && #[trigger] vms[k].name@ == name
}

/// A store whose entries sit under their own identifiers and have distinct names.
pub open spec fn is_consistent_store(vms: Map<VmId, Vm>) -> bool {
    &&& forall|k: VmId| vms.contains_key(k) ==> #[trigger] vms[k].id == k
    &&& forall|k1: VmId, k2: VmId|
        vms.contains_key(k1) && vms.contains_key(k2) && k1 != k2 ==> #[trigger] vms[k1].name@
            != #[trigger] vms[k2].name@
}

/// What `create_vm` stores under a machine's identifier is what `get_vm` then
/// returns for it.
pub proof fn law_created_vm_is_found(before: Map<VmId, Vm>, after: Map<VmId, Vm>, vm: Vm)
    requires
        after == before.insert(vm.id, vm),
    ensures
        after.contains_key(vm.id),
        after[vm.id] == vm,
{
}

/// After `delete_vm(id)` no machine `id` is left, so `get_vm(id)` finds none and a
/// second `delete_vm(id)` reports false; every other machine stays as it was.
pub proof fn law_deleted_vm_is_gone(before: Map<VmId, Vm>, after: Map<VmId, Vm>, id: VmId)
    requires
        after == before.remove(id),
    ensures
        !after.contains_key(id),
        forall|k: VmId| k != id ==> (after.contains_key(k) == before.contains_key(k)),
        forall|k: VmId| k != id && #[trigger] after.contains_key(k) ==> after[k] == before[k],
{
}

/// How one call changes the store without touching identifier `id`: it leaves
/// the store as it was (a lookup, a listing, a refused creation), stores a
/// machine under another identifier (`create_vm`), or removes another
/// identifier (`delete_vm`).
pub open spec fn changes_elsewhere(a: Map<VmId, Vm>, b: Map<VmId, Vm>, id: VmId) -> bool {
    ||| b == a
    ||| exists|w: Vm| w.id != id && b == a.insert(w.id, w)
    ||| exists|k: VmId| k != id && b == a.remove(k)
}

/// A machine that `create_vm` stored is still what `get_vm` returns after any
/// run of later calls, as long as none of them deleted its identifier or stored
/// another machine under it.
pub proof fn law_created_vm_stays_found(stores: Seq<Map<VmId, Vm>>, vm: Vm)
    requires
        stores.len() > 0,
        stores[0].contains_key(vm.id),
        stores[0][vm.id] == vm,
        forall|i: int|
            0 <= i < stores.len() - 1 ==> changes_elsewhere(
                #[trigger] stores[i],
                stores[i + 1],
                vm.id,
            ),
    ensures
        stores.last().contains_key(vm.id),
        stores.last()[vm.id] == vm,
    decreases stores.len(),
{
    if stores.len() > 1 {
        let shorter = stores.drop_last();
        assert forall|i: int| 0 <= i < shorter.len() - 1 implies changes_elsewhere(
            #[trigger] shorter[i],
            shorter[i + 1],
            vm.id,
        ) by {
            assert(changes_elsewhere(stores[i], stores[i + 1], vm.id));
        }
        law_created_vm_stays_found(shorter, vm);
        let a = stores[stores.len() - 2];
        let b = stores.last();
        assert(shorter.last() == a);
        assert(changes_elsewhere(a, b, vm.id));
    }
}

/// Deleting the machine that `create_vm` just stored under an identifier not used
/// before gives back the store as it was before the creation.
pub proof fn law_delete_undoes_create(
    before: Map<VmId, Vm>,
    created: Map<VmId, Vm>,
    after: Map<VmId, Vm>,
    vm: Vm,
)
    requires
        !before.contains_key(vm.id),
        created == before.insert(vm.id, vm),
        after == created.remove(vm.id),
    ensures
        after == before,
{
    assert(after =~= before);
}

/// Once a creation has stored a machine, its name is in use; by the contract of
/// `create_vm`, a second creation with that name is then refused and leaves the
/// store as it was.
pub proof fn law_name_in_use_is_refused(before: Map<VmId, Vm>, after: Map<VmId, Vm>, vm: Vm)
    requires
        after == before.insert(vm.id, vm),
    ensures
        name_taken(after, vm.name@),
{
    assert(after.contains_key(vm.id) && after[vm.id].name@ == vm.name@);
}

/// Storing a machine under its own identifier keeps a store consistent when no
/// stored machine has its name.
proof fn lemma_insert_keeps_store_consistent(before: Map<VmId, Vm>, vm: Vm)
    requires
        is_consistent_store(before),
        !name_taken(before, vm.name@),
    ensures
        is_consistent_store(before.insert(vm.id, vm)),
{
    let after = before.insert(vm.id, vm);
    assert forall|k: VmId| after.contains_key(k) implies #[trigger] after[k].id == k by {
        if k != vm.id {
            assert(before.contains_key(k));
        }
    }
    assert forall|k1: VmId, k2: VmId|
        after.contains_key(k1) && after.contains_key(k2) && k1 != k2 implies #[trigger] after[k1].name@
        != #[trigger] after[k2].name@ by {
        if k1 == vm.id {
            assert(before.contains_key(k2) && before[k2].name@ != vm.name@);
        } else if k2 == vm.id {
            assert(before.contains_key(k1) && before[k1].name@ != vm.name@);
        }
    }
}

/// Removing an identifier keeps a store consistent.
proof fn lemma_remove_keeps_store_consistent(before: Map<VmId, Vm>, id: VmId)
    requires
        is_consistent_store(before),
    ensures
        is_consistent_store(before.remove(id)),
{
    let after = before.remove(id);
    assert forall|k1: VmId, k2: VmId|
        after.contains_key(k1) && after.contains_key(k2) && k1 != k2 implies #[trigger] after[k1].name@
        != #[trigger] after[k2].name@ by {
        assert(before.contains_key(k1) && before.contains_key(k2));
        assert(before[k1].name@ != before[k2].name@);
    }
}

/// A hypervisor that keeps its virtual machines in a map from identifier to machine.
pub struct InMemoryHypervisor {
    vms: HashMap<VmId, Vm>,
}

impl View for InMemoryHypervisor {
    type V = Map<VmId, Vm>;

    closed spec fn view(&self) -> Map<VmId, Vm> {
        self.vms@
    }
}

/// Whether some entry of `vms` is named `name`, computed.
fn name_in_use(vms: &HashMap<VmId, Vm>, name: &String) -> (r: bool)
    ensures
        r == name_taken(vms@, name@),
{
    for entry in it: vms.iter()
        invariant
            it.seq() == vstd::std_specs::hash::spec_hash_map_iter(vms).remaining(),
            forall|j: int| 0 <= j < it.index() ==> (#[trigger] it.seq()[j]).1.name@ != name@,
    {
        if entry.1.name == *name {
            proof {
                let k = *entry.0;
                assert(vms@.contains_key(k) && vms@[k] == *entry.1);
                assert(vms@[k].name@ == name@);
            }
            return true;
        }
    }
    proof {
        assert forall|k: VmId| vms@.contains_key(k) implies #[trigger] vms@[k].name@ != name@ by {
            let v = vstd::std_specs::hash::spec_hash_map_iter(vms).remaining();
            assert(v.contains((&k, &vms@[k])));
            let j = choose|j: int| 0 <= j < v.len() && v[j] == (&k, &vms@[k]);
            assert(v[j].1.name@ != name@);
        }
    }
    false
}

impl InMemoryHypervisor {
    #[verifier::type_invariant]
    closed spec fn inv(self) -> bool {
        is_consistent_store(self.vms@)
    }

    /// An empty store.
    pub fn new() -> (r: Self)
        ensures
            r@ == Map::<VmId, Vm>::empty(),
            is_consistent_store(r@),
    {
        InMemoryHypervisor { vms: HashMap::new() }
    }

    /// Creates a running virtual machine under a freshly drawn identifier, unless
    /// one of that name exists.
    pub fn create_vm(&mut self, spec: CreateVmSpec) -> (r: Result<Vm, HypervisorCreateError>)
        requires
            !name_taken(old(self)@, spec.name@) ==> spec.disk_gib * GIB <= u64::MAX,
        ensures
            name_taken(old(self)@, spec.name@) ==> r == Err::<Vm, HypervisorCreateError>(
                HypervisorCreateError::NameAlreadyExists,
            ) && final(self)@ == old(self)@,
            !name_taken(old(self)@, spec.name@) ==> (r matches Ok(vm) && is_in_memory_vm(vm, spec)
                && is_random_uuid(vm.id) && final(self)@ == old(self)@.insert(vm.id, vm)),
            is_consistent_store(final(self)@),
    {
        proof {
            use_type_invariant(&*self);
        }
        if name_in_use(&self.vms, &spec.name) {
            return Err(HypervisorCreateError::NameAlreadyExists);
        }
        let id = new_vm_id();
        Ok(self.store_new_vm(spec, id))
    }

    /// Stores a running virtual machine made from `spec` under the identifier
    /// `id`, whose name no stored machine has.
    pub fn store_new_vm(&mut self, spec: CreateVmSpec, id: VmId) -> (r: Vm)
        requires
            !name_taken(old(self)@, spec.name@),
            spec.disk_gib * GIB <= u64::MAX,
        ensures
            r.id == id,
            is_in_memory_vm(r, spec),
            final(self)@ == old(self)@.insert(id, r),
            is_consistent_store(final(self)@),
    {
        proof {
            use_type_invariant(&*self);
        }
        let image = match spec.image {
            Some(image) => image,
            None => String::from_str("ubuntu-24.04-arm64.qcow2"),
        };
        let vm = Vm {
            id,
            name: spec.name,
            state: VmState::Running,
            resources: VmResources {
                memory_mib: spec.memory_mib,
                vcpus: spec.vcpus,
                disk: Disk {
                    capacity_bytes: spec.disk_gib * GIB,
                    allocated_bytes: 0,
                    format: Some(String::from_str("qcow2")),
                },
            },
            image: Image { name: Some(image) },
            network: Network { ip_address: None, mac_address: None },
            metadata: Metadata {
                architecture: Some(String::from_str("aarch64")),
                ssh_user: Some(String::from_str("ubuntu")),
            },
        };
        let mut vms = HashMap::new();
        std::mem::swap(&mut vms, &mut self.vms);
        let ghost before = vms@;
        vms.insert(id, vm.clone());
        proof {
            lemma_insert_keeps_store_consistent(before, vm);
        }
        self.vms = vms;
        vm
    }

    /// All virtual machines, in identifier order.
    pub fn list_vms(&self) -> (r: Vec<Vm>)
        ensures
            strictly_sorted_by_id(r@),
            r@.len() == self@.dom().len(),
            forall|i: int| 0 <= i < r@.len() ==> self@.contains_key(#[trigger] r@[i].id) && self@[r@[i].id]
                == r@[i],
            forall|k: VmId| #[trigger] self@.contains_key(k) ==> r@.contains(self@[k]),
            is_consistent_store(self@),
    {
        proof {
            use_type_invariant(self);
        }
        let mut all: Vec<Vm> = Vec::new();
        for entry in it: self.vms.iter()
            invariant
                it.seq() == vstd::std_specs::hash::spec_hash_map_iter(&self.vms).remaining(),
                all@.len() == it.index(),
                forall|j: int| 0 <= j < it.index() ==> all@[j] == *(#[trigger] it.seq()[j]).1,
        {
            all.push(entry.1.clone());
        }
        let ghost v = vstd::std_specs::hash::spec_hash_map_iter(&self.vms).remaining();
        proof {
            assert forall|j: int| 0 <= j < all@.len() implies self@.contains_key(#[trigger] all@[j].id)
                && self@[all@[j].id] == all@[j] by {
                let k = *v[j].0;
                assert(self.vms@.contains_key(k) && self.vms@[k] == *v[j].1);
            }
            assert(v.no_duplicates());
            assert forall|i: int, j: int| 0 <= i < all@.len() && 0 <= j < all@.len() && i != j implies (#[trigger] all@[i]).id
                != (#[trigger] all@[j]).id by {
                let ki = *v[i].0;
                let kj = *v[j].0;
                assert(self.vms@.contains_key(ki) && self.vms@[ki] == *v[i].1);
                assert(self.vms@.contains_key(kj) && self.vms@[kj] == *v[j].1);
                if ki == kj {
                    assert(v[i] == v[j]);
                }
            }
            assert(distinct_ids(all@));
        }
        let r = sort_vms_by_id(all);
        proof {
            vstd::seq_lib::to_multiset_len(r@);
            vstd::seq_lib::to_multiset_len(all@);
            assert forall|i: int| 0 <= i < r@.len() implies self@.contains_key(#[trigger] r@[i].id)
                && self@[r@[i].id] == r@[i] by {
                vstd::seq_lib::to_multiset_contains(r@, r@[i]);
                vstd::seq_lib::to_multiset_contains(all@, r@[i]);
            }
            assert forall|k: VmId| #[trigger] self@.contains_key(k) implies r@.contains(self@[k]) by {
                assert(v.contains((&k, &self.vms@[k])));
                let j = choose|j: int| 0 <= j < v.len() && v[j] == (&k, &self.vms@[k]);
                assert(all@[j] == self@[k]);
                vstd::seq_lib::to_multiset_contains(r@, self@[k]);
                vstd::seq_lib::to_multiset_contains(all@, self@[k]);
            }
        }
        r
    }

    /// Whether some virtual machine in the store is named `name`.
    pub fn has_name(&self, name: &String) -> (r: bool)
        ensures
            r == name_taken(self@, name@),
    {
        name_in_use(&self.vms, name)
    }

    /// The virtual machine with identifier `id`, if the store holds one.
    pub fn get_vm(&self, id: VmId) -> (r: Option<Vm>)
        ensures
            r == (if self@.contains_key(id) {
                Some(self@[id])
            } else {
                None
            }),
            is_consistent_store(self@),
    {
        proof {
            use_type_invariant(self);
        }
        match self.vms.get(&id) {
            Some(vm) => Some(vm.clone()),
            None => None,
        }
    }

    /// Removes the virtual machine with identifier `id`; tells whether there was one.
    pub fn delete_vm(&mut self, id: VmId) -> (r: bool)
        ensures
            r == old(self)@.contains_key(id),
            final(self)@ == old(self)@.remove(id),
            is_consistent_store(final(self)@),
    {
        proof {
            use_type_invariant(&*self);
        }
        let mut vms = HashMap::new();
        std::mem::swap(&mut vms, &mut self.vms);
        let ghost before = vms@;
        let removed = vms.remove(&id);
        proof {
            lemma_remove_keeps_store_consistent(before, id);
        }
        self.vms = vms;
        removed.is_some()
    }
}

} // verus!
