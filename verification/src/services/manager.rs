//! The service registry and the cache of loaded data, one entry per service.

use vstd::prelude::*;
use vstd::string::*;

use crate::services::traits::{
    AwsService, ResourceData, ResourceItemView, ServiceId, ServiceMetadata, ServiceMetadataView,
};
use crate::text::{first_where, lemma_first_where};

verus! {

/// The ids of a list of keyed entries, in their order.
spec fn ids_of<V>(entries: Seq<(ServiceId, V)>) -> Seq<Seq<char>> {
    entries.map_values(|e: (ServiceId, V)| e.0@)
}

/// The values of a list of metadata.
pub open spec fn metadata_view(list: Seq<ServiceMetadata>) -> Seq<ServiceMetadataView> {
    list.map_values(|m: ServiceMetadata| m@)
}

/// The values of a list of ids.
pub open spec fn ids_view(list: Seq<ServiceId>) -> Seq<Seq<char>> {
    list.map_values(|id: ServiceId| id@)
}

/// The test whether a service answers to `command`.
pub open spec fn has_command(command: Seq<char>) -> spec_fn(ServiceMetadataView) -> bool {
    |m: ServiceMetadataView| m.command == command
}

/// The metadata of the services listed in `order`.
pub open spec fn metadata_of<S: AwsService>(
    order: Seq<Seq<char>>,
    services: Map<Seq<char>, S>,
) -> Seq<ServiceMetadataView> {
    order.map_values(|id: Seq<char>| services[id].spec_metadata())
}

/// The id of the first service in `order` that answers to `command`.
pub open spec fn command_target<S: AwsService>(
    order: Seq<Seq<char>>,
    services: Map<Seq<char>, S>,
    command: Seq<char>,
) -> Option<Seq<char>> {
    let i = first_where(metadata_of(order, services), has_command(command));
    if i < order.len() {
        Some(order[i])
    } else {
        None
    }
}

/// The map from each id of `entries` to the value of its entry, as `value`
/// reads it.
spec fn keyed<V, W>(entries: Seq<(ServiceId, V)>, value: spec_fn(V) -> W) -> Map<
    Seq<char>,
    W,
> {
    Map::new(
        |id: Seq<char>| ids_of(entries).contains(id),
        |id: Seq<char>| value(entries[ids_of(entries).index_of(id)].1),
    )
}

/// Reads a service as itself.
spec fn itself<S>() -> spec_fn(S) -> S {
    |s: S| s
}

/// Reads loaded data as its items.
spec fn items() -> spec_fn(ResourceData) -> Seq<ResourceItemView> {
    |d: ResourceData| d@
}

/// Among distinct ids, each entry is the one that its id leads to.
proof fn lemma_keyed_at<V, W>(entries: Seq<(ServiceId, V)>, value: spec_fn(V) -> W, i: int)
    requires
        ids_of(entries).no_duplicates(),
        0 <= i < entries.len(),
    ensures
        keyed(entries, value).contains_key(entries[i].0@),
        keyed(entries, value)[entries[i].0@] == value(entries[i].1),
{
    let ids = ids_of(entries);
    assert(ids.index_of(ids[i]) == i);
}

/// Replacing an entry by one of the same id replaces its value in the map.
proof fn lemma_keyed_update<V, W>(
    entries: Seq<(ServiceId, V)>,
    value: spec_fn(V) -> W,
    i: int,
    entry: (ServiceId, V),
)
    requires
        ids_of(entries).no_duplicates(),
        0 <= i < entries.len(),
        entry.0@ == entries[i].0@,
    ensures
        ids_of(entries.update(i, entry)) == ids_of(entries),
        keyed(entries.update(i, entry), value) == keyed(entries, value).insert(
            entry.0@,
            value(entry.1),
        ),
{
    let after = entries.update(i, entry);
    assert(ids_of(after) =~= ids_of(entries));
    assert forall|id: Seq<char>| ids_of(entries).contains(id) implies #[trigger] keyed(
        after,
        value,
    )[id] == keyed(entries, value).insert(entry.0@, value(entry.1))[id] by {
        let k = ids_of(entries).index_of(id);
        lemma_keyed_at(entries, value, k);
        lemma_keyed_at(after, value, k);
        if k != i {
            assert(ids_of(entries)[k] != ids_of(entries)[i]);
        }
    }
    assert(ids_of(entries)[i] == entry.0@);
}

/// Adding an entry under a new id adds its value to the map.
proof fn lemma_keyed_push<V, W>(
    entries: Seq<(ServiceId, V)>,
    value: spec_fn(V) -> W,
    entry: (ServiceId, V),
)
    requires
        ids_of(entries).no_duplicates(),
        !ids_of(entries).contains(entry.0@),
    ensures
        ids_of(entries.push(entry)) == ids_of(entries).push(entry.0@),
        ids_of(entries.push(entry)).no_duplicates(),
        keyed(entries.push(entry), value) == keyed(entries, value).insert(
            entry.0@,
            value(entry.1),
        ),
{
    let after = entries.push(entry);
    assert(ids_of(after) =~= ids_of(entries).push(entry.0@));
    assert forall|a: int, b: int|
        0 <= a < after.len() && 0 <= b < after.len() && a != b implies ids_of(after)[a] != ids_of(
        after,
    )[b] by {
        assert(a < entries.len() ==> ids_of(after)[a] == ids_of(entries)[a]);
        assert(b < entries.len() ==> ids_of(after)[b] == ids_of(entries)[b]);
    }
    assert forall|id: Seq<char>| ids_of(after).contains(id) implies #[trigger] keyed(
        after,
        value,
    )[id] == keyed(entries, value).insert(entry.0@, value(entry.1))[id] by {
        let k = ids_of(after).index_of(id);
        lemma_keyed_at(after, value, k);
        if k < entries.len() {
            lemma_keyed_at(entries, value, k);
        }
    }
    assert forall|id: Seq<char>| ids_of(after).contains(id) <==> (ids_of(entries).contains(id) || id
        == entry.0@) by {
        if ids_of(entries).contains(id) {
            let k = ids_of(entries).index_of(id);
            assert(ids_of(after)[k] == id);
        }
        if id == entry.0@ {
            assert(ids_of(after)[entries.len() as int] == id);
        }
    }
}

/// Removing an entry removes its id from the map.
proof fn lemma_keyed_remove<V, W>(entries: Seq<(ServiceId, V)>, value: spec_fn(V) -> W, i: int)
    requires
        ids_of(entries).no_duplicates(),
        0 <= i < entries.len(),
    ensures
        ids_of(entries.remove(i)).no_duplicates(),
        keyed(entries.remove(i), value) == keyed(entries, value).remove(entries[i].0@),
{
    let after = entries.remove(i);
    let ids = ids_of(entries);
    assert forall|a: int, b: int|
        0 <= a < after.len() && 0 <= b < after.len() && a != b implies ids_of(after)[a] != ids_of(
        after,
    )[b] by {
        let a0 = if a < i { a } else { a + 1 };
        let b0 = if b < i { b } else { b + 1 };
        assert(ids_of(after)[a] == ids[a0]);
        assert(ids_of(after)[b] == ids[b0]);
    }
    assert forall|id: Seq<char>| ids_of(after).contains(id) <==> (ids.contains(id) && id
        != entries[i].0@) by {
        if ids_of(after).contains(id) {
            let k = ids_of(after).index_of(id);
            let k0 = if k < i { k } else { k + 1 };
            assert(ids[k0] == id);
            assert(ids[i] == entries[i].0@);
        }
        if ids.contains(id) && id != entries[i].0@ {
            let k = ids.index_of(id);
            let k1 = if k < i { k } else { k - 1 };
            assert(ids_of(after)[k1] == id);
        }
    }
    assert forall|id: Seq<char>| ids_of(after).contains(id) implies #[trigger] keyed(
        after,
        value,
    )[id] == keyed(entries, value).remove(entries[i].0@)[id] by {
        let k = ids_of(after).index_of(id);
        let k0 = if k < i { k } else { k + 1 };
        lemma_keyed_at(after, value, k);
        lemma_keyed_at(entries, value, k0);
    }
}

/// Finds the entry with the given id.
fn find<V>(entries: &Vec<(ServiceId, V)>, id: &ServiceId) -> (out: Option<usize>)
    ensures
        match out {
            Some(i) => i < entries.len() && entries@[i as int].0@ == id@ && ids_of(
                entries@,
            ).contains(id@),
            None => !ids_of(entries@).contains(id@),
        },
{
    let mut i: usize = 0;
    while i < entries.len()
        invariant
            i <= entries.len(),
            forall|j: int| 0 <= j < i ==> entries@[j].0@ != id@,
        decreases entries.len() - i,
    {
        if entries[i].0 == *id {
            assert(ids_of(entries@)[i as int] == id@);
            return Some(i);
        }
        i += 1;
    }
    assert forall|j: int| 0 <= j < entries.len() implies ids_of(entries@)[j] != id@ by {}
    None
}

/// The registered services, by id and in the order they were registered, and
/// the data last loaded for each.
pub struct ServiceManager<S: AwsService> {
    services: Vec<(ServiceId, S)>,
    service_data: Vec<(ServiceId, ResourceData)>,
}

impl<S: AwsService> ServiceManager<S> {
    /// No id is registered twice, no id has two cache entries, and each
    /// service stands under the id of its metadata.
    #[verifier::type_invariant]
    spec fn wf(self) -> bool {
        &&& ids_of(self.services@).no_duplicates()
        &&& ids_of(self.service_data@).no_duplicates()
        &&& forall|i: int|
            0 <= i < self.services@.len() ==> (#[trigger] self.services@[i]).0@
                == self.services@[i].1.spec_metadata().id
    }

    /// The ids of the registered services, in the order of registration.
    pub closed spec fn order(&self) -> Seq<Seq<char>> {
        ids_of(self.services@)
    }

    /// The registered services by id.
    pub closed spec fn services(&self) -> Map<Seq<char>, S> {
        keyed(self.services@, itself())
    }

    /// The data last loaded for each service, by id.
    pub closed spec fn cache(&self) -> Map<Seq<char>, Seq<ResourceItemView>> {
        keyed(self.service_data@, items())
    }

    /// The metadata of the registered services, in the order of registration.
    pub open spec fn metadata_list(&self) -> Seq<ServiceMetadataView> {
        metadata_of(self.order(), self.services())
    }

    /// The id of the first registered service that answers to `command`.
    pub open spec fn by_command(&self, command: Seq<char>) -> Option<Seq<char>> {
        command_target(self.order(), self.services(), command)
    }

    /// The registered ids are exactly those listed in the order.
    pub proof fn lemma_order_lists_services(&self)
        ensures
            forall|id: Seq<char>| self.services().contains_key(id) <==> self.order().contains(id),
    {
    }

    pub fn new() -> (out: Self)
        ensures
            out.order() == Seq::<Seq<char>>::empty(),
            out.services() == Map::<Seq<char>, S>::empty(),
            out.cache() == Map::<Seq<char>, Seq<ResourceItemView>>::empty(),
    {
        let out = ServiceManager { services: Vec::new(), service_data: Vec::new() };
        out
    }

    /// Registers `service` under the id of its metadata. A service registered
    /// earlier under that id is replaced and keeps its place in the order.
    pub fn register_service(&mut self, service: S)
        ensures
            final(self).services() == old(self).services().insert(
                service.spec_metadata().id,
                service,
            ),
            final(self).order() == if old(self).services().contains_key(
                service.spec_metadata().id,
            ) {
                old(self).order()
            } else {
                old(self).order().push(service.spec_metadata().id)
            },
            final(self).cache() == old(self).cache(),
    {
        proof {
            use_type_invariant(&*self);
        }
        let metadata = service.metadata();
        let service_id = ServiceId::new(metadata.id.as_str());
        let ghost id = service_id@;
        let ghost before = self.services@;
        let mut services: Vec<(ServiceId, S)> = Vec::new();
        core::mem::swap(&mut self.services, &mut services);
        match find(&services, &service_id) {
            Some(i) => {
                proof {
                    lemma_keyed_update(before, itself::<S>(), i as int, (service_id, service));
                }
                services.set(i, (service_id, service));
            },
            None => {
                proof {
                    lemma_keyed_push(before, itself::<S>(), (service_id, service));
                }
                services.push((service_id, service));
            },
        }
        core::mem::swap(&mut self.services, &mut services);
    }

    /// The service registered under `service_id`.
    pub fn get_service(&self, service_id: &ServiceId) -> (out: Option<&S>)
        ensures
            match out {
                Some(service) => self.services().contains_key(service_id@)
                    && self.services()[service_id@] == *service
                    && service.spec_metadata().id == service_id@,
                None => !self.services().contains_key(service_id@),
            },
    {
        proof {
            use_type_invariant(self);
        }
        match find(&self.services, service_id) {
            Some(i) => {
                proof {
                    lemma_keyed_at(self.services@, itself::<S>(), i as int);
                }
                Some(&self.services[i].1)
            },
            None => None,
        }
    }

    /// The metadata of every registered service, in the order of
    /// registration.
    pub fn get_service_metadata(&self) -> (out: Vec<ServiceMetadata>)
        ensures
            metadata_view(out@) == self.metadata_list(),
    {
        proof {
            use_type_invariant(self);
        }
        let mut out: Vec<ServiceMetadata> = Vec::new();
        let mut i: usize = 0;
        while i < self.services.len()
            invariant
                i <= self.services.len(),
                ids_of(self.services@).no_duplicates(),
                out@.len() == i,
                forall|j: int| 0 <= j < i ==> (#[trigger] out@[j])@ == self.metadata_list()[j],
            decreases self.services.len() - i,
        {
            proof {
                lemma_keyed_at(self.services@, itself::<S>(), i as int);
            }
            out.push(self.services[i].1.metadata());
            i += 1;
        }
        out
    }

    /// The first registered service that answers to `command`, with its id.
    pub fn get_service_by_command(&self, command: &str) -> (out: Option<(&ServiceId, &S)>)
        ensures
            match out {
                Some((id, service)) => self.by_command(command@) == Some(id@)
                    && self.services().contains_key(id@) && self.services()[id@] == *service,
                None => self.by_command(command@) is None,
            },
    {
        proof {
            use_type_invariant(self);
        }
        let wanted = String::from_str(command);
        let mut i: usize = 0;
        while i < self.services.len()
            invariant
                i <= self.services.len(),
                wanted@ == command@,
                ids_of(self.services@).no_duplicates(),
                forall|j: int|
                    0 <= j < i ==> !has_command(command@)(#[trigger] self.metadata_list()[j]),
            decreases self.services.len() - i,
        {
            proof {
                lemma_keyed_at(self.services@, itself::<S>(), i as int);
            }
            let metadata = self.services[i].1.metadata();
            if metadata.command == wanted {
                proof {
                    lemma_first_where(self.metadata_list(), has_command(command@), i as int);
                }
                return Some((&self.services[i].0, &self.services[i].1));
            }
            i += 1;
        }
        proof {
            lemma_first_where(self.metadata_list(), has_command(command@), i as int);
        }
        None
    }

    /// Puts `data` into the cache entry of `service_id`, in place of what was
    /// there. Nothing is kept for an id that no service is registered under.
    pub fn store_service_data(&mut self, service_id: &ServiceId, data: ResourceData)
        ensures
            final(self).cache() == if old(self).services().contains_key(service_id@) {
                old(self).cache().insert(service_id@, data@)
            } else {
                old(self).cache()
            },
            final(self).services() == old(self).services(),
            final(self).order() == old(self).order(),
    {
        proof {
            use_type_invariant(&*self);
        }
        if find(&self.services, service_id).is_none() {
            return ;
        }
        let ghost before = self.service_data@;
        let mut entries: Vec<(ServiceId, ResourceData)> = Vec::new();
        core::mem::swap(&mut self.service_data, &mut entries);
        match find(&entries, service_id) {
            Some(i) => {
                let entry = (service_id.clone(), data);
                proof {
                    lemma_keyed_update(before, items(), i as int, entry);
                }
                entries.set(i, entry);
            },
            None => {
                let entry = (service_id.clone(), data);
                proof {
                    lemma_keyed_push(before, items(), entry);
                }
                entries.push(entry);
            },
        }
        core::mem::swap(&mut self.service_data, &mut entries);
    }

    /// The data last loaded for `service_id`.
    pub fn get_service_data(&self, service_id: &ServiceId) -> (out: Option<&ResourceData>)
        ensures
            match out {
                Some(data) => self.cache().contains_key(service_id@) && self.cache()[service_id@]
                    == data@,
                None => !self.cache().contains_key(service_id@),
            },
    {
        proof {
            use_type_invariant(self);
        }
        match find(&self.service_data, service_id) {
            Some(i) => {
                proof {
                    lemma_keyed_at(self.service_data@, items(), i as int);
                }
                Some(&self.service_data[i].1)
            },
            None => None,
        }
    }

    /// Drops the cache entry of `service_id`.
    pub fn clear_service_data(&mut self, service_id: &ServiceId)
        ensures
            final(self).cache() == old(self).cache().remove(service_id@),
            final(self).services() == old(self).services(),
            final(self).order() == old(self).order(),
    {
        proof {
            use_type_invariant(&*self);
        }
        let ghost before = self.service_data@;
        let mut entries: Vec<(ServiceId, ResourceData)> = Vec::new();
        core::mem::swap(&mut self.service_data, &mut entries);
        match find(&entries, service_id) {
            Some(i) => {
                proof {
                    lemma_keyed_remove(before, items(), i as int);
                }
                entries.remove(i);
            },
            None => {},
        }
        core::mem::swap(&mut self.service_data, &mut entries);
    }

    /// Whether a service is registered under `service_id`.
    pub fn has_service(&self, service_id: &ServiceId) -> (out: bool)
        ensures
            out == self.services().contains_key(service_id@),
    {
        find(&self.services, service_id).is_some()
    }

    /// The ids of the registered services, in the order of registration. No
    /// id occurs twice.
    pub fn list_services(&self) -> (out: Vec<ServiceId>)
        ensures
            ids_view(out@) == self.order(),
            self.order().no_duplicates(),
    {
        proof {
            use_type_invariant(self);
        }
        let mut out: Vec<ServiceId> = Vec::new();
        let mut i: usize = 0;
        while i < self.services.len()
            invariant
                i <= self.services.len(),
                out@.len() == i,
                forall|j: int| 0 <= j < i ==> (#[trigger] out@[j])@ == self.services@[j].0@,
            decreases self.services.len() - i,
        {
            out.push(self.services[i].0.clone());
            i += 1;
        }
        out
    }
}

impl<S: AwsService> Default for ServiceManager<S> {
    fn default() -> (out: Self)
        ensures
            out.order() == Seq::<Seq<char>>::empty(),
            out.services() == Map::<Seq<char>, S>::empty(),
            out.cache() == Map::<Seq<char>, Seq<ResourceItemView>>::empty(),
    {
        ServiceManager::new()
    }
}

} // verus!
