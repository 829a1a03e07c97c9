//! The service registry: which services exist right now, in the order in which
//! their ids were first registered.

use vstd::prelude::*;
use vstd::string::*;
use crate::json::{
    array_text, comma_separated, lemma_comma_separated_push, listing_items, listing_json, properties_json,
    properties_to_json, EncodeError,
};
use crate::service::{Service, ServiceProperties, ServicePropertiesView};

verus! {

/// No two records of `entries` carry the same id.
pub open spec fn unique_ids(entries: Seq<ServicePropertiesView>) -> bool {
    forall|i: int, j: int|
        0 <= i < j < entries.len() ==> (#[trigger] entries[i]).id != (#[trigger] entries[j]).id
}

/// Some record of `entries` carries `id`.
pub open spec fn contains_id(entries: Seq<ServicePropertiesView>, id: Seq<char>) -> bool {
    exists|i: int| 0 <= i < entries.len() && (#[trigger] entries[i]).id == id
}

/// Where the record with `id` stands in `entries`, if there is one.
pub open spec fn index_of(entries: Seq<ServicePropertiesView>, id: Seq<char>) -> int {
    choose|i: int| 0 <= i < entries.len() && (#[trigger] entries[i]).id == id
}

/// The record registered under `id`, if any.
pub open spec fn lookup(entries: Seq<ServicePropertiesView>, id: Seq<char>) -> Option<
    ServicePropertiesView,
> {
    if contains_id(entries, id) {
        Some(entries[index_of(entries, id)])
    } else {
        None
    }
}

/// The ids that are registered.
pub open spec fn ids(entries: Seq<ServicePropertiesView>) -> Set<Seq<char>> {
    Set::new(|id: Seq<char>| contains_id(entries, id))
}

/// `entries` after `props` was registered: a record with a new id goes to the
/// end, one with a known id takes the place of the record it replaces.
pub open spec fn with_service(
    entries: Seq<ServicePropertiesView>,
    props: ServicePropertiesView,
) -> Seq<ServicePropertiesView> {
    if contains_id(entries, props.id) {
        entries.update(index_of(entries, props.id), props)
    } else {
        entries.push(props)
    }
}

/// `entries` after the service with `id` was removed; the others keep their order.
pub open spec fn without_service(entries: Seq<ServicePropertiesView>, id: Seq<char>) -> Seq<
    ServicePropertiesView,
> {
    if contains_id(entries, id) {
        entries.remove(index_of(entries, id))
    } else {
        entries
    }
}

/// With unique ids, the place of an id is the only place that carries it.
pub proof fn lemma_index_of_unique(entries: Seq<ServicePropertiesView>, i: int)
    requires
        unique_ids(entries),
        0 <= i < entries.len(),
    ensures
        contains_id(entries, entries[i].id),
        index_of(entries, entries[i].id) == i,
{
    let k = index_of(entries, entries[i].id);
    assert(entries[k].id == entries[i].id);
}

/// Registering keeps ids unique.
pub proof fn lemma_with_service_unique(
    entries: Seq<ServicePropertiesView>,
    props: ServicePropertiesView,
)
    requires
        unique_ids(entries),
    ensures
        unique_ids(with_service(entries, props)),
{
    let after = with_service(entries, props);
    assert forall|i: int, j: int| 0 <= i < j < after.len() implies (#[trigger] after[i]).id != (
    #[trigger] after[j]).id by {
        if i < entries.len() && j < entries.len() {
            assert(entries[i].id != entries[j].id);
        }
    }
}

/// Removing keeps ids unique.
pub proof fn lemma_without_service_unique(entries: Seq<ServicePropertiesView>, id: Seq<char>)
    requires
        unique_ids(entries),
    ensures
        unique_ids(without_service(entries, id)),
{
    let after = without_service(entries, id);
    if contains_id(entries, id) {
        let k = index_of(entries, id);
        assert forall|i: int, j: int| 0 <= i < j < after.len() implies (#[trigger] after[i]).id != (
        #[trigger] after[j]).id by {
            let oi = if i < k { i } else { i + 1 };
            let oj = if j < k { j } else { j + 1 };
            assert(entries[oi].id != entries[oj].id);
        }
    }
}

/// With unique ids there are as many ids as records.
pub proof fn lemma_ids_count(entries: Seq<ServicePropertiesView>)
    requires
        unique_ids(entries),
    ensures
        ids(entries).finite(),
        ids(entries).len() == entries.len(),
    decreases entries.len(),
{
    if entries.len() == 0 {
        assert(ids(entries) =~= Set::<Seq<char>>::empty());
    } else {
        let front = entries.drop_last();
        let last = entries.last();
        assert forall|i: int, j: int| 0 <= i < j < front.len() implies (#[trigger] front[i]).id != (
        #[trigger] front[j]).id by {
            assert(entries[i].id != entries[j].id);
        }
        lemma_ids_count(front);
        if contains_id(front, last.id) {
            let k = index_of(front, last.id);
            assert(entries[k].id != entries[entries.len() - 1].id);
        }
        assert forall|id: Seq<char>| ids(entries).contains(id) <==> ids(front).insert(
            last.id,
        ).contains(id) by {
            if contains_id(entries, id) {
                let k = index_of(entries, id);
                if k < front.len() {
                    assert(front[k].id == id);
                }
            }
            if contains_id(front, id) {
                let k = index_of(front, id);
                assert(entries[k].id == id);
            }
            if id == last.id {
                assert(entries[entries.len() - 1].id == id);
            }
        }
        assert(ids(entries) =~= ids(front).insert(last.id));
    }
}

/// An id is registered after a registration if it is the new record's id or
/// was registered before.
pub proof fn lemma_with_service_contains(
    entries: Seq<ServicePropertiesView>,
    props: ServicePropertiesView,
    id: Seq<char>,
)
    ensures
        contains_id(with_service(entries, props), id) <==> (id == props.id || contains_id(
            entries,
            id,
        )),
{
    let after = with_service(entries, props);
    if contains_id(entries, props.id) {
        let k = index_of(entries, props.id);
        assert(after[k].id == props.id);
        if contains_id(entries, id) {
            let i = index_of(entries, id);
            assert(after[i].id == id);
        }
        if contains_id(after, id) {
            let i = index_of(after, id);
            assert(entries[i].id == id);
        }
    } else {
        assert(after[entries.len() as int].id == props.id);
        if contains_id(entries, id) {
            let i = index_of(entries, id);
            assert(after[i].id == id);
        }
        if contains_id(after, id) {
            let i = index_of(after, id);
            if i < entries.len() {
                assert(entries[i].id == id);
            }
        }
    }
}

/// An id is registered after a removal if it was registered before and is not
/// the id that was removed.
pub proof fn lemma_without_service_contains(
    entries: Seq<ServicePropertiesView>,
    gone: Seq<char>,
    id: Seq<char>,
)
    requires
        unique_ids(entries),
    ensures
        contains_id(without_service(entries, gone), id) <==> (id != gone && contains_id(
            entries,
            id,
        )),
{
    let after = without_service(entries, gone);
    if contains_id(entries, gone) {
        let k = index_of(entries, gone);
        lemma_index_of_unique(entries, k);
        if contains_id(after, id) {
            let i = index_of(after, id);
            let oi = if i < k {
                i
            } else {
                i + 1
            };
            assert(after[i] == entries[oi]);
            lemma_index_of_unique(entries, oi);
        }
        if id != gone && contains_id(entries, id) {
            let i = index_of(entries, id);
            let ni = if i < k {
                i
            } else {
                i - 1
            };
            assert(after[ni] == entries[i]);
        }
    }
}

/// Registering a service makes its record the one that is found under its id.
/// Where the id was not registered before, there is one service more, and the
/// JSON listing is the one before with the new record's object at its end:
/// behind a comma, unless it is the only one.
pub proof fn lemma_added_service_is_visible(
    entries: Seq<ServicePropertiesView>,
    props: ServicePropertiesView,
)
    requires
        unique_ids(entries),
    ensures
        lookup(with_service(entries, props), props.id) == Some(props),
        !contains_id(entries, props.id) ==> {
            &&& with_service(entries, props).len() == entries.len() + 1
            &&& ids(with_service(entries, props)).len() == ids(entries).len() + 1
            &&& listing_items(with_service(entries, props)) == listing_items(entries).push(
                properties_json(props),
            )
            &&& listing_json(with_service(entries, props)) == array_text(
                listing_items(entries).push(properties_json(props)),
            )
            &&& comma_separated(listing_items(with_service(entries, props))) == if entries.len()
                == 0 {
                properties_json(props)
            } else {
                comma_separated(listing_items(entries)) + ","@ + properties_json(props)
            }
        },
{
    let after = with_service(entries, props);
    lemma_with_service_unique(entries, props);
    lemma_with_service_contains(entries, props, props.id);
    if contains_id(entries, props.id) {
        lemma_index_of_unique(after, index_of(entries, props.id));
    } else {
        lemma_index_of_unique(after, entries.len() as int);
        lemma_ids_count(entries);
        lemma_ids_count(after);
        assert(listing_items(after) =~= listing_items(entries).push(properties_json(props)));
        lemma_comma_separated_push(listing_items(entries), properties_json(props));
    }
}

/// One change of the registry.
pub enum RegistryOp {
    /// A service with this record is registered.
    Add { props: ServicePropertiesView },
    /// The service with this id is removed.
    Remove { id: Seq<char> },
}

/// `entries` after one change.
pub open spec fn apply(entries: Seq<ServicePropertiesView>, op: RegistryOp) -> Seq<
    ServicePropertiesView,
> {
    match op {
        RegistryOp::Add { props } => with_service(entries, props),
        RegistryOp::Remove { id } => without_service(entries, id),
    }
}

/// `entries` after the changes `ops`, made in their order.
pub open spec fn apply_all(entries: Seq<ServicePropertiesView>, ops: Seq<RegistryOp>) -> Seq<
    ServicePropertiesView,
>
    decreases ops.len(),
{
    if ops.len() == 0 {
        entries
    } else {
        apply(apply_all(entries, ops.drop_last()), ops.last())
    }
}

/// Whether `id` is present after the changes `ops` to a registry in which it
/// was present or not, as `before` says: the last change that speaks of `id`
/// decides.
pub open spec fn present_after(before: bool, ops: Seq<RegistryOp>, id: Seq<char>) -> bool
    decreases ops.len(),
{
    if ops.len() == 0 {
        before
    } else {
        match ops.last() {
            RegistryOp::Add { props } => props.id == id || present_after(
                before,
                ops.drop_last(),
                id,
            ),
            RegistryOp::Remove { id: gone } => gone != id && present_after(
                before,
                ops.drop_last(),
                id,
            ),
        }
    }
}

/// Whatever changes are made in whatever order, the registry holds each id
/// once, holds exactly the ids that are present, and counts as many services
/// as there are present ids: no change is lost and none counts twice.
pub proof fn lemma_count_follows_changes(entries: Seq<ServicePropertiesView>, ops: Seq<RegistryOp>)
    requires
        unique_ids(entries),
    ensures
        unique_ids(apply_all(entries, ops)),
        forall|id: Seq<char>|
            contains_id(apply_all(entries, ops), id) <==> #[trigger] present_after(
                contains_id(entries, id),
                ops,
                id,
            ),
        ids(apply_all(entries, ops)).finite(),
        apply_all(entries, ops).len() == ids(apply_all(entries, ops)).len(),
    decreases ops.len(),
{
    let after = apply_all(entries, ops);
    if ops.len() > 0 {
        let front = apply_all(entries, ops.drop_last());
        lemma_count_follows_changes(entries, ops.drop_last());
        match ops.last() {
            RegistryOp::Add { props } => {
                lemma_with_service_unique(front, props);
                assert forall|id: Seq<char>|
                    contains_id(after, id) <==> #[trigger] present_after(
                        contains_id(entries, id),
                        ops,
                        id,
                    ) by {
                    lemma_with_service_contains(front, props, id);
                    assert(contains_id(front, id) <==> present_after(
                        contains_id(entries, id),
                        ops.drop_last(),
                        id,
                    ));
                }
            },
            RegistryOp::Remove { id: gone } => {
                lemma_without_service_unique(front, gone);
                assert forall|id: Seq<char>|
                    contains_id(after, id) <==> #[trigger] present_after(
                        contains_id(entries, id),
                        ops,
                        id,
                    ) by {
                    lemma_without_service_contains(front, gone, id);
                    assert(contains_id(front, id) <==> present_after(
                        contains_id(entries, id),
                        ops.drop_last(),
                        id,
                    ));
                }
            },
        }
    }
    lemma_ids_count(after);
}

/// A service together with the record it gave when it was registered.
pub struct Registered<S> {
    props: ServiceProperties,
    service: S,
}

/// The services that exist, keyed by id. They are kept in a vector in which
/// no id stands twice, so that the listing has one order, that of
/// registration, and a count is the number of ids.
pub struct Registry<S> {
    entries: Vec<Registered<S>>,
}

impl<S> View for Registry<S> {
    type V = Seq<ServicePropertiesView>;

    closed spec fn view(&self) -> Seq<ServicePropertiesView> {
        self.entries@.map_values(|e: Registered<S>| e.props@)
    }
}

impl<S> Registry<S> {
    #[verifier::type_invariant]
    spec fn ids_are_unique(&self) -> bool {
        unique_ids(self@)
    }

    /// The service objects, each at the place of its record in the view.
    pub closed spec fn services(&self) -> Seq<S> {
        self.entries@.map_values(|e: Registered<S>| e.service)
    }
}

impl<S: Service> Registry<S> {
    /// A registry with no service.
    pub fn new() -> (r: Registry<S>)
        ensures
            r@ == Seq::<ServicePropertiesView>::empty(),
            r.services() == Seq::<S>::empty(),
    {
        Registry { entries: Vec::new() }
    }

    /// The place of the service with `id`.
    pub fn position(&self, id: &String) -> (r: Option<usize>)
        ensures
            r is Some <==> contains_id(self@, id@),
            r matches Some(i) ==> i as int == index_of(self@, id@) && i < self@.len(),
    {
        proof {
            use_type_invariant(self);
        }
        let mut i: usize = 0;
        while i < self.entries.len()
            invariant
                i <= self.entries@.len(),
                self@.len() == self.entries@.len(),
                unique_ids(self@),
                forall|k: int| 0 <= k < i ==> (#[trigger] self@[k]).id != id@,
            decreases self.entries@.len() - i,
        {
            if self.entries[i].props.id == *id {
                proof {
                    lemma_index_of_unique(self@, i as int);
                }
                return Some(i);
            }
            i += 1;
        }
        None
    }

    /// How many services are registered: as many as there are registered ids.
    pub fn len(&self) -> (n: usize)
        ensures
            n == self@.len(),
            n == ids(self@).len(),
            unique_ids(self@),
    {
        proof {
            use_type_invariant(self);
            lemma_ids_count(self@);
        }
        self.entries.len()
    }

    /// The record of the service with `id`.
    pub fn get_properties(&self, id: &String) -> (r: Option<ServiceProperties>)
        ensures
            match r {
                Some(p) => lookup(self@, id@) == Some(p@),
                None => lookup(self@, id@) is None,
            },
    {
        match self.position(id) {
            Some(i) => {
                let p = self.entries[i].props.clone();
                Some(p)
            },
            None => None,
        }
    }

    /// The service with `id`.
    pub fn get_service(&self, id: &String) -> (r: Option<&S>)
        ensures
            r == if contains_id(self@, id@) {
                Some(&self.services()[index_of(self@, id@)])
            } else {
                None
            },
    {
        match self.position(id) {
            Some(i) => Some(&self.entries[i].service),
            None => None,
        }
    }

    /// Registers `service` under `props.id`; a service already registered under
    /// that id is replaced.
    pub fn insert(&mut self, props: ServiceProperties, service: S)
        ensures
            final(self)@ == with_service(old(self)@, props@),
            final(self).services() == if contains_id(old(self)@, props@.id) {
                old(self).services().update(index_of(old(self)@, props@.id), service)
            } else {
                old(self).services().push(service)
            },
    {
        proof {
            use_type_invariant(&*self);
            lemma_with_service_unique(self@, props@);
        }
        let ghost before = self@;
        let ghost new_props = props@;
        let found = self.position(&props.id);
        let mut entries: Vec<Registered<S>> = Vec::new();
        core::mem::swap(&mut self.entries, &mut entries);
        match found {
            Some(i) => {
                entries.set(i, Registered { props, service });
                assert(entries@.map_values(|e: Registered<S>| e.props@) =~= before.update(
                    i as int,
                    new_props,
                ));
            },
            None => {
                entries.push(Registered { props, service });
                assert(entries@.map_values(|e: Registered<S>| e.props@) =~= before.push(new_props));
            },
        }
        core::mem::swap(&mut self.entries, &mut entries);
    }

    /// Removes the service with `id`, if there is one, and says whether there was.
    pub fn remove(&mut self, id: &String) -> (found: bool)
        ensures
            found == contains_id(old(self)@, id@),
            final(self)@ == without_service(old(self)@, id@),
            final(self).services() == if found {
                old(self).services().remove(index_of(old(self)@, id@))
            } else {
                old(self).services()
            },
    {
        proof {
            use_type_invariant(&*self);
            lemma_without_service_unique(self@, id@);
        }
        let ghost before = self@;
        match self.position(id) {
            Some(i) => {
                let mut entries: Vec<Registered<S>> = Vec::new();
                core::mem::swap(&mut self.entries, &mut entries);
                entries.remove(i);
                assert(entries@.map_values(|e: Registered<S>| e.props@) =~= without_service(
                    before,
                    id@,
                ));
                core::mem::swap(&mut self.entries, &mut entries);
                true
            },
            None => false,
        }
    }

    /// The JSON array that lists the records of the registered services, in
    /// their order.
    pub fn to_json(&self) -> (r: Result<String, EncodeError>)
        ensures
            r matches Ok(s) && s@ == listing_json(self@),
    {
        let mut out = String::from_str("[");
        let mut i: usize = 0;
        while i < self.entries.len()
            invariant
                i <= self.entries@.len(),
                self@.len() == self.entries@.len(),
                out@ == "["@ + comma_separated(listing_items(self@.take(i as int))),
            decreases self.entries@.len() - i,
        {
            let item = match properties_to_json(&self.entries[i].props) {
                Ok(item) => item,
                Err(e) => {
                    return Err(e);
                },
            };
            if i > 0 {
                out.append(",");
            }
            out.append(item.as_str());
            proof {
                let before = listing_items(self@.take(i as int));
                assert(listing_items(self@.take(i + 1)) =~= before.push(item@));
                lemma_comma_separated_push(before, item@);
            }
            i += 1;
        }
        out.append("]");
        assert(self@.take(i as int) =~= self@);
        Ok(out)
    }
}

} // verus!
