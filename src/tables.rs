use vstd::prelude::*;
use crate::socket::InflightAccept;

verus! {

#[verifier::external_type_specification]
#[verifier::external_body]
pub struct ExBytes(bytes::Bytes);

/// The bytes that a `Bytes` buffer holds.
pub uninterp spec fn payload_of(b: bytes::Bytes) -> Seq<u8>;

/// Relies on bytes::Bytes::new: a buffer that holds no bytes.
pub assume_specification[ bytes::Bytes::new ]() -> (r: bytes::Bytes)
    ensures
        payload_of(r).len() == 0,
;

/// What an in-flight table holds, keyed by remote (address, port).
pub uninterp spec fn inflight_entries(t: InflightTable) -> Map<(u32, u16), InflightAccept>;

/// What an endpoint set holds.
pub uninterp spec fn endpoint_members(s: EndpointSet) -> Set<(u32, u16)>;

/// The half-open attempts of a listener, in a hashbrown map keyed by remote endpoint.
#[verifier::external_body]
pub struct InflightTable {
    map: hashbrown::HashMap<(u32, u16), InflightAccept>,
}

impl View for InflightTable {
    type V = Map<(u32, u16), InflightAccept>;

    open spec fn view(&self) -> Map<(u32, u16), InflightAccept> {
        inflight_entries(*self)
    }
}

impl InflightTable {
    /// Relies on hashbrown::HashMap::new: an empty map.
    #[verifier::external_body]
    pub fn new() -> (r: InflightTable)
        ensures
            inflight_entries(r).dom().is_empty(),
    {
        InflightTable { map: hashbrown::HashMap::new() }
    }

    /// Relies on hashbrown::HashMap::len: the number of entries.
    #[verifier::external_body]
    pub fn len(&self) -> (r: usize)
        ensures
            r == inflight_entries(*self).len(),
    {
        self.map.len()
    }

    /// Relies on hashbrown::HashMap::get: the entry under `k`, if any.
    #[verifier::external_body]
    pub fn get(&self, k: &(u32, u16)) -> (r: Option<InflightAccept>)
        ensures
            r == (if inflight_entries(*self).contains_key(*k) { Some(inflight_entries(*self)[*k]) } else { None::<InflightAccept> }),
    {
        self.map.get(k).copied()
    }

    /// Relies on hashbrown::HashMap::insert: `k` maps to `v` afterwards, other keys keep theirs.
    #[verifier::external_body]
    pub fn insert(&mut self, k: (u32, u16), v: InflightAccept)
        ensures
            inflight_entries(*final(self)) == inflight_entries(*old(self)).insert(k, v),
    {
        self.map.insert(k, v);
    }

    /// Relies on hashbrown::HashMap::remove: `k` is gone afterwards, other keys keep theirs.
    #[verifier::external_body]
    pub fn remove(&mut self, k: &(u32, u16))
        ensures
            inflight_entries(*final(self)) == inflight_entries(*old(self)).remove(*k),
    {
        self.map.remove(k);
    }
}

/// A set of endpoint keys in a hashbrown set.
#[verifier::external_body]
pub struct EndpointSet {
    set: hashbrown::HashSet<(u32, u16)>,
}

impl View for EndpointSet {
    type V = Set<(u32, u16)>;

    open spec fn view(&self) -> Set<(u32, u16)> {
        endpoint_members(*self)
    }
}

impl EndpointSet {
    /// Relies on hashbrown::HashSet::new: an empty set.
    #[verifier::external_body]
    pub fn new() -> (r: EndpointSet)
        ensures
            endpoint_members(r).is_empty(),
    {
        EndpointSet { set: hashbrown::HashSet::new() }
    }

    /// Relies on hashbrown::HashSet::contains: membership of `k`.
    #[verifier::external_body]
    pub fn contains(&self, k: &(u32, u16)) -> (r: bool)
        ensures
            r == endpoint_members(*self).contains(*k),
    {
        self.set.contains(k)
    }

    /// Relies on hashbrown::HashSet::insert: adds `k`, true when it was absent.
    #[verifier::external_body]
    pub fn insert(&mut self, k: (u32, u16)) -> (r: bool)
        ensures
            endpoint_members(*final(self)) == endpoint_members(*old(self)).insert(k),
            r == !endpoint_members(*old(self)).contains(k),
    {
        self.set.insert(k)
    }

    /// Relies on hashbrown::HashSet::remove: drops `k`, true when it was present.
    #[verifier::external_body]
    pub fn remove(&mut self, k: &(u32, u16)) -> (r: bool)
        ensures
            endpoint_members(*final(self)) == endpoint_members(*old(self)).remove(*k),
            r == endpoint_members(*old(self)).contains(*k),
    {
        self.set.remove(k)
    }
}

} // verus!
