use vstd::prelude::*;

verus! {

/// This application's identity, the first half of every tenant id.
pub const APP_ID: &'static str = "saleor-app";

/// The credentials stored for one tenant: one installation of this app on
/// one Saleor instance.
#[derive(Debug)]
pub struct AuthData {
    /// The tenant's host name, where it sent one.
    pub domain: Option<String>,
    /// The token with which this app calls the tenant's API.
    pub token: String,
    /// The tenant's API endpoint.
    pub saleor_api_url: String,
    /// This application's identity.
    pub app_id: String,
    /// The tenant's signing keys as a JSON Web Key Set, where cached.
    pub jwks: Option<String>,
}

fn clone_opt_string(o: &Option<String>) -> (r: Option<String>)
    ensures
        r == *o,
{
    match o {
        Some(s) => Some(s.clone()),
        None => None,
    }
}

impl Clone for AuthData {
    fn clone(&self) -> (r: Self)
        ensures
            r == *self,
    {
        AuthData {
            domain: clone_opt_string(&self.domain),
            token: self.token.clone(),
            saleor_api_url: self.saleor_api_url.clone(),
            app_id: self.app_id.clone(),
            jwks: clone_opt_string(&self.jwks),
        }
    }
}

/// The key under which a tenant's credentials are stored.
pub open spec fn tenant_id(app_id: Seq<char>, api_url: Seq<char>) -> Seq<char> {
    app_id + ":"@ + api_url
}

/// A tenant id: this app's id and the tenant's API endpoint, joined by `:`.
#[derive(Debug, PartialEq, Eq, Hash)]
pub struct AplId(String);

impl View for AplId {
    type V = Seq<char>;

    closed spec fn view(&self) -> Seq<char> {
        self.0@
    }
}

fn join_tenant_id(app_id: &str, api_url: &str) -> (r: AplId)
    ensures
        r@ == tenant_id(app_id@, api_url@),
{
    let mut s = String::from_str(app_id);
    s.append(":");
    s.append(api_url);
    AplId(s)
}

impl AplId {
    /// The tenant id of stored credentials.
    pub fn from_auth_data(auth_data: &AuthData) -> (r: Self)
        ensures
            r@ == tenant_id(auth_data.app_id@, auth_data.saleor_api_url@),
    {
        join_tenant_id(auth_data.app_id.as_str(), auth_data.saleor_api_url.as_str())
    }

    /// The tenant id of this app on the tenant with the given API endpoint.
    pub fn from_api_url(api_url: &str) -> (r: AplId)
        ensures
            r@ == tenant_id(APP_ID@, api_url@),
    {
        join_tenant_id(APP_ID, api_url)
    }

    /// The tenant id as text.
    pub fn as_str(&self) -> (r: &str)
        ensures
            r@ == self@,
    {
        self.0.as_str()
    }
}

/// What a store holds for a tenant id, if anything.
pub open spec fn lookup(records: Map<Seq<char>, AuthData>, id: Seq<char>) -> Option<AuthData> {
    if records.contains_key(id) {
        Some(records[id])
    } else {
        None
    }
}

/// A storage backend failed; distinct from a tenant that has no record.
#[derive(Debug)]
pub struct StoreError {
    pub message: String,
}

/// A store of credentials with one record per tenant id. Writes replace the
/// whole record; a failed write changes nothing.
pub trait AplStore {
    /// The records held, by tenant id. A store that does not describe its
    /// contents is taken to hold none.
    open spec fn records(&self) -> Map<Seq<char>, AuthData> {
        Map::empty()
    }

    /// Whether every operation of the store succeeds. A store whose backend
    /// can fail (a file, a database) leaves this `false`.
    open spec fn infallible(&self) -> bool {
        false
    }

    /// The store's internal consistency, kept by every operation.
    open spec fn well_formed(&self) -> bool {
        true
    }

    fn get(&self, apl_id: &AplId) -> (r: Result<Option<AuthData>, StoreError>)
        requires
            self.well_formed(),
        ensures
            self.infallible() ==> r is Ok,
            r matches Ok(found) ==> found == lookup(self.records(), apl_id@),
    ;

    fn set(&mut self, apl_id: &AplId, auth_data: AuthData) -> (r: Result<(), StoreError>)
        requires
            old(self).well_formed(),
        ensures
            final(self).well_formed(),
            old(self).infallible() ==> r is Ok,
            r is Ok ==> final(self).records() == old(self).records().insert(apl_id@, auth_data),
            r is Err ==> final(self).records() == old(self).records(),
    ;

    fn remove(&mut self, apl_id: &AplId) -> (r: Result<(), StoreError>)
        requires
            old(self).well_formed(),
        ensures
            final(self).well_formed(),
            old(self).infallible() ==> r is Ok,
            r is Ok ==> final(self).records() == old(self).records().remove(apl_id@),
            r is Err ==> final(self).records() == old(self).records(),
    ;
}

/// A store that keeps its records in memory, for development and tests.
pub struct MemoryAplStore {
    ids: Vec<String>,
    data: Vec<AuthData>,
    model: Ghost<Map<Seq<char>, AuthData>>,
}

impl MemoryAplStore {
    spec fn consistent(&self) -> bool {
        &&& self.ids@.len() == self.data@.len()
        &&& forall|a: int, b: int|
            0 <= a < self.ids@.len() && 0 <= b < self.ids@.len() && a != b ==> #[trigger] self.ids@[a]@
                != #[trigger] self.ids@[b]@
        &&& forall|a: int|
            0 <= a < self.ids@.len() ==> self.model@.contains_key(#[trigger] self.ids@[a]@)
                && self.model@[self.ids@[a]@] == self.data@[a]
        &&& forall|k: Seq<char>|
            #[trigger] self.model@.contains_key(k) ==> exists|a: int|
                0 <= a < self.ids@.len() && self.ids@[a]@ == k
    }

    /// An empty store.
    pub fn new() -> (r: Self)
        ensures
            r.records() == Map::<Seq<char>, AuthData>::empty(),
            r.well_formed(),
    {
        MemoryAplStore { ids: Vec::new(), data: Vec::new(), model: Ghost(Map::empty()) }
    }

    /// The position of a tenant id in the store, if it is there.
    fn position(&self, apl_id: &AplId) -> (r: Option<usize>)
        ensures
            r matches Some(i) ==> i < self.ids@.len() && self.ids@[i as int]@ == apl_id@,
            r is None ==> forall|a: int| 0 <= a < self.ids@.len() ==> self.ids@[a]@ != apl_id@,
    {
        let mut i: usize = 0;
        while i < self.ids.len()
            invariant
                i <= self.ids@.len(),
                forall|a: int| 0 <= a < i ==> self.ids@[a]@ != apl_id@,
            decreases self.ids.len() - i,
        {
            if self.ids[i] == apl_id.0 {
                return Some(i);
            }
            i += 1;
        }
        None
    }
}

impl AplStore for MemoryAplStore {
    closed spec fn records(&self) -> Map<Seq<char>, AuthData> {
        self.model@
    }

    closed spec fn well_formed(&self) -> bool {
        self.consistent()
    }

    open spec fn infallible(&self) -> bool {
        true
    }

    fn get(&self, apl_id: &AplId) -> (r: Result<Option<AuthData>, StoreError>) {
        match self.position(apl_id) {
            Some(i) => Ok(Some(self.data[i].clone())),
            None => Ok(None),
        }
    }

    fn set(&mut self, apl_id: &AplId, auth_data: AuthData) -> (r: Result<(), StoreError>) {
        let ghost key = apl_id@;
        let ghost before = self.model@;
        match self.position(apl_id) {
            Some(i) => {
                self.data.set(i, auth_data);
                proof {
                    self.model@ = before.insert(key, auth_data);
                    assert forall|a: int| 0 <= a < self.ids@.len() implies self.model@.contains_key(
                        #[trigger] self.ids@[a]@,
                    ) && self.model@[self.ids@[a]@] == self.data@[a] by {
                        if a != i {
                            assert(self.ids@[a]@ != self.ids@[i as int]@);
                        }
                    }
                    assert forall|k: Seq<char>| #[trigger]
                        self.model@.contains_key(k) implies exists|a: int|
                        0 <= a < self.ids@.len() && self.ids@[a]@ == k by {
                        if k == key {
                            assert(self.ids@[i as int]@ == k);
                        }
                    }
                }
            },
            None => {
                self.ids.push(String::from_str(apl_id.as_str()));
                self.data.push(auth_data);
                proof {
                    self.model@ = before.insert(key, auth_data);
                    let n = self.ids@.len() - 1;
                    assert(self.ids@[n]@ == key);
                    assert forall|a: int| 0 <= a < self.ids@.len() implies self.model@.contains_key(
                        #[trigger] self.ids@[a]@,
                    ) && self.model@[self.ids@[a]@] == self.data@[a] by {
                        if a != n {
                            assert(self.ids@[a] == old(self).ids@[a]);
                        }
                    }
                    assert forall|k: Seq<char>| #[trigger]
                        self.model@.contains_key(k) implies exists|a: int|
                        0 <= a < self.ids@.len() && self.ids@[a]@ == k by {
                        if k == key {
                            assert(self.ids@[n]@ == k);
                        } else {
                            let a = choose|a: int| 0 <= a < old(self).ids@.len() && old(self).ids@[a]@ == k;
                            assert(self.ids@[a] == old(self).ids@[a]);
                        }
                    }
                }
            },
        }
        Ok(())
    }

    fn remove(&mut self, apl_id: &AplId) -> (r: Result<(), StoreError>) {
        let ghost key = apl_id@;
        let ghost before = self.model@;
        match self.position(apl_id) {
            Some(i) => {
                self.ids.remove(i);
                self.data.remove(i);
                proof {
                    self.model@ = before.remove(key);
                    let old_ids = old(self).ids@;
                    assert forall|a: int, b: int|
                        0 <= a < self.ids@.len() && 0 <= b < self.ids@.len() && a != b implies #[trigger] self.ids@[a]@
                        != #[trigger] self.ids@[b]@ by {
                        let oa = if a < i { a } else { a + 1 };
                        let ob = if b < i { b } else { b + 1 };
                        assert(self.ids@[a] == old_ids[oa]);
                        assert(self.ids@[b] == old_ids[ob]);
                    }
                    assert forall|a: int| 0 <= a < self.ids@.len() implies self.model@.contains_key(
                        #[trigger] self.ids@[a]@,
                    ) && self.model@[self.ids@[a]@] == self.data@[a] by {
                        let oa = if a < i { a } else { a + 1 };
                        assert(self.ids@[a] == old_ids[oa]);
                        assert(self.data@[a] == old(self).data@[oa]);
                        assert(old_ids[oa]@ != old_ids[i as int]@);
                    }
                    assert forall|k: Seq<char>| #[trigger]
                        self.model@.contains_key(k) implies exists|a: int|
                        0 <= a < self.ids@.len() && self.ids@[a]@ == k by {
                        let oa = choose|a: int| 0 <= a < old_ids.len() && old_ids[a]@ == k;
                        assert(oa != i);
                        let a = if oa < i { oa } else { oa - 1 };
                        assert(self.ids@[a] == old_ids[oa]);
                    }
                }
            },
            None => {
                proof {
                    self.model@ = before.remove(key);
                    assert forall|a: int| 0 <= a < self.ids@.len() implies self.model@.contains_key(
                        #[trigger] self.ids@[a]@,
                    ) && self.model@[self.ids@[a]@] == self.data@[a] by {
                        assert(self.ids@[a]@ != key);
                    }
                }
            },
        }
        Ok(())
    }
}

/// One write to a store: `(id, Some(record))` sets a record, `(id, None)`
/// removes it.
pub open spec fn apply_write(
    records: Map<Seq<char>, AuthData>,
    write: (Seq<char>, Option<AuthData>),
) -> Map<Seq<char>, AuthData> {
    match write.1 {
        Some(d) => records.insert(write.0, d),
        None => records.remove(write.0),
    }
}

/// The records after a sequence of writes, applied in order.
pub open spec fn apply_writes(
    records: Map<Seq<char>, AuthData>,
    writes: Seq<(Seq<char>, Option<AuthData>)>,
) -> Map<Seq<char>, AuthData>
    decreases writes.len(),
{
    if writes.len() == 0 {
        records
    } else {
        apply_write(apply_writes(records, writes.drop_last()), writes.last())
    }
}

/// The writes of a sequence that concern one tenant id.
pub open spec fn writes_for(
    writes: Seq<(Seq<char>, Option<AuthData>)>,
    id: Seq<char>,
) -> Seq<(Seq<char>, Option<AuthData>)> {
    writes.filter(|w: (Seq<char>, Option<AuthData>)| w.0 == id)
}

/// After `set(id, record)`, `get(id)` returns the record for as long as no
/// later write concerns `id`, whatever writes for other tenants come between.
pub proof fn lemma_get_after_set(
    records: Map<Seq<char>, AuthData>,
    id: Seq<char>,
    record: AuthData,
    later: Seq<(Seq<char>, Option<AuthData>)>,
)
    requires
        forall|i: int| 0 <= i < later.len() ==> (#[trigger] later[i]).0 != id,
    ensures
        lookup(apply_writes(records.insert(id, record), later), id) == Some(record),
    decreases later.len(),
{
    if later.len() > 0 {
        let rest = later.drop_last();
        assert forall|i: int| 0 <= i < rest.len() implies (#[trigger] rest[i]).0 != id by {
            assert(rest[i] == later[i]);
        }
        lemma_get_after_set(records, id, record, rest);
        assert(later.last() == later[later.len() - 1]);
    }
}

/// After `remove(id)`, `get(id)` returns nothing.
pub proof fn lemma_get_after_remove(records: Map<Seq<char>, AuthData>, id: Seq<char>)
    ensures
        lookup(apply_write(records, (id, None)), id) is None,
{
}

/// Tenants do not see each other's writes: what `get(id)` returns after any
/// interleaving of writes is what it returns after the writes for `id` alone.
pub proof fn lemma_tenants_independent(
    records: Map<Seq<char>, AuthData>,
    writes: Seq<(Seq<char>, Option<AuthData>)>,
    id: Seq<char>,
)
    ensures
        lookup(apply_writes(records, writes), id) == lookup(
            apply_writes(records, writes_for(writes, id)),
            id,
        ),
    decreases writes.len(),
{
    reveal(Seq::filter);
    if writes.len() > 0 {
        let rest = writes.drop_last();
        let w = writes.last();
        lemma_tenants_independent(records, rest, id);
        let own = writes_for(rest, id);
        if w.0 == id {
            assert(writes_for(writes, id) == own.push(w));
            assert(own.push(w).drop_last() == own);
        } else {
            assert(writes_for(writes, id) == own);
        }
    }
}

} // verus!
