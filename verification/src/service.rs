//! The registry of watched services: what can be added, replaced, removed
//! and looked up by id, and the laws that tie those operations together.

use vstd::prelude::*;

verus! {

/// How a service is probed: an HTTP request or a bare TCP connection.
#[derive(PartialEq, Eq, Structural, Clone, Copy, Debug)]
pub enum ServiceType {
    Web,
    Tcp,
}

/// One watched service, as the user configured it.
#[derive(Debug)]
pub struct ServiceConfig {
    pub id: String,
    pub name: String,
    pub service_type: ServiceType,
    pub host: String,
    pub port: u16,
    pub check_interval: u64,
    pub enabled: bool,
}

impl ServiceConfig {
    /// A field-by-field copy.
    pub fn duplicate(&self) -> (r: ServiceConfig)
        ensures
            r == *self,
    {
        ServiceConfig {
            id: self.id.clone(),
            name: self.name.clone(),
            service_type: self.service_type,
            host: self.host.clone(),
            port: self.port,
            check_interval: self.check_interval,
            enabled: self.enabled,
        }
    }
}

/// Some service in `s` carries the id `id`.
pub open spec fn has_id(s: Seq<ServiceConfig>, id: Seq<char>) -> bool {
    exists|i: int| 0 <= i < s.len() && #[trigger] s[i].id@ == id
}

/// `i` is the position of the first service in `s` that carries `id`.
pub open spec fn is_first_match(s: Seq<ServiceConfig>, id: Seq<char>, i: int) -> bool {
    &&& 0 <= i < s.len()
    &&& s[i].id@ == id
    &&& forall|j: int| 0 <= j < i ==> #[trigger] s[j].id@ != id
}

/// The position of the first service that carries `id` (meaningful where
/// `has_id(s, id)`).
pub open spec fn first_match(s: Seq<ServiceConfig>, id: Seq<char>) -> int {
    choose|i: int| is_first_match(s, id, i)
}

/// What a lookup of `id` finds: the first service that carries it.
pub open spec fn lookup(s: Seq<ServiceConfig>, id: Seq<char>) -> Option<ServiceConfig> {
    if has_id(s, id) {
        Some(s[first_match(s, id)])
    } else {
        None
    }
}

/// The list after adding `svc`: appended when its id is new, else unchanged.
pub open spec fn after_add(s: Seq<ServiceConfig>, svc: ServiceConfig) -> Seq<ServiceConfig> {
    if has_id(s, svc.id@) {
        s
    } else {
        s.push(svc)
    }
}

/// The list after replacing the service with id `id` by `svc`: the first
/// match is overwritten, else nothing changes.
pub open spec fn after_update(
    s: Seq<ServiceConfig>,
    id: Seq<char>,
    svc: ServiceConfig,
) -> Seq<ServiceConfig> {
    if has_id(s, id) {
        s.update(first_match(s, id), svc)
    } else {
        s
    }
}

/// The list after deleting the service with id `id`: the first match is
/// removed, else nothing changes.
pub open spec fn after_delete(s: Seq<ServiceConfig>, id: Seq<char>) -> Seq<ServiceConfig> {
    if has_id(s, id) {
        s.remove(first_match(s, id))
    } else {
        s
    }
}

/// The services that are switched on, in their order.
pub open spec fn enabled_of(s: Seq<ServiceConfig>) -> Seq<ServiceConfig> {
    s.filter(|c: ServiceConfig| c.enabled)
}

/// The message for an add whose id is taken.
pub open spec fn duplicate_id_text() -> Seq<char> {
    "服务 ID 已存在"@
}

/// The message for an id that no service carries.
pub open spec fn missing_service_text() -> Seq<char> {
    "服务不存在"@
}

/// The first match is the only position that is a first match.
pub proof fn lemma_first_match_unique(s: Seq<ServiceConfig>, id: Seq<char>, i: int)
    requires
        is_first_match(s, id, i),
    ensures
        first_match(s, id) == i,
        has_id(s, id),
{
    let k = first_match(s, id);
    assert(is_first_match(s, id, k));
    if k < i {
        assert(s[k].id@ != id);
    }
    if i < k {
        assert(s[i].id@ != id);
    }
}

/// Where some service carries `id`, a first one does.
pub proof fn lemma_first_match_exists(s: Seq<ServiceConfig>, id: Seq<char>)
    requires
        has_id(s, id),
    ensures
        is_first_match(s, id, first_match(s, id)),
{
    let w = choose|i: int| 0 <= i < s.len() && #[trigger] s[i].id@ == id;
    lemma_first_below(s, id, w);
}

proof fn lemma_first_below(s: Seq<ServiceConfig>, id: Seq<char>, w: int)
    requires
        0 <= w < s.len(),
        s[w].id@ == id,
    ensures
        is_first_match(s, id, first_match(s, id)),
    decreases w,
{
    if exists|j: int| 0 <= j < w && #[trigger] s[j].id@ == id {
        let j = choose|j: int| 0 <= j < w && #[trigger] s[j].id@ == id;
        lemma_first_below(s, id, j);
    } else {
        assert(is_first_match(s, id, w));
        lemma_first_match_unique(s, id, w);
    }
}

/// A lookup finds a service exactly when one carries the id, and then it is
/// the first such service in the list.
pub proof fn law_lookup_finds_first(s: Seq<ServiceConfig>, id: Seq<char>)
    ensures
        lookup(s, id) is Some <==> has_id(s, id),
        lookup(s, id) matches Some(c) ==> c.id@ == id && exists|k: int|
            is_first_match(s, id, k) && s[k] == c,
{
    if has_id(s, id) {
        lemma_first_match_exists(s, id);
    }
}

/// The enabled services are all switched on, none of them is new, and every
/// switched-on service is among them.
pub proof fn law_enabled_services(s: Seq<ServiceConfig>)
    ensures
        enabled_of(s).len() <= s.len(),
        forall|i: int| 0 <= i < enabled_of(s).len() ==> (#[trigger] enabled_of(s)[i]).enabled,
        forall|i: int| 0 <= i < s.len() && s[i].enabled ==> enabled_of(s).contains(#[trigger] s[i]),
{
    let pred = |c: ServiceConfig| c.enabled;
    s.lemma_filter_len(pred);
    assert forall|i: int| 0 <= i < enabled_of(s).len() implies (#[trigger] enabled_of(s)[i]).enabled by {
        s.lemma_filter_pred(pred, i);
    }
    assert forall|i: int| 0 <= i < s.len() && s[i].enabled implies enabled_of(s).contains(#[trigger] s[i]) by {
        s.lemma_filter_contains(pred, i);
    }
}

/// An add refused because the id is taken leaves the list exactly as it was.
pub proof fn law_refused_add_keeps_list(s: Seq<ServiceConfig>, svc: ServiceConfig)
    requires
        has_id(s, svc.id@),
    ensures
        after_add(s, svc) == s,
{
}

/// An add under a new id keeps every service where it was and puts the new
/// one after them.
pub proof fn law_add_appends(s: Seq<ServiceConfig>, svc: ServiceConfig)
    requires
        !has_id(s, svc.id@),
    ensures
        after_add(s, svc).len() == s.len() + 1,
        after_add(s, svc)[s.len() as int] == svc,
        forall|i: int| 0 <= i < s.len() ==> #[trigger] after_add(s, svc)[i] == s[i],
{
}

/// A replacement puts the new service at the position of the first service
/// with the id and leaves every other service where it was.
pub proof fn law_update_in_place(s: Seq<ServiceConfig>, id: Seq<char>, svc: ServiceConfig, k: int)
    requires
        is_first_match(s, id, k),
    ensures
        after_update(s, id, svc).len() == s.len(),
        after_update(s, id, svc)[k] == svc,
        forall|i: int|
            0 <= i < s.len() && i != k ==> #[trigger] after_update(s, id, svc)[i] == s[i],
{
    lemma_first_match_unique(s, id, k);
}

/// A replacement of an id that no service carries changes nothing.
pub proof fn law_update_missing_keeps_list(s: Seq<ServiceConfig>, id: Seq<char>, svc: ServiceConfig)
    requires
        !has_id(s, id),
    ensures
        after_update(s, id, svc) == s,
{
}

/// A delete takes out the first service with the id and keeps the others in
/// their order: those before it stay, those after it move up by one.
pub proof fn law_delete_keeps_order(s: Seq<ServiceConfig>, id: Seq<char>, k: int)
    requires
        is_first_match(s, id, k),
    ensures
        after_delete(s, id).len() == s.len() - 1,
        forall|i: int| 0 <= i < k ==> #[trigger] after_delete(s, id)[i] == s[i],
        forall|i: int| k <= i < s.len() - 1 ==> #[trigger] after_delete(s, id)[i] == s[i + 1],
{
    lemma_first_match_unique(s, id, k);
}

/// A delete of an id that no service carries changes nothing.
pub proof fn law_delete_missing_keeps_list(s: Seq<ServiceConfig>, id: Seq<char>)
    requires
        !has_id(s, id),
    ensures
        after_delete(s, id) == s,
{
}

/// A service added under a new id is what a lookup of that id then finds.
pub proof fn law_add_then_lookup(s: Seq<ServiceConfig>, svc: ServiceConfig)
    requires
        !has_id(s, svc.id@),
    ensures
        lookup(after_add(s, svc), svc.id@) == Some(svc),
{
    let t = s.push(svc);
    assert(is_first_match(t, svc.id@, s.len() as int));
    lemma_first_match_unique(t, svc.id@, s.len() as int);
}

/// Deleting the id of a service that was just added under a new id gives
/// back the list as it was before the add.
pub proof fn law_add_then_delete(s: Seq<ServiceConfig>, svc: ServiceConfig)
    requires
        !has_id(s, svc.id@),
    ensures
        after_delete(after_add(s, svc), svc.id@) == s,
{
    let t = s.push(svc);
    assert(is_first_match(t, svc.id@, s.len() as int));
    lemma_first_match_unique(t, svc.id@, s.len() as int);
    assert(t.remove(s.len() as int) =~= s);
}

/// Replacing the service with id `id` by one that keeps that id makes a
/// lookup of `id` find the replacement.
pub proof fn law_update_then_lookup(s: Seq<ServiceConfig>, id: Seq<char>, svc: ServiceConfig)
    requires
        has_id(s, id),
        svc.id@ == id,
    ensures
        lookup(after_update(s, id, svc), id) == Some(svc),
{
    lemma_first_match_exists(s, id);
    let k = first_match(s, id);
    let t = s.update(k, svc);
    assert(is_first_match(t, id, k));
    lemma_first_match_unique(t, id, k);
}

/// Adding a service changes no lookup of another id.
pub proof fn law_add_keeps_other_lookups(s: Seq<ServiceConfig>, svc: ServiceConfig, other: Seq<char>)
    requires
        other != svc.id@,
    ensures
        lookup(after_add(s, svc), other) == lookup(s, other),
{
    if !has_id(s, svc.id@) {
        let t = s.push(svc);
        if has_id(s, other) {
            lemma_first_match_exists(s, other);
            let j = first_match(s, other);
            assert(is_first_match(t, other, j));
            lemma_first_match_unique(t, other, j);
        } else {
            assert forall|i: int| 0 <= i < t.len() implies #[trigger] t[i].id@ != other by {
                if i < s.len() {
                    assert(t[i] == s[i]);
                }
            }
        }
    }
}

/// Deleting the service with id `id` changes no lookup of another id.
pub proof fn law_delete_keeps_other_lookups(s: Seq<ServiceConfig>, id: Seq<char>, other: Seq<char>)
    requires
        other != id,
    ensures
        lookup(after_delete(s, id), other) == lookup(s, other),
{
    if has_id(s, id) {
        lemma_first_match_exists(s, id);
        let k = first_match(s, id);
        let t = s.remove(k);
        assert(forall|i: int| 0 <= i < k ==> t[i] == s[i]);
        assert(forall|i: int| k <= i < t.len() ==> t[i] == s[i + 1]);
        if has_id(s, other) {
            lemma_first_match_exists(s, other);
            let j = first_match(s, other);
            if j < k {
                assert(is_first_match(t, other, j));
                lemma_first_match_unique(t, other, j);
            } else {
                assert(j != k);
                assert forall|i: int| 0 <= i < j - 1 implies #[trigger] t[i].id@ != other by {
                    if i >= k {
                        assert(t[i] == s[i + 1]);
                    }
                }
                assert(is_first_match(t, other, j - 1));
                lemma_first_match_unique(t, other, j - 1);
            }
        } else {
            assert forall|i: int| 0 <= i < t.len() implies #[trigger] t[i].id@ != other by {
                if i >= k {
                    assert(t[i] == s[i + 1]);
                }
            }
        }
    }
}

/// Replacing the service with id `id` by one that keeps that id changes no
/// lookup of another id.
pub proof fn law_update_keeps_other_lookups(
    s: Seq<ServiceConfig>,
    id: Seq<char>,
    svc: ServiceConfig,
    other: Seq<char>,
)
    requires
        svc.id@ == id,
        other != id,
    ensures
        lookup(after_update(s, id, svc), other) == lookup(s, other),
{
    if has_id(s, id) {
        lemma_first_match_exists(s, id);
        let k = first_match(s, id);
        let t = s.update(k, svc);
        if has_id(s, other) {
            lemma_first_match_exists(s, other);
            let j = first_match(s, other);
            assert(j != k);
            assert(is_first_match(t, other, j));
            lemma_first_match_unique(t, other, j);
        } else {
            assert forall|i: int| 0 <= i < t.len() implies #[trigger] t[i].id@ != other by {
                if i != k {
                    assert(t[i] == s[i]);
                }
            }
        }
    }
}

/// An add that succeeds grows the list by one, a delete that succeeds
/// shrinks it by one, and a replacement keeps its length.
pub proof fn law_sizes(s: Seq<ServiceConfig>, id: Seq<char>, svc: ServiceConfig)
    ensures
        !has_id(s, svc.id@) ==> after_add(s, svc).len() == s.len() + 1,
        has_id(s, id) ==> after_delete(s, id).len() == s.len() - 1,
        after_update(s, id, svc).len() == s.len(),
{
    if has_id(s, id) {
        lemma_first_match_exists(s, id);
    }
}

/// The services that the dashboard watches, in the order they were added.
#[derive(Debug)]
pub struct ServiceRegistry {
    services: Vec<ServiceConfig>,
}

impl View for ServiceRegistry {
    type V = Seq<ServiceConfig>;

    closed spec fn view(&self) -> Seq<ServiceConfig> {
        self.services@
    }
}

impl ServiceRegistry {
    /// A registry that holds `services`, as they were loaded.
    pub fn new(services: Vec<ServiceConfig>) -> (r: ServiceRegistry)
        ensures
            r@ == services@,
    {
        ServiceRegistry { services }
    }

    /// The registry that a load gives: the services read, or none when
    /// nothing could be read.
    pub fn from_loaded(loaded: Option<Vec<ServiceConfig>>) -> (r: ServiceRegistry)
        ensures
            loaded matches Some(v) ==> r@ == v@,
            loaded is None ==> r@ == Seq::<ServiceConfig>::empty(),
    {
        match loaded {
            Some(v) => ServiceRegistry { services: v },
            None => ServiceRegistry { services: Vec::new() },
        }
    }

    /// The position of the first service that carries `id`, if any.
    pub fn position(&self, id: &String) -> (r: Option<usize>)
        ensures
            match r {
                Some(i) => is_first_match(self@, id@, i as int) && first_match(self@, id@)
                    == i,
                None => !has_id(self@, id@),
            },
    {
        let n = self.services.len();
        let mut i: usize = 0;
        while i < n
            invariant
                n == self@.len(),
                i <= n,
                forall|j: int| 0 <= j < i ==> #[trigger] self@[j].id@ != id@,
            decreases n - i,
        {
            if self.services[i].id == *id {
                proof {
                    lemma_first_match_unique(self@, id@, i as int);
                }
                return Some(i);
            }
            i = i + 1;
        }
        None
    }

    /// A copy of every service, in order.
    pub fn get_services(&self) -> (r: Vec<ServiceConfig>)
        ensures
            r@ == self@,
    {
        let n = self.services.len();
        let mut out: Vec<ServiceConfig> = Vec::new();
        let mut i: usize = 0;
        while i < n
            invariant
                n == self@.len(),
                i <= n,
                out@ == self@.take(i as int),
            decreases n - i,
        {
            out.push(self.services[i].duplicate());
            proof {
                assert(self@.take(i + 1) =~= self@.take(i as int).push(self@[i as int]));
            }
            i = i + 1;
        }
        proof {
            assert(self@.take(n as int) =~= self@);
        }
        out
    }

    /// Adds `service` unless its id is already taken; hands the added
    /// service back.
    pub fn add_service(&mut self, service: ServiceConfig) -> (r: Result<ServiceConfig, String>)
        ensures
            final(self)@ == after_add(old(self)@, service),
            has_id(old(self)@, service.id@) <==> r is Err,
            r matches Ok(s) ==> s == service,
            r matches Err(e) ==> e@ == duplicate_id_text(),
            r is Err ==> final(self)@ == old(self)@,
            r is Ok ==> final(self)@.len() == old(self)@.len() + 1,
            r is Ok ==> final(self)@[old(self)@.len() as int] == service,
            r is Ok ==> forall|i: int|
                0 <= i < old(self)@.len() ==> #[trigger] final(self)@[i] == old(self)@[i],
    {
        match self.position(&service.id) {
            Some(_) => Err(String::from_str("服务 ID 已存在")),
            None => {
                let out = service.duplicate();
                self.services.push(service);
                Ok(out)
            },
        }
    }

    /// Replaces the first service whose id is `id` by `service`; hands the
    /// new service back.
    pub fn update_service(&mut self, id: &String, service: ServiceConfig) -> (r: Result<
        ServiceConfig,
        String,
    >)
        ensures
            final(self)@ == after_update(old(self)@, id@, service),
            has_id(old(self)@, id@) <==> r is Ok,
            r matches Ok(s) ==> s == service,
            r matches Err(e) ==> e@ == missing_service_text(),
            r is Err ==> final(self)@ == old(self)@,
            forall|k: int|
                is_first_match(old(self)@, id@, k) ==> {
                    &&& final(self)@.len() == old(self)@.len()
                    &&& final(self)@[k] == service
                    &&& forall|i: int|
                        0 <= i < old(self)@.len() && i != k ==> #[trigger] final(self)@[i]
                            == old(self)@[i]
                },
    {
        match self.position(id) {
            Some(i) => {
                proof {
                    assert forall|k: int| is_first_match(old(self)@, id@, k) implies k == i by {
                        lemma_first_match_unique(old(self)@, id@, k);
                    }
                }
                let out = service.duplicate();
                self.services.set(i, service);
                Ok(out)
            },
            None => Err(String::from_str("服务不存在")),
        }
    }

    /// Removes the first service whose id is `id`.
    pub fn delete_service(&mut self, id: &String) -> (r: Result<bool, String>)
        ensures
            final(self)@ == after_delete(old(self)@, id@),
            has_id(old(self)@, id@) <==> r is Ok,
            r matches Ok(b) ==> b,
            r matches Err(e) ==> e@ == missing_service_text(),
            r is Err ==> final(self)@ == old(self)@,
            forall|k: int|
                is_first_match(old(self)@, id@, k) ==> {
                    &&& final(self)@.len() == old(self)@.len() - 1
                    &&& forall|i: int|
                        0 <= i < k ==> #[trigger] final(self)@[i] == old(self)@[i]
                    &&& forall|i: int|
                        k <= i < final(self)@.len() ==> #[trigger] final(self)@[i] == old(
                            self,
                        )@[i + 1]
                },
    {
        match self.position(id) {
            Some(i) => {
                proof {
                    assert forall|k: int| is_first_match(old(self)@, id@, k) implies k == i by {
                        lemma_first_match_unique(old(self)@, id@, k);
                    }
                }
                self.services.remove(i);
                Ok(true)
            },
            None => Err(String::from_str("服务不存在")),
        }
    }

    /// A copy of the first service whose id is `id`.
    pub fn find_service(&self, id: &String) -> (r: Result<ServiceConfig, String>)
        ensures
            has_id(self@, id@) <==> r is Ok,
            r matches Ok(s) ==> lookup(self@, id@) == Some(s),
            r matches Err(e) ==> e@ == missing_service_text(),
    {
        match self.position(id) {
            Some(i) => Ok(self.services[i].duplicate()),
            None => Err(String::from_str("服务不存在")),
        }
    }

    /// Copies of the services that are switched on, in order.
    pub fn enabled_services(&self) -> (r: Vec<ServiceConfig>)
        ensures
            r@ == enabled_of(self@),
    {
        let n = self.services.len();
        let mut out: Vec<ServiceConfig> = Vec::new();
        let mut i: usize = 0;
        while i < n
            invariant
                n == self@.len(),
                i <= n,
                out@ == enabled_of(self@.take(i as int)),
            decreases n - i,
        {
            proof {
                let t = self@.take(i + 1);
                assert(t.drop_last() =~= self@.take(i as int));
                reveal(Seq::filter);
            }
            if self.services[i].enabled {
                out.push(self.services[i].duplicate());
            }
            i = i + 1;
        }
        proof {
            assert(self@.take(n as int) =~= self@);
        }
        out
    }
}

} // verus!
