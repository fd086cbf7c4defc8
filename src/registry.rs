//! Plugin model and the registry of providers and their UDFs.

use vstd::prelude::*;
use crate::error::UdfError;
use crate::text::{contains_text, eq_ignoring_ascii_case, lower_of, occurs_in, same_ignoring_ascii_case, to_lower};
use crate::types::UdfMetadata;

verus! {

/// A computation unit, as the registry sees it.
pub trait Udf {
    /// Identifier within the provider (`"vshale_linear"`); the composite id
    /// is `"provider:udf"`.
    fn id(&self) -> String;

    /// Metadata for display and search.
    fn metadata(&self) -> UdfMetadata;
}

/// A named group of UDFs: the unit of registration.
pub trait UdfProvider<U> {
    /// Unique identifier (`"petro"`, `"core"`).
    fn id(&self) -> String;

    /// Display name.
    fn name(&self) -> String;

    /// Version of the provider.
    fn version(&self) -> String;

    /// What the provider offers.
    fn description(&self) -> String;

    /// The provider's UDFs.
    fn load_udfs(&self) -> Vec<U>;

    /// Checks the provider's dependencies.
    fn is_available(&self) -> Result<(), UdfError> {
        Ok(())
    }
}

/// Composite id of a UDF: `provider:udf`.
pub open spec fn composite(provider_id: Seq<char>, udf_id: Seq<char>) -> Seq<char> {
    provider_id + ":"@ + udf_id
}

/// Composite ids of a provider's UDFs.
pub open spec fn composites(provider_id: Seq<char>, udf_ids: Seq<Seq<char>>) -> Seq<Seq<char>> {
    udf_ids.map_values(|u: Seq<char>| composite(provider_id, u))
}

/// The composite id at `k` is already registered, or repeats one earlier in
/// the batch.
pub open spec fn clashes(registered: Seq<Seq<char>>, batch: Seq<Seq<char>>, k: int) -> bool {
    registered.contains(batch[k]) || exists|j: int| 0 <= j < k && batch[j] == batch[k]
}

/// `k` is the first index of the batch whose composite id clashes.
pub open spec fn first_clash(registered: Seq<Seq<char>>, batch: Seq<Seq<char>>, k: int) -> bool {
    &&& 0 <= k < batch.len()
    &&& clashes(registered, batch, k)
    &&& forall|j: int| 0 <= j < k ==> !#[trigger] clashes(registered, batch, j)
}

/// Composite ids of UDFs paired with their ids.
pub open spec fn batch_ids<U>(provider_id: Seq<char>, udfs: Seq<(String, U)>) -> Seq<Seq<char>> {
    composites(provider_id, udfs.map_values(|e: (String, U)| e.0@))
}

/// Summary of a registered provider.
#[derive(Debug, Clone)]
pub struct ProviderInfo {
    pub id: String,
    pub name: String,
    pub version: String,
    pub description: String,
    pub udf_count: usize,
}

/// Summary of a registered UDF.
#[derive(Debug, Clone)]
pub struct UdfInfo {
    pub full_id: String,
    pub provider_id: String,
    pub name: String,
    pub category: String,
    pub description: String,
    pub version: String,
    pub tags: Vec<String>,
}

/// Full ids of UDF summaries.
pub open spec fn info_ids(infos: Seq<UdfInfo>) -> Seq<Seq<char>> {
    infos.map_values(|i: UdfInfo| i.full_id@)
}

/// Number of entries of `owners` equal to `provider_id`.
pub open spec fn owned_count(owners: Seq<Seq<char>>, provider_id: Seq<char>) -> nat
    decreases owners.len(),
{
    if owners.len() == 0 {
        0
    } else {
        owned_count(owners.drop_last(), provider_id) + (if owners.last() == provider_id { 1nat } else { 0nat })
    }
}

/// The ids whose aligned owner is `provider_id`, in order.
pub open spec fn ids_owned_by(ids: Seq<Seq<char>>, owners: Seq<Seq<char>>, provider_id: Seq<char>) -> Seq<Seq<char>>
    decreases ids.len(),
{
    if ids.len() == 0 {
        Seq::empty()
    } else {
        let rest = ids_owned_by(ids.drop_last(), owners.drop_last(), provider_id);
        if owners[ids.len() - 1] == provider_id {
            rest.push(ids.last())
        } else {
            rest
        }
    }
}

/// Whether some tag, lower-cased, contains `q`.
pub open spec fn some_tag_matches(tags: Seq<String>, q: Seq<char>) -> bool {
    exists|k: int| 0 <= k < tags.len() && occurs_in(lower_of(#[trigger] tags[k]@), q)
}

/// Whether a UDF summary matches a lower-cased query by name, description
/// or tag.
pub open spec fn matches_query(info: UdfInfo, q: Seq<char>) -> bool {
    occurs_in(lower_of(info.name@), q) || occurs_in(lower_of(info.description@), q) || some_tag_matches(info.tags@, q)
}

/// Decides `matches_query` for a lower-cased query.
fn info_matches(info: &UdfInfo, q: &str) -> (r: bool)
    ensures
        r == matches_query(*info, q@),
{
    let name = to_lower(info.name.as_str());
    if contains_text(name.as_str(), q) {
        return true;
    }
    let desc = to_lower(info.description.as_str());
    if contains_text(desc.as_str(), q) {
        return true;
    }
    let mut k: usize = 0;
    while k < info.tags.len()
        invariant
            k <= info.tags@.len(),
            forall|j: int| 0 <= j < k ==> !occurs_in(lower_of(#[trigger] info.tags@[j]@), q@),
        decreases info.tags@.len() - k,
    {
        let t = to_lower(info.tags[k].as_str());
        if contains_text(t.as_str(), q) {
            return true;
        }
        k = k + 1;
    }
    false
}

/// A member of a filtered sequence occurs in the unfiltered sequence and
/// passes the filter.
proof fn lemma_filter_member<A>(s: Seq<A>, p: spec_fn(A) -> bool, i: int)
    requires
        0 <= i < s.filter(p).len(),
    ensures
        s.contains(s.filter(p)[i]),
        p(s.filter(p)[i]),
{
    let x = s.filter(p)[i];
    s.lemma_filter_contains_rev(p, x);
    s.lemma_filter_pred(p, i);
}

/// The summaries whose category equals `category` up to ASCII case, in
/// order.
pub fn infos_in_category(infos: Vec<UdfInfo>, category: &str) -> (r: Vec<UdfInfo>)
    ensures
        r@ == infos@.filter(|u: UdfInfo| same_ignoring_ascii_case(u.category@, category@)),
{
    let ghost p: spec_fn(UdfInfo) -> bool = |u: UdfInfo| same_ignoring_ascii_case(u.category@, category@);
    let mut r: Vec<UdfInfo> = Vec::new();
    let mut rest = infos;
    let ghost all = rest@;
    let total = rest.len();
    let mut i: usize = 0;
    while rest.len() > 0
        invariant
            i + rest@.len() == all.len(),
            all.len() == total,
            p == (|u: UdfInfo| same_ignoring_ascii_case(u.category@, category@)),
            rest@ == all.subrange(i as int, all.len() as int),
            r@ == all.subrange(0, i as int).filter(p),
        decreases rest@.len(),
    {
        let info = rest.remove(0);
        proof {
            reveal(Seq::filter);
            assert(all.subrange(0, i + 1).drop_last() =~= all.subrange(0, i as int));
        }
        let keep = eq_ignoring_ascii_case(info.category.as_str(), category);
        if keep {
            r.push(info);
        }
        i = i + 1;
    }
    proof {
        assert(all.subrange(0, all.len() as int) =~= all);
    }
    r
}

/// The summaries that match a query by name, description or tag, compared
/// in lower case, in order.
pub fn infos_matching(infos: Vec<UdfInfo>, query: &str) -> (r: Vec<UdfInfo>)
    ensures
        r@ == infos@.filter(|u: UdfInfo| matches_query(u, lower_of(query@))),
{
    let q = to_lower(query);
    let ghost p: spec_fn(UdfInfo) -> bool = |u: UdfInfo| matches_query(u, lower_of(query@));
    let mut r: Vec<UdfInfo> = Vec::new();
    let mut rest = infos;
    let ghost all = rest@;
    let total = rest.len();
    let mut i: usize = 0;
    while rest.len() > 0
        invariant
            q@ == lower_of(query@),
            i + rest@.len() == all.len(),
            all.len() == total,
            p == (|u: UdfInfo| matches_query(u, lower_of(query@))),
            rest@ == all.subrange(i as int, all.len() as int),
            r@ == all.subrange(0, i as int).filter(p),
        decreases rest@.len(),
    {
        let info = rest.remove(0);
        proof {
            reveal(Seq::filter);
            assert(all.subrange(0, i + 1).drop_last() =~= all.subrange(0, i as int));
        }
        let keep = info_matches(&info, q.as_str());
        if keep {
            r.push(info);
        }
        i = i + 1;
    }
    proof {
        assert(all.subrange(0, all.len() as int) =~= all);
    }
    r
}

/// Registry of providers and of their UDFs by composite id.
pub struct UdfRegistry<P, U> {
    /// Providers with their ids, in registration order.
    providers: Vec<(String, P)>,
    /// UDFs with their composite ids and their provider's id.
    udfs: Vec<(String, String, U)>,
}

/// Index of `s` in `v`, if it occurs.
fn find_text(v: &Vec<String>, s: &String) -> (r: Option<usize>)
    ensures
        match r {
            Some(i) => i < v@.len() && v@[i as int]@ == s@,
            None => forall|j: int| 0 <= j < v@.len() ==> v@[j]@ != s@,
        },
{
    let mut i: usize = 0;
    while i < v.len()
        invariant
            i <= v@.len(),
            forall|j: int| 0 <= j < i ==> v@[j]@ != s@,
        decreases v@.len() - i,
    {
        if v[i] == *s {
            return Some(i);
        }
        i = i + 1;
    }
    None
}

impl<P, U: Udf> UdfRegistry<P, U> {
    /// Ids of the registered providers, in registration order.
    pub closed spec fn provider_ids(&self) -> Seq<Seq<char>> {
        self.providers@.map_values(|e: (String, P)| e.0@)
    }

    /// Composite ids of the registered UDFs, in registration order.
    pub closed spec fn udf_ids(&self) -> Seq<Seq<char>> {
        self.udfs@.map_values(|e: (String, String, U)| e.0@)
    }

    /// Provider id of each registered UDF, aligned with `udf_ids`.
    pub closed spec fn udf_owners(&self) -> Seq<Seq<char>> {
        self.udfs@.map_values(|e: (String, String, U)| e.1@)
    }

    /// No id is registered twice.
    pub open spec fn wf(&self) -> bool {
        &&& self.provider_ids().no_duplicates()
        &&& self.udf_ids().no_duplicates()
    }

    /// A provider with this id and these UDF ids can be added: its id is
    /// new, and each composite id is new and occurs once in the batch.
    pub open spec fn admits(&self, provider_id: Seq<char>, udf_ids: Seq<Seq<char>>) -> bool {
        &&& !self.provider_ids().contains(provider_id)
        &&& composites(provider_id, udf_ids).no_duplicates()
        &&& forall|k: int| 0 <= k < udf_ids.len() ==> !self.udf_ids().contains(#[trigger] composites(provider_id, udf_ids)[k])
    }

    /// Creates an empty registry.
    pub fn new() -> (r: Self)
        ensures
            r.wf(),
            r.provider_ids().len() == 0,
            r.udf_ids().len() == 0,
    {
        UdfRegistry { providers: Vec::new(), udfs: Vec::new() }
    }

    /// Number of registered UDFs.
    pub fn udf_count(&self) -> (r: usize)
        ensures
            r == self.udf_ids().len(),
    {
        self.udfs.len()
    }

    /// Number of registered providers.
    pub fn provider_count(&self) -> (r: usize)
        ensures
            r == self.provider_ids().len(),
    {
        self.providers.len()
    }

    /// Index of a provider id among the registered ones.
    fn provider_index(&self, provider_id: &str) -> (r: Option<usize>)
        ensures
            match r {
                Some(i) => i < self.provider_ids().len() && self.provider_ids()[i as int] == provider_id@,
                None => !self.provider_ids().contains(provider_id@),
            },
    {
        let mut i: usize = 0;
        while i < self.providers.len()
            invariant
                i <= self.providers@.len(),
                forall|j: int| 0 <= j < i ==> self.provider_ids()[j] != provider_id@,
            decreases self.providers@.len() - i,
        {
            if crate::text::same_text(self.providers[i].0.as_str(), provider_id) {
                return Some(i);
            }
            i = i + 1;
        }
        proof {
            if self.provider_ids().contains(provider_id@) {
                let j = choose|j: int| 0 <= j < self.provider_ids().len() && self.provider_ids()[j] == provider_id@;
            }
        }
        None
    }

    /// Index of a composite id among the registered UDFs.
    fn udf_index(&self, full_id: &str) -> (r: Option<usize>)
        ensures
            match r {
                Some(i) => i < self.udf_ids().len() && self.udf_ids()[i as int] == full_id@,
                None => !self.udf_ids().contains(full_id@),
            },
    {
        let mut i: usize = 0;
        while i < self.udfs.len()
            invariant
                i <= self.udfs@.len(),
                forall|j: int| 0 <= j < i ==> self.udf_ids()[j] != full_id@,
            decreases self.udfs@.len() - i,
        {
            if crate::text::same_text(self.udfs[i].0.as_str(), full_id) {
                return Some(i);
            }
            i = i + 1;
        }
        None
    }

    /// Adds a provider under an id, with the UDFs it loaded, when the
    /// registry admits them; otherwise leaves the registry as it was.
    pub fn add_provider(&mut self, provider_id: String, provider: P, udfs: Vec<(String, U)>) -> (r: Result<(), UdfError>)
        requires
            old(self).wf(),
        ensures
            final(self).wf(),
            r.is_ok() == old(self).admits(provider_id@, udfs@.map_values(|e: (String, U)| e.0@)),
            r.is_ok() ==> final(self).provider_ids() == old(self).provider_ids().push(provider_id@)
                && final(self).udf_ids() == old(self).udf_ids() + composites(provider_id@, udfs@.map_values(|e: (String, U)| e.0@))
                && final(self).udf_owners() == old(self).udf_owners() + Seq::new(udfs@.len(), |k: int| provider_id@),
            r.is_err() ==> final(self).provider_ids() == old(self).provider_ids()
                && final(self).udf_ids() == old(self).udf_ids()
                && final(self).udf_owners() == old(self).udf_owners(),
            r matches Err(e) ==> e is ProviderNotAvailable,
            old(self).provider_ids().contains(provider_id@) ==> (r matches Err(e)
                && e matches UdfError::ProviderNotAvailable(m)
                && m@ == "Provider '"@ + provider_id@ + "' is already registered"@),
            !old(self).provider_ids().contains(provider_id@) && r is Err ==> (r matches Err(e)
                && e matches UdfError::ProviderNotAvailable(m)
                && exists|k: int| #[trigger] first_clash(old(self).udf_ids(), batch_ids(provider_id@, udfs@), k)
                    && m@ == "UDF '"@ + batch_ids(provider_id@, udfs@)[k] + "' is already registered"@),
    {
        let ghost uids = udfs@.map_values(|e: (String, U)| e.0@);
        let ghost batch = composites(provider_id@, uids);
        if self.provider_index(provider_id.as_str()).is_some() {
            let mut m = "Provider '".to_owned();
            m.append(provider_id.as_str());
            m.append("' is already registered");
            return Err(UdfError::ProviderNotAvailable(m));
        }
        let n = udfs.len();
        let mut fulls: Vec<String> = Vec::new();
        let mut i: usize = 0;
        while i < n
            invariant
                n == udfs@.len(),
                uids == udfs@.map_values(|e: (String, U)| e.0@),
                batch == composites(provider_id@, uids),
                i <= n,
                fulls@.len() == i,
                forall|k: int| 0 <= k < i ==> #[trigger] fulls@[k]@ == batch[k],
                forall|a: int, b: int| 0 <= a < b < i ==> batch[a] != batch[b],
                forall|k: int| 0 <= k < i ==> !self.udf_ids().contains(#[trigger] batch[k]),
                self.wf(),
                !self.provider_ids().contains(provider_id@),
                self.provider_ids() == old(self).provider_ids(),
                self.udf_ids() == old(self).udf_ids(),
                self.udf_owners() == old(self).udf_owners(),
            decreases n - i,
        {
            let mut full = provider_id.clone();
            full.append(":");
            full.append(udfs[i].0.as_str());
            assert(full@ == batch[i as int]);
            let in_registry = self.udf_index(full.as_str()).is_some();
            let in_batch = find_text(&fulls, &full).is_some();
            if !in_batch {
                assert forall|a: int| 0 <= a < i implies batch[a] != batch[i as int] by {
                    assert(fulls@[a]@ == batch[a]);
                }
            }
            if in_registry || in_batch {
                let mut m = "UDF '".to_owned();
                m.append(full.as_str());
                m.append("' is already registered");
                proof {
                    assert(batch == batch_ids(provider_id@, udfs@));
                    assert(clashes(old(self).udf_ids(), batch, i as int));
                    assert forall|j: int| 0 <= j < i implies !#[trigger] clashes(old(self).udf_ids(), batch, j) by {
                        assert(!self.udf_ids().contains(batch[j]));
                    }
                    if self.udf_ids().contains(full@) {
                        assert(!(forall|k: int| 0 <= k < uids.len() ==> !self.udf_ids().contains(#[trigger] batch[k])));
                    } else {
                        let j = choose|j: int| 0 <= j < fulls@.len() && fulls@[j]@ == full@;
                        assert(batch[j] == batch[i as int]);
                    }
                    assert(first_clash(old(self).udf_ids(), batch, i as int));
                }
                return Err(UdfError::ProviderNotAvailable(m));
            }
            fulls.push(full);
            i = i + 1;
        }
        let ghost old_ids = self.udf_ids();
        let ghost old_owners = self.udf_owners();
        let ghost old_pids = self.provider_ids();
        self.providers.push((provider_id.clone(), provider));
        assert(self.provider_ids() =~= old_pids.push(provider_id@));
        let mut rest = udfs;
        let mut j: usize = 0;
        while j < n
            invariant
                n == uids.len(),
                batch == composites(provider_id@, uids),
                batch.no_duplicates(),
                forall|k: int| 0 <= k < n ==> !old_ids.contains(#[trigger] batch[k]),
                old_ids.no_duplicates(),
                j <= n,
                rest@.len() == n - j,
                fulls@.len() == n - j,
                forall|k: int| 0 <= k < n - j ==> #[trigger] fulls@[k]@ == batch[k + j],
                forall|k: int| 0 <= k < n - j ==> (#[trigger] rest@[k]).0@ == uids[k + j],
                self.udf_ids() == old_ids + batch.subrange(0, j as int),
                self.udf_owners() == old_owners + Seq::new(j as nat, |k: int| provider_id@),
                self.provider_ids() == old_pids.push(provider_id@),
                self.provider_ids().no_duplicates(),
            decreases n - j,
        {
            let (_, u) = rest.remove(0);
            let full = fulls.remove(0);
            let ghost ids_before = self.udf_ids();
            let ghost owners_before = self.udf_owners();
            let ghost full_view = full@;
            self.udfs.push((full, provider_id.clone(), u));
            proof {
                assert(self.udf_ids() =~= ids_before.push(full_view));
                assert(owners_before.push(provider_id@) =~= old_owners + Seq::new((j + 1) as nat, |k: int| provider_id@));
            }
            j = j + 1;
        }
        proof {
            let ids = self.udf_ids();
            assert forall|a: int, b: int| 0 <= a < b < ids.len() implies ids[a] != ids[b] by {
                if b >= old_ids.len() {
                    if a >= old_ids.len() {
                        assert(ids[a] == batch[a - old_ids.len()]);
                    } else {
                        assert(old_ids.contains(ids[a]));
                    }
                }
            }
        }
        Ok(())
    }

    /// Registers a provider and all its UDFs under their composite ids.
    ///
    /// The provider's availability is checked first and its error passed on;
    /// then the provider is added under the id it reports, with the UDFs it
    /// loads under the ids they report, as `add_provider` decides. On any
    /// error the registry is left as it was.
    pub fn register_provider(&mut self, provider: P) -> (r: Result<(), UdfError>)
        where
            P: UdfProvider<U>,
        requires
            old(self).wf(),
        ensures
            final(self).wf(),
            r.is_ok() ==> exists|pid: Seq<char>, uids: Seq<Seq<char>>| old(self).admits(pid, uids)
                && final(self).provider_ids() == old(self).provider_ids().push(pid)
                && #[trigger] final(self).udf_ids() == old(self).udf_ids() + composites(pid, uids),
            r.is_err() ==> final(self).provider_ids() == old(self).provider_ids()
                && final(self).udf_ids() == old(self).udf_ids()
                && final(self).udf_owners() == old(self).udf_owners(),
    {
        let provider_id = provider.id();
        match provider.is_available() {
            Ok(()) => {},
            Err(e) => {
                return Err(e);
            },
        }
        let mut loaded = provider.load_udfs();
        let n = loaded.len();
        let mut pairs: Vec<(String, U)> = Vec::new();
        let mut i: usize = 0;
        while i < n
            invariant
                i <= n,
                loaded@.len() == n - i,
            decreases n - i,
        {
            let u = loaded.remove(0);
            let uid = u.id();
            pairs.push((uid, u));
            i = i + 1;
        }
        let r = self.add_provider(provider_id, provider, pairs);
        r
    }

    /// Summaries of the registered providers, in registration order, each
    /// with the number of its UDFs.
    pub fn list_providers(&self) -> (r: Vec<ProviderInfo>)
        where
            P: UdfProvider<U>,
        ensures
            r@.len() == self.provider_ids().len(),
            forall|i: int| 0 <= i < r@.len() ==> (#[trigger] r@[i]).id@ == self.provider_ids()[i]
                && r@[i].udf_count == owned_count(self.udf_owners(), self.provider_ids()[i]),
    {
        let mut r: Vec<ProviderInfo> = Vec::new();
        let mut i: usize = 0;
        while i < self.providers.len()
            invariant
                i <= self.providers@.len(),
                r@.len() == i,
                forall|k: int| 0 <= k < i ==> (#[trigger] r@[k]).id@ == self.provider_ids()[k]
                    && r@[k].udf_count == owned_count(self.udf_owners(), self.provider_ids()[k]),
            decreases self.providers@.len() - i,
        {
            let entry = &self.providers[i];
            let count = self.count_provider_udfs(entry.0.as_str());
            let info = ProviderInfo {
                id: entry.0.clone(),
                name: entry.1.name(),
                version: entry.1.version(),
                description: entry.1.description(),
                udf_count: count,
            };
            r.push(info);
            i = i + 1;
        }
        r
    }

    /// Number of registered UDFs that belong to a provider.
    fn count_provider_udfs(&self, provider_id: &str) -> (r: usize)
        ensures
            r == owned_count(self.udf_owners(), provider_id@),
    {
        let mut c: usize = 0;
        let mut i: usize = 0;
        while i < self.udfs.len()
            invariant
                i <= self.udfs@.len(),
                c == owned_count(self.udf_owners().subrange(0, i as int), provider_id@),
                c <= i,
            decreases self.udfs@.len() - i,
        {
            proof {
                assert(self.udf_owners().subrange(0, i + 1).drop_last() =~= self.udf_owners().subrange(0, i as int));
            }
            if crate::text::same_text(self.udfs[i].1.as_str(), provider_id) {
                c = c + 1;
            }
            i = i + 1;
        }
        proof {
            assert(self.udf_owners().subrange(0, self.udfs@.len() as int) =~= self.udf_owners());
        }
        c
    }

    /// Summary of the UDF at an index.
    fn info_at(&self, i: usize) -> (r: UdfInfo)
        requires
            i < self.udf_ids().len(),
        ensures
            r.full_id@ == self.udf_ids()[i as int],
            r.provider_id@ == self.udf_owners()[i as int],
    {
        let entry = &self.udfs[i];
        let m = entry.2.metadata();
        UdfInfo {
            full_id: entry.0.clone(),
            provider_id: entry.1.clone(),
            name: m.name,
            category: m.category,
            description: m.description,
            version: m.version,
            tags: m.tags,
        }
    }

    /// Summaries of all registered UDFs, in registration order.
    pub fn list_udfs(&self) -> (r: Vec<UdfInfo>)
        ensures
            info_ids(r@) == self.udf_ids(),
            forall|i: int| 0 <= i < r@.len() ==> (#[trigger] r@[i]).provider_id@ == self.udf_owners()[i],
    {
        let mut r: Vec<UdfInfo> = Vec::new();
        let mut i: usize = 0;
        while i < self.udfs.len()
            invariant
                i <= self.udfs@.len(),
                r@.len() == i,
                forall|k: int| 0 <= k < i ==> (#[trigger] r@[k]).full_id@ == self.udf_ids()[k]
                    && r@[k].provider_id@ == self.udf_owners()[k],
            decreases self.udfs@.len() - i,
        {
            r.push(self.info_at(i));
            i = i + 1;
        }
        r
    }

    /// Summaries of the UDFs of one provider, in registration order.
    pub fn list_provider_udfs(&self, provider_id: &str) -> (r: Vec<UdfInfo>)
        ensures
            info_ids(r@) == ids_owned_by(self.udf_ids(), self.udf_owners(), provider_id@),
            forall|i: int| 0 <= i < r@.len() ==> (#[trigger] r@[i]).provider_id@ == provider_id@,
    {
        let mut r: Vec<UdfInfo> = Vec::new();
        let mut i: usize = 0;
        while i < self.udfs.len()
            invariant
                i <= self.udfs@.len(),
                info_ids(r@) == ids_owned_by(self.udf_ids().subrange(0, i as int), self.udf_owners().subrange(0, i as int), provider_id@),
                forall|k: int| 0 <= k < r@.len() ==> (#[trigger] r@[k]).provider_id@ == provider_id@,
            decreases self.udfs@.len() - i,
        {
            proof {
                assert(self.udf_ids().subrange(0, i + 1).drop_last() =~= self.udf_ids().subrange(0, i as int));
                assert(self.udf_owners().subrange(0, i + 1).drop_last() =~= self.udf_owners().subrange(0, i as int));
            }
            if crate::text::same_text(self.udfs[i].1.as_str(), provider_id) {
                let ghost before = r@;
                r.push(self.info_at(i));
            }
            i = i + 1;
        }
        proof {
            assert(self.udf_ids().subrange(0, self.udfs@.len() as int) =~= self.udf_ids());
            assert(self.udf_owners().subrange(0, self.udfs@.len() as int) =~= self.udf_owners());
        }
        r
    }

    /// Summaries of the UDFs whose category equals `category` up to ASCII
    /// case.
    pub fn list_udfs_by_category(&self, category: &str) -> (r: Vec<UdfInfo>)
        ensures
            forall|i: int| 0 <= i < r@.len() ==> self.udf_ids().contains((#[trigger] r@[i]).full_id@),
            forall|i: int| 0 <= i < r@.len() ==> same_ignoring_ascii_case(#[trigger] r@[i].category@, category@),
            exists|infos: Seq<UdfInfo>| #[trigger] info_ids(infos) == self.udf_ids()
                && r@ == infos.filter(|u: UdfInfo| same_ignoring_ascii_case(u.category@, category@)),
    {
        let all = self.list_udfs();
        proof {
            assert forall|i: int| 0 <= i < all@.len() implies self.udf_ids().contains((#[trigger] all@[i]).full_id@) by {
                assert(info_ids(all@)[i] == all@[i].full_id@);
            }
        }
        let r = infos_in_category(all, category);
        proof {
            let p = |u: UdfInfo| same_ignoring_ascii_case(u.category@, category@);
            assert forall|i: int| 0 <= i < r@.len() implies self.udf_ids().contains((#[trigger] r@[i]).full_id@) by {
                lemma_filter_member(all@, p, i);
            }
            assert forall|i: int| 0 <= i < r@.len() implies same_ignoring_ascii_case(#[trigger] r@[i].category@, category@) by {
                lemma_filter_member(all@, p, i);
            }
            assert(info_ids(all@) == self.udf_ids());
        }
        r
    }

    /// Summaries of the UDFs whose name, description or one of whose tags
    /// contains the query, all compared in lower case.
    pub fn search_udfs(&self, query: &str) -> (r: Vec<UdfInfo>)
        ensures
            forall|i: int| 0 <= i < r@.len() ==> self.udf_ids().contains((#[trigger] r@[i]).full_id@)
                && matches_query(r@[i], lower_of(query@)),
            exists|infos: Seq<UdfInfo>| #[trigger] info_ids(infos) == self.udf_ids()
                && r@ == infos.filter(|u: UdfInfo| matches_query(u, lower_of(query@))),
    {
        let all = self.list_udfs();
        proof {
            assert forall|i: int| 0 <= i < all@.len() implies self.udf_ids().contains((#[trigger] all@[i]).full_id@) by {
                assert(info_ids(all@)[i] == all@[i].full_id@);
            }
        }
        let r = infos_matching(all, query);
        proof {
            assert forall|i: int| 0 <= i < r@.len() implies self.udf_ids().contains((#[trigger] r@[i]).full_id@)
                && matches_query(r@[i], lower_of(query@)) by {
                lemma_filter_member(all@, |u: UdfInfo| matches_query(u, lower_of(query@)), i);
            }
            assert(info_ids(all@) == self.udf_ids());
        }
        r
    }

    /// The UDF registered under a composite id.
    pub fn get_udf(&self, full_id: &str) -> (r: Option<&U>)
        ensures
            r.is_some() == self.udf_ids().contains(full_id@),
    {
        match self.udf_index(full_id) {
            Some(i) => Some(&self.udfs[i].2),
            None => None,
        }
    }

    /// The provider registered under an id.
    pub fn get_provider(&self, provider_id: &str) -> (r: Option<&P>)
        ensures
            r.is_some() == self.provider_ids().contains(provider_id@),
    {
        match self.provider_index(provider_id) {
            Some(i) => Some(&self.providers[i].1),
            None => None,
        }
    }

    /// The provider of the UDF registered under a composite id.
    pub fn get_udf_provider(&self, full_id: &str) -> (r: Option<&P>)
        requires
            self.wf(),
        ensures
            r.is_some() == exists|i: int| 0 <= i < self.udf_ids().len() && self.udf_ids()[i] == full_id@
                && self.provider_ids().contains(#[trigger] self.udf_owners()[i]),
    {
        match self.udf_index(full_id) {
            Some(i) => {
                let r = self.get_provider(self.udfs[i].1.as_str());
                proof {
                    assert(self.udf_owners()[i as int] == self.udfs@[i as int].1@);
                    assert(forall|k: int| 0 <= k < self.udf_ids().len() && self.udf_ids()[k] == full_id@ ==> k == i);
                }
                r
            },
            None => None,
        }
    }
}

/// Once a provider id is registered, any further provider with that id is
/// refused, whatever UDFs it brings.
pub proof fn lemma_same_provider_twice_refused<P, U: Udf>(
    before: UdfRegistry<P, U>,
    after: UdfRegistry<P, U>,
    provider_id: Seq<char>,
    udf_ids: Seq<Seq<char>>,
)
    requires
        after.provider_ids() == before.provider_ids().push(provider_id),
    ensures
        !after.admits(provider_id, udf_ids),
{
    assert(after.provider_ids()[before.provider_ids().len() as int] == provider_id);
}

/// Two UDFs of one provider with the same id would share a composite id:
/// the provider is refused.
pub proof fn lemma_same_udf_id_in_batch_refused<P, U: Udf>(
    reg: UdfRegistry<P, U>,
    provider_id: Seq<char>,
    udf_ids: Seq<Seq<char>>,
    a: int,
    b: int,
)
    requires
        0 <= a < b < udf_ids.len(),
        udf_ids[a] == udf_ids[b],
    ensures
        !reg.admits(provider_id, udf_ids),
{
    let c = composites(provider_id, udf_ids);
    assert(c[a] == c[b]);
}

/// A UDF whose composite id is already registered makes its provider
/// refused.
pub proof fn lemma_registered_composite_refused<P, U: Udf>(
    reg: UdfRegistry<P, U>,
    provider_id: Seq<char>,
    udf_ids: Seq<Seq<char>>,
    k: int,
)
    requires
        0 <= k < udf_ids.len(),
        reg.udf_ids().contains(composite(provider_id, udf_ids[k])),
    ensures
        !reg.admits(provider_id, udf_ids),
{
    assert(composites(provider_id, udf_ids)[k] == composite(provider_id, udf_ids[k]));
}

} // verus!
