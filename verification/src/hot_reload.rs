//! The registry of agent profiles and the decisions of profile loading and
//! hot reloading. Reading files and watching the directory are left to the
//! caller; this module decides which files count and what each load does to
//! the registry.

use crate::error::IronclawError;
use crate::keyed::{
    keyed_map, keys_unique, lemma_filter_len_bound, lemma_keyed_map_at, lemma_keyed_map_contains,
    lemma_keyed_map_filter, lemma_keyed_map_len, lemma_keyed_map_push, lemma_keyed_map_update,
};
use crate::models::AgentProfile;
use crate::platform::{optional_text_view, path_extension, path_extension_of};
use crate::text::text_equals;
use vstd::prelude::*;

verus! {

/// A registered profile and the file it was loaded from, if any.
struct ProfileEntry {
    profile: AgentProfile,
    source: Option<String>,
}

/// The key of an entry in the registry: its profile's agent id.
spec fn entry_key() -> spec_fn(ProfileEntry) -> Seq<char> {
    |entry: ProfileEntry| entry.profile.agent_id@
}

/// The agent ids whose profile was loaded from the file `path`, given the
/// source file of every registered agent id.
pub open spec fn ids_loaded_from(sources: Map<Seq<char>, Option<Seq<char>>>, path: Seq<char>) -> Set<
    Seq<char>,
> {
    sources.dom().filter(|id: Seq<char>| sources[id] == Some(path))
}

/// Registry of agent profiles, keyed by agent id, each with the file it was
/// loaded from.
pub struct AgentRegistry {
    entries: Vec<ProfileEntry>,
}

impl View for AgentRegistry {
    type V = Map<Seq<char>, AgentProfile>;

    closed spec fn view(&self) -> Map<Seq<char>, AgentProfile> {
        keyed_map(self.entries@, entry_key()).map_values(|entry: ProfileEntry| entry.profile)
    }
}

/// The entries of a registry with unique keys: the entry at `i` is the one
/// registered under its agent id.
proof fn lemma_entry_at(entries: Seq<ProfileEntry>, i: int)
    requires
        keys_unique(entries, entry_key()),
        0 <= i < entries.len(),
    ensures
        keyed_map(entries, entry_key()).contains_key(entries[i].profile.agent_id@),
        keyed_map(entries, entry_key())[entries[i].profile.agent_id@] == entries[i],
{
    lemma_keyed_map_at(entries, entry_key(), i);
}

impl AgentRegistry {
    #[verifier::type_invariant]
    spec fn well_formed(self) -> bool {
        keys_unique(self.entries@, entry_key())
    }

    /// The file each registered agent id was loaded from (`None` for a
    /// profile registered directly).
    pub closed spec fn sources(&self) -> Map<Seq<char>, Option<Seq<char>>> {
        keyed_map(self.entries@, entry_key()).map_values(
            |entry: ProfileEntry| optional_text_view(entry.source),
        )
    }

    /// Every registered agent id has a source entry, and no other id does.
    pub proof fn lemma_sources_cover(&self)
        ensures
            self.sources().dom() == self@.dom(),
    {
        assert(self.sources().dom() =~= self@.dom());
    }

    /// Create a new empty agent registry.
    pub fn new() -> (registry: Self)
        ensures
            registry@ == Map::<Seq<char>, AgentProfile>::empty(),
            registry.sources() == Map::<Seq<char>, Option<Seq<char>>>::empty(),
    {
        let registry = AgentRegistry { entries: Vec::new() };
        assert(registry@ =~= Map::<Seq<char>, AgentProfile>::empty());
        assert(registry.sources() =~= Map::<Seq<char>, Option<Seq<char>>>::empty());
        registry
    }

    /// Position of the entry with the given agent id, if any.
    fn position(&self, agent_id: &str) -> (index: Option<usize>)
        ensures
            match index {
                Some(i) => i < self.entries@.len() && self.entries@[i as int].profile.agent_id@
                    == agent_id@,
                None => !self@.contains_key(agent_id@),
            },
    {
        let mut i: usize = 0;
        while i < self.entries.len()
            invariant
                i <= self.entries@.len(),
                forall|j: int| 0 <= j < i ==> self.entries@[j].profile.agent_id@ != agent_id@,
            decreases self.entries@.len() - i,
        {
            if text_equals(self.entries[i].profile.agent_id.as_str(), agent_id) {
                return Some(i);
            }
            i = i + 1;
        }
        proof {
            lemma_keyed_map_contains(self.entries@, entry_key(), agent_id@);
        }
        None
    }

    /// Whether a profile with the given agent id is registered.
    pub fn contains(&self, agent_id: &str) -> (found: bool)
        ensures
            found == self@.contains_key(agent_id@),
    {
        proof {
            use_type_invariant(self);
        }
        match self.position(agent_id) {
            Some(i) => {
                proof {
                    lemma_entry_at(self.entries@, i as int);
                }
                true
            },
            None => false,
        }
    }

    /// The profile registered under the given agent id.
    pub fn get(&self, agent_id: &str) -> (profile: Option<&AgentProfile>)
        ensures
            match profile {
                Some(p) => self@.contains_key(agent_id@) && *p == self@[agent_id@]
                    && p.agent_id@ == agent_id@,
                None => !self@.contains_key(agent_id@),
            },
    {
        proof {
            use_type_invariant(self);
        }
        match self.position(agent_id) {
            Some(i) => {
                proof {
                    lemma_entry_at(self.entries@, i as int);
                }
                Some(&self.entries[i].profile)
            },
            None => None,
        }
    }

    /// The profile registered under the given agent id, or `AgentNotFound`
    /// naming that id.
    pub fn resolve(&self, agent_id: &str) -> (result: Result<&AgentProfile, IronclawError>)
        ensures
            match result {
                Ok(p) => self@.contains_key(agent_id@) && *p == self@[agent_id@] && p.agent_id@
                    == agent_id@,
                Err(e) => !self@.contains_key(agent_id@) && (e matches IronclawError::AgentNotFound(
                    id,
                ) && id@ == agent_id@),
            },
    {
        match self.get(agent_id) {
            Some(p) => Ok(p),
            None => Err(IronclawError::AgentNotFound(String::from_str(agent_id))),
        }
    }

    /// Register a profile with its source under its agent id, replacing any
    /// entry already there.
    fn put(&mut self, profile: AgentProfile, source: Option<String>) -> (is_new: bool)
        ensures
            is_new == !old(self)@.contains_key(profile.agent_id@),
            final(self)@ == old(self)@.insert(profile.agent_id@, profile),
            final(self).sources() == old(self).sources().insert(
                profile.agent_id@,
                optional_text_view(source),
            ),
    {
        proof {
            use_type_invariant(&*self);
        }
        let ghost before = self.entries@;
        let ghost id = profile.agent_id@;
        let position = self.position(profile.agent_id.as_str());
        let mut entries: Vec<ProfileEntry> = Vec::new();
        std::mem::swap(&mut entries, &mut self.entries);
        let entry = ProfileEntry { profile, source };
        let ghost e = entry;
        let is_new = match position {
            Some(i) => {
                proof {
                    lemma_entry_at(before, i as int);
                    lemma_keyed_map_update(before, entry_key(), i as int, e);
                }
                entries.set(i, entry);
                false
            },
            None => {
                proof {
                    lemma_keyed_map_push(before, entry_key(), e);
                }
                entries.push(entry);
                true
            },
        };
        self.entries = entries;
        assert(self@ =~= old(self)@.insert(id, e.profile));
        assert(self.sources() =~= old(self).sources().insert(id, optional_text_view(e.source)));
        is_new
    }

    /// Register a profile under its agent id, replacing any profile already
    /// registered there. Returns whether the id was new.
    pub fn insert(&mut self, profile: AgentProfile) -> (is_new: bool)
        ensures
            is_new == !old(self)@.contains_key(profile.agent_id@),
            final(self)@ == old(self)@.insert(profile.agent_id@, profile),
            final(self).sources() == old(self).sources().insert(profile.agent_id@, None),
    {
        self.put(profile, None)
    }

    /// Register a profile loaded from the file `path` under its agent id,
    /// replacing any profile already registered there. Returns whether the
    /// id was new.
    pub fn insert_from_file(&mut self, profile: AgentProfile, path: &str) -> (is_new: bool)
        ensures
            is_new == !old(self)@.contains_key(profile.agent_id@),
            final(self)@ == old(self)@.insert(profile.agent_id@, profile),
            final(self).sources() == old(self).sources().insert(profile.agent_id@, Some(path@)),
    {
        self.put(profile, Some(String::from_str(path)))
    }

    /// Remove every profile that was loaded from the file `path` (the file
    /// was deleted). Returns how many were removed.
    pub fn remove_profiles_from(&mut self, path: &str) -> (removed: usize)
        ensures
            final(self)@ == old(self)@.remove_keys(ids_loaded_from(old(self).sources(), path@)),
            final(self).sources() == old(self).sources().remove_keys(
                ids_loaded_from(old(self).sources(), path@),
            ),
            old(self)@.dom().finite(),
            removed == old(self)@.len() - final(self)@.len(),
    {
        proof {
            use_type_invariant(&*self);
        }
        let ghost before = self.entries@;
        let ghost keep = |entry: ProfileEntry| optional_text_view(entry.source) != Some(path@);
        let mut entries: Vec<ProfileEntry> = Vec::new();
        std::mem::swap(&mut entries, &mut self.entries);
        let total = entries.len();
        let mut kept: Vec<ProfileEntry> = Vec::new();
        while entries.len() > 0
            invariant
                entries@.len() <= before.len(),
                total == before.len(),
                keep == (|entry: ProfileEntry| optional_text_view(entry.source) != Some(path@)),
                entries@ == before.subrange(before.len() - entries@.len(), before.len() as int),
                kept@ == before.take(before.len() - entries@.len()).filter(keep),
            decreases entries@.len(),
        {
            let ghost done = before.len() - entries@.len();
            let entry = entries.remove(0);
            assert(entry == before[done]);
            assert(before.take(done + 1).drop_last() =~= before.take(done));
            proof {
                reveal_with_fuel(Seq::filter, 1);
            }
            let from_path = match &entry.source {
                Some(source) => text_equals(source.as_str(), path),
                None => false,
            };
            assert(from_path == !keep(entry));
            if !from_path {
                kept.push(entry);
            }
            assert(entries@ =~= before.subrange(before.len() - entries@.len(), before.len() as int));
        }
        assert(before.take(before.len() as int) =~= before);
        proof {
            lemma_keyed_map_filter(before, entry_key(), keep);
            lemma_keyed_map_len(before, entry_key());
            lemma_keyed_map_len(kept@, entry_key());
            lemma_filter_len_bound(before, keep);
        }
        let removed = total - kept.len();
        self.entries = kept;
        let ghost removed_ids = ids_loaded_from(old(self).sources(), path@);
        assert(self@ =~= old(self)@.remove_keys(removed_ids));
        assert(self.sources() =~= old(self).sources().remove_keys(removed_ids));
        assert(self@.dom() =~= keyed_map(kept@, entry_key()).dom());
        assert(old(self)@.dom() =~= keyed_map(before, entry_key()).dom());
        removed
    }

    /// Number of registered profiles.
    pub fn len(&self) -> (count: usize)
        ensures
            self@.dom().finite(),
            count == self@.len(),
    {
        proof {
            use_type_invariant(self);
            lemma_keyed_map_len(self.entries@, entry_key());
            assert(self@.dom() =~= keyed_map(self.entries@, entry_key()).dom());
        }
        self.entries.len()
    }

    /// The agent ids of all registered profiles, each once.
    pub fn agent_ids(&self) -> (ids: Vec<String>)
        ensures
            ids@.len() == self@.len(),
            forall|i: int| 0 <= i < ids@.len() ==> self@.contains_key(#[trigger] ids@[i]@),
            forall|id: Seq<char>|
                self@.contains_key(id) ==> exists|i: int| 0 <= i < ids@.len() && ids@[i]@ == id,
            forall|i: int, j: int|
                0 <= i < j < ids@.len() ==> #[trigger] ids@[i]@ != #[trigger] ids@[j]@,
    {
        proof {
            use_type_invariant(self);
            lemma_keyed_map_len(self.entries@, entry_key());
            assert(self@.dom() =~= keyed_map(self.entries@, entry_key()).dom());
        }
        let mut ids: Vec<String> = Vec::new();
        let mut i: usize = 0;
        while i < self.entries.len()
            invariant
                i <= self.entries@.len(),
                keys_unique(self.entries@, entry_key()),
                ids@.len() == i,
                forall|j: int| 0 <= j < i ==> #[trigger] ids@[j]@ == self.entries@[j].profile.agent_id@,
            decreases self.entries@.len() - i,
        {
            ids.push(self.entries[i].profile.agent_id.clone());
            i = i + 1;
        }
        proof {
            assert forall|j: int| 0 <= j < ids@.len() implies self@.contains_key(
                #[trigger] ids@[j]@,
            ) by {
                lemma_entry_at(self.entries@, j);
            }
            assert forall|id: Seq<char>| self@.contains_key(id) implies exists|j: int|
                0 <= j < ids@.len() && ids@[j]@ == id by {
                lemma_keyed_map_contains(self.entries@, entry_key(), id);
                let j = choose|j: int|
                    0 <= j < self.entries@.len() && (entry_key())(self.entries@[j]) == id;
                assert(ids@[j]@ == id);
            }
            assert forall|a: int, b: int| 0 <= a < b < ids@.len() implies #[trigger] ids@[a]@
                != #[trigger] ids@[b]@ by {
                assert((entry_key())(self.entries@[a]) != (entry_key())(self.entries@[b]));
            }
        }
        ids
    }
}

/// Whether an extension (as `Path::extension` reports it) marks a YAML file:
/// exactly "yaml" or "yml".
pub open spec fn is_yaml_extension_spec(extension: Option<Seq<char>>) -> bool {
    match extension {
        Some(e) => e == "yaml"@ || e == "yml"@,
        None => false,
    }
}

/// Whether an extension marks a YAML file.
pub fn is_yaml_extension(extension: &Option<String>) -> (yaml: bool)
    ensures
        yaml == is_yaml_extension_spec(
            match extension {
                Some(e) => Some(e@),
                None => None,
            },
        ),
{
    match extension {
        Some(e) => text_equals(e.as_str(), "yaml") || text_equals(e.as_str(), "yml"),
        None => false,
    }
}

/// Check if a path has a .yaml or .yml extension.
pub fn is_yaml_file(path: &str) -> (yaml: bool)
    ensures
        yaml == is_yaml_extension_spec(path_extension_of(path@)),
{
    let extension = path_extension(path);
    is_yaml_extension(&extension)
}

/// The outcome of loading one profile file: its path, and the profile or
/// the error.
pub type LoadedProfile = (String, Result<AgentProfile, IronclawError>);

/// The registry after registering, in order, every profile that loaded (a
/// later profile with the same agent id replaces an earlier one).
pub open spec fn register_all(
    registry: Map<Seq<char>, AgentProfile>,
    loaded: Seq<LoadedProfile>,
) -> Map<Seq<char>, AgentProfile>
    decreases loaded.len(),
{
    if loaded.len() == 0 {
        registry
    } else {
        let before = register_all(registry, loaded.drop_last());
        match loaded.last().1 {
            Ok(profile) => before.insert(profile.agent_id@, profile),
            Err(_) => before,
        }
    }
}

/// The source files after registering, in order, every profile that loaded:
/// each agent id that loaded is recorded as coming from the file it was last
/// loaded from.
pub open spec fn record_sources(
    sources: Map<Seq<char>, Option<Seq<char>>>,
    loaded: Seq<LoadedProfile>,
) -> Map<Seq<char>, Option<Seq<char>>>
    decreases loaded.len(),
{
    if loaded.len() == 0 {
        sources
    } else {
        let before = record_sources(sources, loaded.drop_last());
        match loaded.last().1 {
            Ok(profile) => before.insert(profile.agent_id@, Some(loaded.last().0@)),
            Err(_) => before,
        }
    }
}

/// Number of successful loads.
pub open spec fn count_loaded(loaded: Seq<LoadedProfile>) -> nat
    decreases loaded.len(),
{
    if loaded.len() == 0 {
        0
    } else {
        count_loaded(loaded.drop_last()) + if loaded.last().1 is Ok {
            1nat
        } else {
            0nat
        }
    }
}

/// A load that succeeded, by the agent id of its profile.
pub open spec fn loads_agent(entry: LoadedProfile, agent_id: Seq<char>) -> bool {
    entry.1 matches Ok(profile) && profile.agent_id@ == agent_id
}

/// Every profile of a scan that loaded is registered afterwards, whatever
/// failed before or after it, unless a later file loaded a profile with the
/// same agent id: then that later one is. It is recorded as coming from its
/// own file.
pub proof fn lemma_scan_registers_every_load(
    registry: Map<Seq<char>, AgentProfile>,
    sources: Map<Seq<char>, Option<Seq<char>>>,
    loaded: Seq<LoadedProfile>,
    k: int,
)
    requires
        0 <= k < loaded.len(),
        loaded[k].1 is Ok,
        forall|j: int|
            k < j < loaded.len() ==> !loads_agent(loaded[j], loaded[k].1->Ok_0.agent_id@),
    ensures
        register_all(registry, loaded).contains_key(loaded[k].1->Ok_0.agent_id@),
        register_all(registry, loaded)[loaded[k].1->Ok_0.agent_id@] == loaded[k].1->Ok_0,
        record_sources(sources, loaded)[loaded[k].1->Ok_0.agent_id@] == Some(loaded[k].0@),
    decreases loaded.len(),
{
    let id = loaded[k].1->Ok_0.agent_id@;
    if k < loaded.len() - 1 {
        let prefix = loaded.drop_last();
        assert forall|j: int| k < j < prefix.len() implies !loads_agent(prefix[j], id) by {
            assert(prefix[j] == loaded[j]);
        }
        lemma_scan_registers_every_load(registry, sources, prefix, k);
        assert(!loads_agent(loaded[loaded.len() - 1], id));
    }
}

/// An agent id that no file of a scan loads keeps what the registry held
/// for it before the scan.
pub proof fn lemma_scan_keeps_other_agents(
    registry: Map<Seq<char>, AgentProfile>,
    sources: Map<Seq<char>, Option<Seq<char>>>,
    loaded: Seq<LoadedProfile>,
    agent_id: Seq<char>,
)
    requires
        forall|j: int| 0 <= j < loaded.len() ==> !loads_agent(loaded[j], agent_id),
    ensures
        register_all(registry, loaded).contains_key(agent_id) == registry.contains_key(agent_id),
        registry.contains_key(agent_id) ==> register_all(registry, loaded)[agent_id]
            == registry[agent_id],
        record_sources(sources, loaded).contains_key(agent_id) == sources.contains_key(agent_id),
        sources.contains_key(agent_id) ==> record_sources(sources, loaded)[agent_id]
            == sources[agent_id],
    decreases loaded.len(),
{
    if loaded.len() > 0 {
        let prefix = loaded.drop_last();
        assert forall|j: int| 0 <= j < prefix.len() implies !loads_agent(prefix[j], agent_id) by {
            assert(prefix[j] == loaded[j]);
        }
        lemma_scan_keeps_other_agents(registry, sources, prefix, agent_id);
        assert(!loads_agent(loaded[loaded.len() - 1], agent_id));
    }
}

/// The count of a scan is the number of files that loaded, failures
/// anywhere in the scan notwithstanding.
pub proof fn lemma_scan_counts_every_load(loaded: Seq<LoadedProfile>)
    ensures
        count_loaded(loaded) == loaded.filter(|entry: LoadedProfile| entry.1 is Ok).len(),
    decreases loaded.len(),
{
    reveal_with_fuel(Seq::filter, 1);
    if loaded.len() > 0 {
        lemma_scan_counts_every_load(loaded.drop_last());
    }
}

/// Register the profiles of a directory scan, given the outcome of loading
/// each YAML file in scan order: every profile that loaded is inserted under
/// its agent id, recorded as coming from its file (a later file wins), and
/// every failure is skipped. Returns the number of profiles that loaded.
pub fn load_all_profiles(registry: &mut AgentRegistry, loaded: Vec<LoadedProfile>) -> (count: usize)
    ensures
        final(registry)@ == register_all(old(registry)@, loaded@),
        final(registry).sources() == record_sources(old(registry).sources(), loaded@),
        count == count_loaded(loaded@),
{
    let ghost start = registry@;
    let ghost start_sources = registry.sources();
    let ghost all = loaded@;
    let total = loaded.len();
    let mut pending = loaded;
    let mut count: usize = 0;
    let mut i: usize = 0;
    while pending.len() > 0
        invariant
            i + pending@.len() == all.len(),
            total == all.len(),
            pending@ == all.subrange(i as int, all.len() as int),
            registry@ == register_all(start, all.subrange(0, i as int)),
            registry.sources() == record_sources(start_sources, all.subrange(0, i as int)),
            count == count_loaded(all.subrange(0, i as int)),
            count <= i,
        decreases pending@.len(),
    {
        let item = pending.remove(0);
        assert(item == all[i as int]);
        assert(all.subrange(0, i + 1).drop_last() =~= all.subrange(0, i as int));
        let (path, outcome) = item;
        match outcome {
            Ok(profile) => {
                registry.insert_from_file(profile, path.as_str());
                count = count + 1;
            },
            Err(_) => {},
        }
        i = i + 1;
        assert(pending@ =~= all.subrange(i as int, all.len() as int));
    }
    assert(all.subrange(0, i as int) =~= all);
    count
}

/// What a change of a file in the profiles directory calls for.
#[derive(Debug, Clone, Copy, PartialEq, Eq, Structural)]
pub enum ProfileChange {
    /// Not a YAML file: nothing to do.
    Ignore,
    /// A YAML file that exists (created or modified): load it and register it.
    Reload,
    /// A YAML file that no longer exists: remove the profiles loaded from it.
    Deleted,
}

/// What an event on a file with the given path calls for, given whether the
/// file exists.
pub open spec fn profile_change_spec(path: Seq<char>, exists: bool) -> ProfileChange {
    if !is_yaml_extension_spec(path_extension_of(path)) {
        ProfileChange::Ignore
    } else if exists {
        ProfileChange::Reload
    } else {
        ProfileChange::Deleted
    }
}

/// Decide what a watcher event on `path` calls for, given whether the file
/// exists now.
pub fn classify_profile_change(path: &str, exists: bool) -> (change: ProfileChange)
    ensures
        change == profile_change_spec(path@, exists),
{
    if !is_yaml_file(path) {
        ProfileChange::Ignore
    } else if exists {
        ProfileChange::Reload
    } else {
        ProfileChange::Deleted
    }
}

/// Looking up a profile right after registering it gives that profile, and
/// the registry grows by one entry exactly when the agent id was new.
pub proof fn lemma_register_then_lookup(
    registry: Map<Seq<char>, AgentProfile>,
    profile: AgentProfile,
)
    requires
        registry.dom().finite(),
    ensures
        registry.insert(profile.agent_id@, profile).contains_key(profile.agent_id@),
        registry.insert(profile.agent_id@, profile)[profile.agent_id@] == profile,
        registry.insert(profile.agent_id@, profile).len() == (if registry.contains_key(
            profile.agent_id@,
        ) {
            registry.len() as int
        } else {
            registry.len() + 1int
        }),
{
    if registry.contains_key(profile.agent_id@) {
        assert(registry.insert(profile.agent_id@, profile).dom() =~= registry.dom());
    }
}

/// Loading a profile from a file and then deleting that file leaves no
/// profile under its agent id, and leaves every profile loaded from another
/// file, or registered directly, as it was.
pub proof fn lemma_load_then_delete(
    registry: Map<Seq<char>, AgentProfile>,
    sources: Map<Seq<char>, Option<Seq<char>>>,
    profile: AgentProfile,
    path: Seq<char>,
)
    requires
        sources.dom() == registry.dom(),
    ensures
        ({
            let loaded = registry.insert(profile.agent_id@, profile);
            let loaded_sources = sources.insert(profile.agent_id@, Some(path));
            let after = loaded.remove_keys(ids_loaded_from(loaded_sources, path));
            &&& !after.contains_key(profile.agent_id@)
            &&& forall|id: Seq<char>|
                #[trigger] registry.contains_key(id) && id != profile.agent_id@ && sources[id]
                    != Some(path) ==> after.contains_key(id) && after[id] == registry[id]
        }),
{
    let loaded_sources = sources.insert(profile.agent_id@, Some(path));
    assert(ids_loaded_from(loaded_sources, path).contains(profile.agent_id@));
}

} // verus!
