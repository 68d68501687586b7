use vstd::prelude::*;

verus! {

/// A commit type: identifier and description.
pub type Entry = (Seq<char>, Seq<char>);

/// No identifier occurs twice.
pub open spec fn keys_unique(m: Seq<Entry>) -> bool {
    forall|i: int, j: int| 0 <= i < m.len() && 0 <= j < m.len() && m[i].0 == m[j].0 ==> i == j
}

pub open spec fn has_key(m: Seq<Entry>, k: Seq<char>) -> bool {
    exists|i: int| 0 <= i < m.len() && m[i].0 == k
}

/// The description registered for an identifier, if any.
pub open spec fn lookup(m: Seq<Entry>, k: Seq<char>) -> Option<Seq<char>> {
    if has_key(m, k) {
        Some(m[choose|i: int| 0 <= i < m.len() && m[i].0 == k].1)
    } else {
        None
    }
}

/// Registers `d` for `k`: an existing entry keeps its place and takes the new
/// description; a new identifier goes to the end.
pub open spec fn insert_entry(m: Seq<Entry>, k: Seq<char>, d: Seq<char>) -> Seq<Entry> {
    if has_key(m, k) {
        m.update(choose|i: int| 0 <= i < m.len() && m[i].0 == k, (k, d))
    } else {
        m.push((k, d))
    }
}

/// Registers each entry of `custom` in order, later ones overriding earlier ones.
pub open spec fn insert_all(m: Seq<Entry>, custom: Seq<Entry>) -> Seq<Entry>
    decreases custom.len(),
{
    if custom.len() == 0 {
        m
    } else {
        let last = custom.last();
        insert_entry(insert_all(m, custom.drop_last()), last.0, last.1)
    }
}

pub open spec fn entry_views(v: Seq<(String, String)>) -> Seq<Entry> {
    v.map_values(|e: (String, String)| (e.0@, e.1@))
}

/// The built-in conventional commit types.
pub open spec fn default_types_model() -> Seq<Entry> {
    seq![
        ("build"@, "Changes that affect the build system or external dependencies (example scopes: cargo, bazel, make)"@),
        ("chore"@, "Other changes that don't modify src or test files"@),
        ("ci"@, "Changes to our CI configuration files and scripts (example scopes: Travis, Circle, GitHub Actions)"@),
        ("docs"@, "Documentation only changes"@),
        ("feat"@, "A new feature"@),
        ("fix"@, "A bug fix"@),
        ("perf"@, "A code change that improves performance"@),
        ("refactor"@, "A code change that neither fixes a bug nor adds a feature"@),
        ("revert"@, "Reverts a previous commit"@),
        ("style"@, "Changes that do not affect the meaning of the code (white-space, formatting, etc)"@),
        ("test"@, "Adding missing tests or correcting existing tests"@),
    ]
}

/// The types that a run offers: the defaults if asked for, then the custom ones.
pub open spec fn resolved_types(use_defaults: bool, custom: Seq<Entry>) -> Seq<Entry> {
    insert_all(if use_defaults { default_types_model() } else { Seq::empty() }, custom)
}

/// The commit types offered to the user, in a stable order.
pub struct TypeRegistry {
    entries: Vec<(String, String)>,
}

/// No commit type is available.
#[derive(Debug, PartialEq, Eq, Structural, Clone, Copy)]
pub enum ConfigError {
    NoTypes,
}

impl View for TypeRegistry {
    type V = Seq<Entry>;

    closed spec fn view(&self) -> Seq<Entry> {
        entry_views(self.entries@)
    }
}

impl TypeRegistry {
    pub open spec fn wf(&self) -> bool {
        keys_unique(self@)
    }

    pub fn len(&self) -> (r: usize)
        ensures
            r == self@.len(),
    {
        self.entries.len()
    }

    /// The identifier of the `i`-th type.
    pub fn id(&self, i: usize) -> (r: String)
        requires
            i < self@.len(),
        ensures
            r@ == self@[i as int].0,
    {
        self.entries[i].0.clone()
    }

    /// The description of the `i`-th type.
    pub fn description(&self, i: usize) -> (r: String)
        requires
            i < self@.len(),
        ensures
            r@ == self@[i as int].1,
    {
        self.entries[i].1.clone()
    }

    /// The position of an identifier, if it is registered.
    fn position(&self, k: &String) -> (r: Option<usize>)
        requires
            self.wf(),
        ensures
            match r {
                Some(i) => i < self@.len() && self@[i as int].0 == k@ && i == choose|j: int|
                    0 <= j < self@.len() && self@[j].0 == k@,
                None => !has_key(self@, k@),
            },
    {
        let mut i: usize = 0;
        while i < self.entries.len()
            invariant
                i <= self@.len(),
                self@.len() == self.entries@.len(),
                self.wf(),
                forall|j: int| 0 <= j < i ==> self@[j].0 != k@,
            decreases self.entries@.len() - i,
        {
            if self.entries[i].0 == *k {
                proof {
                    assert(self@[i as int].0 == k@);
                    let c = choose|j: int| 0 <= j < self@.len() && self@[j].0 == k@;
                    assert(self@[c].0 == k@);
                    assert(keys_unique(self@));
                    assert(c == i);
                }
                return Some(i);
            }
            i = i + 1;
        }
        None
    }

    /// Registers a type; a known identifier takes the new description in place.
    pub fn insert(&mut self, k: String, d: String)
        requires
            old(self).wf(),
        ensures
            final(self).wf(),
            final(self)@ == insert_entry(old(self)@, k@, d@),
    {
        let ghost m = self@;
        match self.position(&k) {
            Some(i) => {
                let ghost kv = k@;
                let ghost dv = d@;
                self.entries.set(i, (k, d));
                assert(self@ =~= m.update(i as int, (kv, dv)));
            },
            None => {
                let ghost kv = k@;
                let ghost dv = d@;
                self.entries.push((k, d));
                assert(self@ =~= m.push((kv, dv)));
            },
        }
    }

    /// The entries shown in the selection prompt, as "id: description".
    pub fn labels(&self) -> (r: Vec<String>)
        ensures
            r@.len() == self@.len(),
            forall|i: int| 0 <= i < r@.len() ==> #[trigger] r@[i]@ == self@[i].0 + ": "@ + self@[i].1,
    {
        let mut r: Vec<String> = Vec::new();
        let mut i: usize = 0;
        while i < self.entries.len()
            invariant
                i <= self@.len(),
                self@.len() == self.entries@.len(),
                r@.len() == i,
                forall|j: int| 0 <= j < i ==> #[trigger] r@[j]@ == self@[j].0 + ": "@ + self@[j].1,
            decreases self.entries@.len() - i,
        {
            let mut label = self.entries[i].0.clone();
            label.append(": ");
            label.append(self.entries[i].1.as_str());
            r.push(label);
            i = i + 1;
        }
        r
    }
}

/// All default conventional commit types alongside their description.
pub fn default_types() -> (r: TypeRegistry)
    ensures
        r.wf(),
        r@ == default_types_model(),
{
    let mut entries: Vec<(String, String)> = Vec::new();
    entries.push((String::from_str("build"), String::from_str("Changes that affect the build system or external dependencies (example scopes: cargo, bazel, make)")));
    entries.push((String::from_str("chore"), String::from_str("Other changes that don't modify src or test files")));
    entries.push((String::from_str("ci"), String::from_str("Changes to our CI configuration files and scripts (example scopes: Travis, Circle, GitHub Actions)")));
    entries.push((String::from_str("docs"), String::from_str("Documentation only changes")));
    entries.push((String::from_str("feat"), String::from_str("A new feature")));
    entries.push((String::from_str("fix"), String::from_str("A bug fix")));
    entries.push((String::from_str("perf"), String::from_str("A code change that improves performance")));
    entries.push((String::from_str("refactor"), String::from_str("A code change that neither fixes a bug nor adds a feature")));
    entries.push((String::from_str("revert"), String::from_str("Reverts a previous commit")));
    entries.push((String::from_str("style"), String::from_str("Changes that do not affect the meaning of the code (white-space, formatting, etc)")));
    entries.push((String::from_str("test"), String::from_str("Adding missing tests or correcting existing tests")));
    let r = TypeRegistry { entries };
    proof {
        assert(r@ =~= default_types_model());
        lemma_default_keys_unique();
    }
    r
}

proof fn lemma_default_keys_unique()
    ensures
        keys_unique(default_types_model()),
{
    reveal_strlit("build");
    reveal_strlit("chore");
    reveal_strlit("ci");
    reveal_strlit("docs");
    reveal_strlit("feat");
    reveal_strlit("fix");
    reveal_strlit("perf");
    reveal_strlit("refactor");
    reveal_strlit("revert");
    reveal_strlit("style");
    reveal_strlit("test");
    let m = default_types_model();
    assert forall|i: int, j: int|
        0 <= i < m.len() && 0 <= j < m.len() && m[i].0 == m[j].0 implies i == j by {
        if i != j {
            assert(m[i].0.len() != m[j].0.len() || m[i].0[0] != m[j].0[0] || m[i].0[1] != m[j].0[1]
                || m[i].0[2] != m[j].0[2]);
        }
    }
}

proof fn lemma_insert_all_len(m: Seq<Entry>, custom: Seq<Entry>)
    ensures
        insert_all(m, custom).len() >= m.len(),
        custom.len() > 0 ==> insert_all(m, custom).len() > 0,
    decreases custom.len(),
{
    if custom.len() > 0 {
        lemma_insert_all_len(m, custom.drop_last());
    }
}

/// Builds the registry of a run: starts empty, takes the default types if
/// `use_defaults`, then each custom type in order, a custom type overriding
/// a default or an earlier one of the same identifier. Fails when that
/// leaves no type to offer.
pub fn resolve_types(use_defaults: bool, custom: &Vec<(String, String)>) -> (r: Result<
    TypeRegistry,
    ConfigError,
>)
    ensures
        r is Err <==> (!use_defaults && custom@.len() == 0),
        match r {
            Ok(reg) => reg.wf() && reg@ == resolved_types(use_defaults, entry_views(custom@)),
            Err(_) => resolved_types(use_defaults, entry_views(custom@)).len() == 0,
        },
{
    let mut reg = if use_defaults {
        default_types()
    } else {
        TypeRegistry { entries: Vec::new() }
    };
    let ghost base = reg@;
    proof {
        assert(base =~= if use_defaults { default_types_model() } else { Seq::empty() });
    }
    let mut i: usize = 0;
    while i < custom.len()
        invariant
            i <= custom@.len(),
            reg.wf(),
            reg@ == insert_all(base, entry_views(custom@.subrange(0, i as int))),
        decreases custom@.len() - i,
    {
        let k = custom[i].0.clone();
        let d = custom[i].1.clone();
        reg.insert(k, d);
        proof {
            let c = entry_views(custom@.subrange(0, i + 1));
            assert(c.drop_last() =~= entry_views(custom@.subrange(0, i as int)));
            assert(c.last() == (custom@[i as int].0@, custom@[i as int].1@));
        }
        i = i + 1;
    }
    assert(custom@.subrange(0, i as int) =~= custom@);
    proof {
        lemma_insert_all_len(base, entry_views(custom@));
        assert(entry_views(custom@).len() == custom@.len());
    }
    if reg.len() == 0 {
        Err(ConfigError::NoTypes)
    } else {
        Ok(reg)
    }
}

/// Registering an entry keeps identifiers unique, maps its identifier to its
/// description and leaves every other identifier as it was.
pub proof fn lemma_insert_lookup(m: Seq<Entry>, k: Seq<char>, d: Seq<char>)
    requires
        keys_unique(m),
    ensures
        keys_unique(insert_entry(m, k, d)),
        lookup(insert_entry(m, k, d), k) == Some(d),
        forall|k2: Seq<char>| k2 != k ==> lookup(insert_entry(m, k, d), k2) == lookup(m, k2),
{
    let r = insert_entry(m, k, d);
    if has_key(m, k) {
        let i = choose|i: int| 0 <= i < m.len() && m[i].0 == k;
        assert(r[i].0 == k);
        assert forall|k2: Seq<char>| k2 != k implies lookup(r, k2) == lookup(m, k2) by {
            if has_key(m, k2) {
                let j = choose|j: int| 0 <= j < m.len() && m[j].0 == k2;
                assert(r[j].0 == k2);
            }
            if has_key(r, k2) {
                let j = choose|j: int| 0 <= j < r.len() && r[j].0 == k2;
                assert(m[j].0 == k2);
            }
        }
    } else {
        assert(r[m.len() as int].0 == k);
        assert forall|k2: Seq<char>| k2 != k implies lookup(r, k2) == lookup(m, k2) by {
            if has_key(m, k2) {
                let j = choose|j: int| 0 <= j < m.len() && m[j].0 == k2;
                assert(r[j].0 == k2);
            }
            if has_key(r, k2) {
                let j = choose|j: int| 0 <= j < r.len() && r[j].0 == k2;
                assert(m[j].0 == k2);
            }
        }
    }
}

/// Asking for the defaults with no custom types gives the defaults.
pub proof fn lemma_defaults_round_trip()
    ensures
        resolved_types(true, Seq::empty()) == default_types_model(),
{
}

/// A custom type overrides the description of a default of the same
/// identifier.
pub proof fn lemma_custom_overrides(use_defaults: bool, k: Seq<char>, d: Seq<char>)
    ensures
        lookup(resolved_types(use_defaults, seq![(k, d)]), k) == Some(d),
{
    let base = if use_defaults { default_types_model() } else { Seq::empty() };
    lemma_default_keys_unique();
    assert(seq![(k, d)].drop_last() =~= Seq::<Entry>::empty());
    lemma_insert_lookup(base, k, d);
    let c = seq![(k, d)];
    assert(insert_all(base, c.drop_last()) == base);
    assert(c.last() == (k, d));
    assert(insert_all(base, c) == insert_entry(base, k, d));
}

} // verus!
