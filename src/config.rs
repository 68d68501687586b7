use vstd::prelude::*;
use crate::registry::{entry_views, resolve_types, resolved_types, ConfigError, Entry, TypeRegistry};

verus! {

/// The `package.metadata` table of a project manifest.
pub struct Metadata {
    pub commits: CommitsMetadata,
}

/// Which commit types a project allows.
pub struct CommitsMetadata {
    pub defaults: bool,
    pub types: Option<Vec<CommitDeclarationMetadata>>,
}

/// A custom commit type: identifier and description.
pub struct CommitDeclarationMetadata {
    pub name: String,
    pub desc: String,
}

/// The declared custom types as (identifier, description) pairs, in order.
pub open spec fn declared_entries(m: CommitsMetadata) -> Seq<Entry> {
    match m.types {
        Some(v) => v@.map_values(|d: CommitDeclarationMetadata| (d.name@, d.desc@)),
        None => Seq::empty(),
    }
}

impl CommitsMetadata {
    /// The declared custom types as pairs of strings.
    pub fn custom_types(&self) -> (r: Vec<(String, String)>)
        ensures
            entry_views(r@) == declared_entries(*self),
    {
        let mut r: Vec<(String, String)> = Vec::new();
        match &self.types {
            Some(decls) => {
                let mut i: usize = 0;
                while i < decls.len()
                    invariant
                        self.types == Some(*decls),
                        i <= decls@.len(),
                        entry_views(r@) == decls@.subrange(0, i as int).map_values(
                            |d: CommitDeclarationMetadata| (d.name@, d.desc@),
                        ),
                    decreases decls@.len() - i,
                {
                    let ghost before = r@;
                    let name = decls[i].name.clone();
                    let desc = decls[i].desc.clone();
                    r.push((name, desc));
                    assert(entry_views(r@) =~= entry_views(before).push((name@, desc@)));
                    assert(entry_views(r@) =~= decls@.subrange(0, i + 1).map_values(
                        |d: CommitDeclarationMetadata| (d.name@, d.desc@),
                    ));
                    i = i + 1;
                }
                assert(decls@.subrange(0, i as int) =~= decls@);
            },
            None => {
                assert(entry_views(r@) =~= Seq::<Entry>::empty());
            },
        }
        r
    }

    /// The commit types a project offers: the defaults if it asks for them,
    /// then its own, which override defaults of the same identifier.
    pub fn resolve(&self) -> (r: Result<TypeRegistry, ConfigError>)
        ensures
            r is Err <==> (!self.defaults && declared_entries(*self).len() == 0),
            match r {
                Ok(reg) => reg.wf() && reg@ == resolved_types(self.defaults, declared_entries(*self)),
                Err(_) => true,
            },
    {
        let custom = self.custom_types();
        proof {
            assert(entry_views(custom@).len() == custom@.len());
        }
        resolve_types(self.defaults, &custom)
    }
}

} // verus!
