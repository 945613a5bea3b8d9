//! The crate metadata that `cargo publish` sends and that cargo reads back
//! from the index.
use vstd::prelude::*;

verus! {

/// One version of a crate as it stands in the index.
#[derive(Clone, PartialEq, Eq, Debug)]
pub struct CrateVersion {
    pub name: String,
    pub vers: String,
    pub deps: Vec<CrateDependency>,
    pub features: CrateFeatures,
    pub links: Option<String>,
}

impl CrateVersion {
    /// The same version, owning all of its text.
    pub fn into_owned(self) -> (r: CrateVersion)
        ensures
            r == self,
    {
        CrateVersion {
            name: self.name,
            vers: self.vers,
            deps: self.deps,
            features: self.features,
            links: self.links,
        }
    }
}

/// Descriptive metadata of a crate.
#[derive(Clone, PartialEq, Eq, Debug)]
pub struct CrateVersionMetadata {
    pub description: Option<String>,
    pub readme: Option<String>,
    pub repository: Option<String>,
    pub homepage: Option<String>,
    pub documentation: Option<String>,
}

/// A dependency of a crate version.
#[derive(Clone, PartialEq, Eq, Debug)]
pub struct CrateDependency {
    pub name: String,
    pub version_req: String,
    pub features: Vec<String>,
    pub optional: bool,
    pub default_features: bool,
    pub target: Option<String>,
    pub kind: String,
    pub registry: Option<String>,
    pub package: Option<String>,
}

/// A copy of an optional text.
pub fn clone_option_string(s: &Option<String>) -> (r: Option<String>)
    ensures
        r == *s,
{
    match s {
        Some(v) => Some(v.clone()),
        None => None,
    }
}

/// A copy of a list of texts.
pub fn clone_strings(v: &Vec<String>) -> (r: Vec<String>)
    ensures
        r@ == v@,
{
    let mut r: Vec<String> = Vec::new();
    let mut i: usize = 0;
    while i < v.len()
        invariant
            i <= v@.len(),
            r@ == v@.take(i as int),
        decreases v@.len() - i,
    {
        r.push(v[i].clone());
        assert(r@ =~= v@.take(i + 1));
        i = i + 1;
    }
    assert(r@ =~= v@);
    r
}

impl CrateDependency {
    /// The same dependency, owning all of its text.
    pub fn into_owned(self) -> (r: CrateDependency)
        ensures
            r == self,
    {
        CrateDependency {
            name: self.name,
            version_req: self.version_req,
            features: self.features,
            optional: self.optional,
            default_features: self.default_features,
            target: self.target,
            kind: self.kind,
            registry: self.registry,
            package: self.package,
        }
    }
}

/// The features of a crate version: each feature's name and what it enables.
#[derive(Clone, PartialEq, Eq, Debug)]
pub struct CrateFeatures(pub Vec<(String, Vec<String>)>);

} // verus!
