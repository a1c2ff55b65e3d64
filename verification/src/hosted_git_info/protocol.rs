//! The known URL scheme families and the registry of those a caller accepts.

use crate::text::same_text;
use std::collections::HashMap;
use vstd::prelude::*;

verus! {

broadcast use vstd::std_specs::hash::group_hash_axioms;

/// A URL scheme family.
#[derive(Clone, Copy, Debug, PartialEq, Eq, Structural, Hash)]
pub enum ProtocolType {
    Ssh,
    Git,
    Http,
    Https,
    GitSsh,
    GitHttp,
    GitHttps,
    Shortcut,
}

/// What is known of one scheme family: its canonical prefix, the name of the
/// URL template it stands for, and whether it carries credentials.
#[derive(Clone, Debug)]
pub struct Protocol {
    pub prefix: String,
    pub name: Option<String>,
    pub auth: bool,
}

/// The scheme family that the prefix `s` (a scheme with its colon) names.
pub open spec fn spec_type_from_str(s: Seq<char>) -> Option<ProtocolType> {
    if s == "ssh:"@ {
        Some(ProtocolType::Ssh)
    } else if s == "git:"@ {
        Some(ProtocolType::Git)
    } else if s == "http:"@ {
        Some(ProtocolType::Http)
    } else if s == "https:"@ {
        Some(ProtocolType::Https)
    } else if s == "git+ssh:"@ {
        Some(ProtocolType::GitSsh)
    } else if s == "git+http:"@ {
        Some(ProtocolType::GitHttp)
    } else if s == "git+https:"@ {
        Some(ProtocolType::GitHttps)
    } else if s == "github:"@ || s == "gitlab:"@ || s == "bitbucket:"@ || s == "gist:"@ || s
        == "sourcehut:"@ {
        Some(ProtocolType::Shortcut)
    } else {
        None
    }
}

/// Resolves a scheme prefix, colon included, to its family.
pub fn type_from_str(s: &str) -> (r: Option<ProtocolType>)
    ensures
        r == spec_type_from_str(s@),
{
    if same_text(s, "ssh:") {
        Some(ProtocolType::Ssh)
    } else if same_text(s, "git:") {
        Some(ProtocolType::Git)
    } else if same_text(s, "http:") {
        Some(ProtocolType::Http)
    } else if same_text(s, "https:") {
        Some(ProtocolType::Https)
    } else if same_text(s, "git+ssh:") {
        Some(ProtocolType::GitSsh)
    } else if same_text(s, "git+http:") {
        Some(ProtocolType::GitHttp)
    } else if same_text(s, "git+https:") {
        Some(ProtocolType::GitHttps)
    } else if same_text(s, "github:") || same_text(s, "gitlab:") || same_text(s, "bitbucket:")
        || same_text(s, "gist:") || same_text(s, "sourcehut:") {
        Some(ProtocolType::Shortcut)
    } else {
        None
    }
}

/// The key under which a family is stored.
pub open spec fn key_of(kind: ProtocolType) -> u64 {
    match kind {
        ProtocolType::Ssh => 0,
        ProtocolType::Git => 1,
        ProtocolType::Http => 2,
        ProtocolType::Https => 3,
        ProtocolType::GitSsh => 4,
        ProtocolType::GitHttp => 5,
        ProtocolType::GitHttps => 6,
        ProtocolType::Shortcut => 7,
    }
}

fn key(kind: ProtocolType) -> (k: u64)
    ensures
        k == key_of(kind),
{
    match kind {
        ProtocolType::Ssh => 0,
        ProtocolType::Git => 1,
        ProtocolType::Http => 2,
        ProtocolType::Https => 3,
        ProtocolType::GitSsh => 4,
        ProtocolType::GitHttp => 5,
        ProtocolType::GitHttps => 6,
        ProtocolType::Shortcut => 7,
    }
}

/// The protocols a caller accepts, at most one record for each family.
pub struct ProtocolRegistry {
    entries: HashMap<u64, Protocol>,
}

impl View for ProtocolRegistry {
    type V = Map<ProtocolType, Protocol>;

    closed spec fn view(&self) -> Map<ProtocolType, Protocol> {
        Map::new(
            |kind: ProtocolType| self.entries@.contains_key(key_of(kind)),
            |kind: ProtocolType| self.entries@[key_of(kind)],
        )
    }
}

impl ProtocolRegistry {
    /// A registry that accepts nothing.
    pub fn new() -> (r: Self)
        ensures
            r@ == Map::<ProtocolType, Protocol>::empty(),
    {
        let r = ProtocolRegistry { entries: HashMap::new() };
        assert(r@ =~= Map::<ProtocolType, Protocol>::empty());
        r
    }

    /// Records `protocol` for `kind`, in place of what was recorded for it before.
    pub fn insert(&mut self, kind: ProtocolType, protocol: Protocol)
        ensures
            final(self)@ == old(self)@.insert(kind, protocol),
    {
        self.entries.insert(key(kind), protocol);
        assert(self@ =~= old(self)@.insert(kind, protocol));
    }

    /// Whether a record exists for `kind`.
    pub fn contains_key(&self, kind: &ProtocolType) -> (r: bool)
        ensures
            r == self@.contains_key(*kind),
    {
        let k = key(*kind);
        self.entries.contains_key(&k)
    }

    /// The record for `kind`, where there is one.
    pub fn get(&self, kind: &ProtocolType) -> (r: Option<&Protocol>)
        ensures
            match r {
                Some(p) => self@.contains_key(*kind) && *p == self@[*kind],
                None => !self@.contains_key(*kind),
            },
    {
        let k = key(*kind);
        self.entries.get(&k)
    }
}

} // verus!
