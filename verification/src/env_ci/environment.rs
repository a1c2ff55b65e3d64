//! The variables of a process environment.

use vstd::hash_map::StringHashMap;
use vstd::prelude::*;

verus! {

/// Environment variables by name, each name with one value.
pub struct Environment {
    vars: StringHashMap<String>,
}

impl View for Environment {
    type V = Map<Seq<char>, Seq<char>>;

    closed spec fn view(&self) -> Map<Seq<char>, Seq<char>> {
        self.vars@.map_values(|value: String| value@)
    }
}

impl Environment {
    /// An environment without variables.
    pub fn new() -> (env: Self)
        ensures
            env@ == Map::<Seq<char>, Seq<char>>::empty(),
    {
        let env = Environment { vars: StringHashMap::new() };
        assert(env@ =~= Map::<Seq<char>, Seq<char>>::empty());
        env
    }

    /// Sets the variable `name` to `value`.
    pub fn insert(&mut self, name: String, value: String)
        ensures
            final(self)@ == old(self)@.insert(name@, value@),
    {
        self.vars.insert(name, value);
        assert(self@ =~= old(self)@.insert(name@, value@));
    }

    /// The value of the variable `name`, where it is set.
    pub fn get(&self, name: &str) -> (value: Option<&String>)
        ensures
            match value {
                Some(v) => self@.contains_key(name@) && v@ == self@[name@],
                None => !self@.contains_key(name@),
            },
    {
        self.vars.get(name)
    }
}

} // verus!
