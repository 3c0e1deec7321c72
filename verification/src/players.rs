//! Players known to a running instance.
//!
//! A player carries a display name and, when the server reported one, a
//! stable id. Two players are the same when their ids are both known and
//! equal; otherwise the name decides.

use vstd::prelude::*;

verus! {

#[derive(Clone, Debug, Eq)]
pub struct MinecraftJavaPlayer {
    pub name: String,
    pub uuid: Option<String>,
}

impl MinecraftJavaPlayer {
    pub fn new(name: String, uuid: Option<String>) -> (r: Self)
        ensures
            r.name == name,
            r.uuid == uuid,
    {
        Self { name, uuid }
    }
}

/// What player equality means: ids decide when both are known, names
/// decide otherwise.
pub open spec fn player_eq_spec(a: &MinecraftJavaPlayer, b: &MinecraftJavaPlayer) -> bool {
    match (a.uuid, b.uuid) {
        (Some(x), Some(y)) => x@ == y@,
        _ => a.name@ == b.name@,
    }
}

impl PartialEq for MinecraftJavaPlayer {
    fn eq(&self, other: &Self) -> (r: bool) {
        match (&self.uuid, &other.uuid) {
            (Some(x), Some(y)) => x.eq(y),
            _ => self.name.eq(&other.name),
        }
    }
}

impl MinecraftJavaPlayer {
    /// The name as a string slice, for comparisons.
    pub fn name_str(&self) -> (r: &str)
        ensures
            r@ == self.name@,
    {
        self.name.as_str()
    }
}

impl vstd::std_specs::cmp::PartialEqSpecImpl for MinecraftJavaPlayer {
    open spec fn obeys_eq_spec() -> bool {
        true
    }

    open spec fn eq_spec(&self, other: &Self) -> bool {
        player_eq_spec(self, other)
    }
}

} // verus!
