//! A player of a game session, known by the name it registered with.
use vstd::prelude::*;

verus! {

/// A registered player.
#[derive(Debug)]
pub struct Player {
    pub username: String,
}

impl Player {
    /// A player registered under `username`.
    pub fn new(username: String) -> (p: Player)
        ensures
            p.username == username,
    {
        Player { username }
    }
}

impl Clone for Player {
    fn clone(&self) -> (res: Self)
        ensures
            res == *self,
    {
        Player { username: self.username.clone() }
    }
}

} // verus!
