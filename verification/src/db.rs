//! The records the local database keeps of users and of who is in the room.
use vstd::prelude::*;

use crate::watcher::opt_view;

verus! {

/// A user the database knows.
#[derive(Debug, Clone)]
pub struct User {
    pub user_id: String,
    pub display_name: Option<String>,
    pub trust_level: Option<String>,
    pub last_bio: Option<String>,
    pub pronouns: Option<String>,
    pub updated_at: Option<String>,
}

/// A user whose visit has not ended, with the world and time it started.
#[derive(Debug, Clone)]
pub struct ActivePlayer {
    pub user_id: String,
    pub display_name: Option<String>,
    pub trust_level: Option<String>,
    pub last_bio: Option<String>,
    pub pronouns: Option<String>,
    pub updated_at: Option<String>,
    pub world_name: Option<String>,
    pub joined_at: Option<String>,
}

/// Whether a fetched bio is recorded in the bio history: it differs from the
/// last bio stored for the user (or none is stored).
pub fn bio_changed(previous: &Option<String>, bio: &str) -> (r: bool)
    ensures
        r == (opt_view(*previous) != Some(bio@)),
{
    match previous {
        Some(p) => {
            let a = crate::text::chars_of(p.as_str());
            !crate::translations::eq_lit(a.as_slice(), bio)
        },
        None => true,
    }
}

} // verus!
