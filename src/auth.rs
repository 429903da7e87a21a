//! What a successful sign-in reports back to the caller. Key material never
//! appears in it.

use vstd::prelude::*;

verus! {

/// A named value reported after sign-in.
pub struct Entry {
    pub key: String,
    pub value: String,
}

/// The report of a sign-in: the identity under `user_id`, and nothing else.
pub fn session_entries(user_id: &str) -> (r: Vec<Entry>)
    ensures
        r@.len() == 1,
        r@[0].key@ == "user_id"@,
        r@[0].value@ == user_id@,
{
    let mut entries: Vec<Entry> = Vec::with_capacity(1);
    entries.push(Entry { key: "user_id".to_owned(), value: user_id.to_owned() });
    entries
}

} // verus!
