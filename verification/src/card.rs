//! Sound-card metadata as the audio backend reports it.

use vstd::prelude::*;

verus! {

/// One sound card: its index, display strings, and the profiles it offers as
/// `(name, description)` pairs, with the active profile's name.
#[derive(Debug)]
pub struct CardData {
    pub index: u32,
    pub name: String,
    pub icon: String,
    pub profiles: Vec<(String, String)>,
    pub active_profile: String,
}

impl CardData {
    /// An empty card record.
    pub fn new() -> (r: CardData)
        ensures
            r.index == 0,
            r.name@ == Seq::<char>::empty(),
            r.icon@ == Seq::<char>::empty(),
            r.profiles@ == Seq::<(String, String)>::empty(),
            r.active_profile@ == Seq::<char>::empty(),
    {
        CardData {
            index: 0,
            name: String::new(),
            icon: String::new(),
            profiles: Vec::new(),
            active_profile: String::new(),
        }
    }
}

} // verus!
