use vstd::prelude::*;

verus! {

/// The sound port: the engine only flips this flag; producing the audible
/// cue from it is the front end's business.
pub struct Speaker {
    pub is_playing: bool,
}

impl Speaker {
    pub fn new() -> (s: Speaker)
        ensures
            !s.is_playing,
    {
        Speaker { is_playing: false }
    }
}

} // verus!
