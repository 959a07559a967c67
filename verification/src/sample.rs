//! The sample store: a decoded audio asset, opaque to the engine beyond
//! "can be played with a volume and a pitch".

use vstd::prelude::*;

verus! {

#[verifier::external_type_specification]
#[verifier::external_body]
pub struct ExSound(kittyaudio::Sound);

/// Relies on `kittyaudio::Sound`'s derived `Clone`: every field is cloned
/// in place and the PCM frames sit behind an `Arc` that the clone shares,
/// so the clone is the same value as the original.
pub assume_specification[ <kittyaudio::Sound as Clone>::clone ](
    s: &kittyaudio::Sound,
) -> (r: kittyaudio::Sound)
    ensures
        r == *s,
;

/// An immutable decoded audio asset. The engine never looks inside; it
/// only stores, selects and hands these out.
#[derive(Debug, PartialEq)]
pub struct SoundWrapper {
    pub sound: kittyaudio::Sound,
}

impl Clone for SoundWrapper {
    fn clone(&self) -> (r: Self)
        ensures
            r == *self,
    {
        SoundWrapper { sound: self.sound.clone() }
    }
}

} // verus!
