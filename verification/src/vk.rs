//! The bookkeeping of a virtual keyboard: which keycodes and which
//! modifiers it holds down, and how the outcomes of releasing them combine.

use vstd::prelude::*;

use std::collections::HashSet;

use crate::keycodes::Modifier;
use vstd::std_specs::iter::IteratorSpec;

verus! {

broadcast use vstd::std_specs::hash::group_hash_axioms;

/// Error when submitting
#[derive(Debug, Clone, Copy, PartialEq, Eq, Hash, Structural)]
pub enum SubmitError {
    /// Virtual keyboard proxy was dropped and is no longer alive
    NotAlive,
    /// The keycode was invalid
    InvalidKeycode,
}

/// Enum to differentiate between a key press and a release
#[derive(Debug, Clone, Copy, PartialEq, Eq, Hash, Structural)]
pub enum KeyMotion {
    Press,
    Release,
}

impl KeyMotion {
    /// The key state that the protocol sends: 1 for a press, 0 for a release
    pub fn code(self) -> (r: u32)
        ensures
            self == KeyMotion::Press ==> r == 1,
            self == KeyMotion::Release ==> r == 0,
    {
        match self {
            KeyMotion::Press => 1,
            KeyMotion::Release => 0,
        }
    }
}

/// No modifier is held
pub const NO_MODIFIERS: u32 = 0x0;

/// The outcome of releasing all keys and all modifiers: success if both
/// succeeded; otherwise `NotAlive` if either failed with it, as nothing can
/// be sent any more; otherwise `InvalidKeycode`
pub fn combine_release(
    keys: Result<(), SubmitError>,
    modifiers: Result<(), SubmitError>,
) -> (r: Result<(), SubmitError>)
    ensures
        keys is Ok && modifiers is Ok ==> r is Ok,
        !(keys is Ok && modifiers is Ok) && (keys == Err::<(), SubmitError>(SubmitError::NotAlive)
            || modifiers == Err::<(), SubmitError>(SubmitError::NotAlive)) ==> r == Err::<
            (),
            SubmitError,
        >(SubmitError::NotAlive),
        !(keys is Ok && modifiers is Ok) && keys != Err::<(), SubmitError>(SubmitError::NotAlive)
            && modifiers != Err::<(), SubmitError>(SubmitError::NotAlive) ==> r == Err::<
            (),
            SubmitError,
        >(SubmitError::InvalidKeycode),
{
    if keys.is_ok() && modifiers.is_ok() {
        Ok(())
    } else if matches!(keys, Err(SubmitError::NotAlive)) || matches!(modifiers, Err(SubmitError::NotAlive)) {
        Err(SubmitError::NotAlive)
    } else {
        Err(SubmitError::InvalidKeycode)
    }
}

/// The last error among the outcomes, or success if there is none
pub open spec fn last_error(results: Seq<Result<(), SubmitError>>) -> Result<(), SubmitError>
    decreases results.len(),
{
    if results.len() == 0 {
        Ok(())
    } else if results.last() is Err {
        results.last()
    } else {
        last_error(results.drop_last())
    }
}

/// The outcome of releasing keys one by one: an error of a later key
/// replaces one of an earlier key
pub fn release_outcome(results: &Vec<Result<(), SubmitError>>) -> (r: Result<(), SubmitError>)
    ensures
        r == last_error(results@),
{
    let mut success: Result<(), SubmitError> = Ok(());
    let mut i: usize = 0;
    while i < results.len()
        invariant
            i <= results@.len(),
            success == last_error(results@.take(i as int)),
        decreases results@.len() - i,
    {
        assert(results@.take(i + 1).drop_last() =~= results@.take(i as int));
        if results[i].is_err() {
            success = results[i];
        }
        i = i + 1;
    }
    assert(results@.take(i as int) =~= results@);
    success
}

/// The keycodes and the modifiers that a virtual keyboard holds down
pub struct Pressed {
    keys: HashSet<u32>,
    modifiers: u32,
}

impl Pressed {
    /// The held keycodes
    pub closed spec fn keys(&self) -> Set<u32> {
        self.keys@
    }

    /// The held modifiers, one bit each
    pub closed spec fn modifiers(&self) -> u32 {
        self.modifiers
    }

    /// Nothing held
    pub fn new() -> (r: Self)
        ensures
            r.keys() == Set::<u32>::empty(),
            r.modifiers() == NO_MODIFIERS,
    {
        Pressed { keys: HashSet::new(), modifiers: NO_MODIFIERS }
    }

    /// Whether the keycode is held
    pub fn is_pressed(&self, keycode: u32) -> (r: bool)
        ensures
            r == self.keys().contains(keycode),
    {
        self.keys.contains(&keycode)
    }

    /// Remember that a key event was sent
    pub fn keycode_sent(&mut self, keycode: u32, motion: KeyMotion)
        ensures
            motion == KeyMotion::Press ==> final(self).keys() == old(self).keys().insert(keycode),
            motion == KeyMotion::Release ==> final(self).keys() == old(self).keys().remove(keycode),
            final(self).modifiers() == old(self).modifiers(),
    {
        match motion {
            KeyMotion::Press => {
                self.keys.insert(keycode);
            },
            KeyMotion::Release => {
                self.keys.remove(&keycode);
            },
        }
    }

    /// Toggling a key releases it if it is held and presses it otherwise
    pub fn toggle_motion(&self, keycode: u32) -> (r: KeyMotion)
        ensures
            self.keys().contains(keycode) ==> r == KeyMotion::Release,
            !self.keys().contains(keycode) ==> r == KeyMotion::Press,
    {
        if self.keys.contains(&keycode) {
            KeyMotion::Release
        } else {
            KeyMotion::Press
        }
    }

    /// The modifiers held after toggling one: its bit flips
    pub fn toggled_modifiers(&self, modifier: Modifier) -> (r: u32)
        ensures
            r == self.modifiers() ^ vstd::arithmetic::power2::pow2(modifier.spec_no()) as u32,
    {
        self.modifiers ^ modifier.bitflag()
    }

    /// Remember that the modifiers were sent
    pub fn modifiers_sent(&mut self, modifiers: u32)
        ensures
            final(self).modifiers() == modifiers,
            final(self).keys() == old(self).keys(),
    {
        self.modifiers = modifiers;
    }

    /// The held keycodes, each once, in no particular order
    pub fn keys_to_release(&self) -> (r: Vec<u32>)
        ensures
            r@.no_duplicates(),
            r@.to_set() == self.keys(),
    {
        let mut out: Vec<u32> = Vec::new();
        proof {
            vstd::std_specs::hash::axiom_spec_hash_keys_iter(&self.keys);
        }
        for k in it: self.keys.iter()
            invariant
                it.seq() == vstd::std_specs::hash::spec_hash_keys_iter(&self.keys).remaining(),
                out@.len() == it.index(),
                forall|j: int| 0 <= j < out@.len() ==> out@[j] == *it.seq()[j],
        {
            out.push(*k);
        }
        let ghost all = vstd::std_specs::hash::spec_hash_keys_iter(&self.keys).remaining().unref();
        assert(out@ =~= all);
        out
    }
}

} // verus!
