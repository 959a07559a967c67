//! Plain handles into the host game's objects.
//!
//! Each handle wraps a raw address as a number. Reading the host's
//! memory through these addresses is the host adapter's business; the
//! engine only stores and passes them, and computes derived addresses.

use vstd::prelude::*;

verus! {

/// The level settings object of the running level.
#[derive(Clone, Copy, PartialEq, Eq, Structural, Debug)]
pub struct LevelSettings {
    pub addr: usize,
}

impl LevelSettings {
    pub fn new(addr: usize) -> (r: Self)
        ensures
            r.addr == addr,
    {
        LevelSettings { addr }
    }

    pub fn is_null(&self) -> (r: bool)
        ensures
            r == (self.addr == 0),
    {
        self.addr == 0
    }
}

/// One player object of the running level.
#[derive(Clone, Copy, PartialEq, Eq, Structural, Debug)]
pub struct PlayerObject {
    pub addr: usize,
}

impl PlayerObject {
    pub fn new(addr: usize) -> (r: Self)
        ensures
            r.addr == addr,
    {
        PlayerObject { addr }
    }

    pub fn is_null(&self) -> (r: bool)
        ensures
            r == (self.addr == 0),
    {
        self.addr == 0
    }
}

/// The play layer: the host object that runs a level.
#[derive(Clone, Copy, PartialEq, Eq, Structural, Debug)]
pub struct PlayLayer {
    pub addr: usize,
}

impl PlayLayer {
    pub fn new(addr: usize) -> (r: Self)
        ensures
            r.addr == addr,
    {
        PlayLayer { addr }
    }

    pub fn is_null(&self) -> (r: bool)
        ensures
            r == (self.addr == 0),
    {
        self.addr == 0
    }
}

/// The level editor layer.
#[derive(Clone, Copy, PartialEq, Eq, Structural, Debug)]
pub struct LevelEditorLayer {
    pub addr: usize,
}

impl LevelEditorLayer {
    pub fn new(addr: usize) -> (r: Self)
        ensures
            r.addr == addr,
    {
        LevelEditorLayer { addr }
    }

    pub fn is_null(&self) -> (r: bool)
        ensures
            r == (self.addr == 0),
    {
        self.addr == 0
    }
}

/// The base game layer.
#[derive(Clone, Copy, PartialEq, Eq, Structural, Debug)]
pub struct BaseGameLayer {
    pub addr: usize,
}

impl BaseGameLayer {
    pub fn new(addr: usize) -> (r: Self)
        ensures
            r.addr == addr,
    {
        BaseGameLayer { addr }
    }

    pub fn is_null(&self) -> (r: bool)
        ensures
            r == (self.addr == 0),
    {
        self.addr == 0
    }
}

/// The game manager singleton.
#[derive(Clone, Copy, PartialEq, Eq, Structural, Debug)]
pub struct GameManager {
    pub addr: usize,
}

impl GameManager {
    pub fn new(addr: usize) -> (r: Self)
        ensures
            r.addr == addr,
    {
        GameManager { addr }
    }

    pub fn is_null(&self) -> (r: bool)
        ensures
            r == (self.addr == 0),
    {
        self.addr == 0
    }

    /// The level settings object lives at a fixed offset inside the
    /// game manager.
    pub fn level_settings(&self) -> (r: LevelSettings)
        requires
            self.addr + 0x880 <= usize::MAX,
        ensures
            r.addr == self.addr + 0x880,
    {
        LevelSettings { addr: self.addr + 0x880 }
    }
}

} // verus!
