//! Which of the three shader programs is in use.

use vstd::prelude::*;

verus! {

/// The three shader programs the renderer can draw with.
#[derive(Clone, Copy, Debug, PartialEq, Eq, Structural)]
pub enum ShaderType {
    Simple,
    Full,
    Debug,
}

impl ShaderType {
    /// The program that follows this one when the user switches: simple,
    /// full, debug, and round again.
    pub open spec fn next(self) -> ShaderType {
        match self {
            ShaderType::Simple => ShaderType::Full,
            ShaderType::Full => ShaderType::Debug,
            ShaderType::Debug => ShaderType::Simple,
        }
    }
}

/// The handles of the three linked programs, and the one in use.
pub struct ShaderManager {
    pub simple: u32,
    pub full: u32,
    pub debug: u32,
    pub current: ShaderType,
}

impl ShaderManager {
    /// The handle that belongs to the program in use.
    pub open spec fn selected(&self) -> u32 {
        match self.current {
            ShaderType::Simple => self.simple,
            ShaderType::Full => self.full,
            ShaderType::Debug => self.debug,
        }
    }

    /// A manager over three linked programs, starting with the simple one.
    pub fn new(simple: u32, full: u32, debug: u32) -> (manager: ShaderManager)
        ensures
            manager.simple == simple,
            manager.full == full,
            manager.debug == debug,
            manager.current == ShaderType::Simple,
    {
        ShaderManager { simple, full, debug, current: ShaderType::Simple }
    }

    /// Moves on to the next program. The handles stay.
    pub fn switch(&mut self)
        ensures
            final(self).current == old(self).current.next(),
            final(self).simple == old(self).simple,
            final(self).full == old(self).full,
            final(self).debug == old(self).debug,
    {
        self.current = match self.current {
            ShaderType::Simple => ShaderType::Full,
            ShaderType::Full => ShaderType::Debug,
            ShaderType::Debug => ShaderType::Simple,
        };
    }

    /// The handle of the program in use.
    pub fn current_id(&self) -> (id: u32)
        ensures
            id == self.selected(),
    {
        match self.current {
            ShaderType::Simple => self.simple,
            ShaderType::Full => self.full,
            ShaderType::Debug => self.debug,
        }
    }
}

} // verus!
