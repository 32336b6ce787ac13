use vstd::prelude::*;

verus! {

/// The fatal conditions of the emulator core.
#[derive(Clone, Copy, Debug, PartialEq, Eq, Structural)]
pub enum EmuError {
    /// A cartridge access outside the regions that its controller maps.
    InvalidAddress,
    /// An opcode that this core does not decode.
    UndecodedOpcode,
    /// A ROM image shorter than its header, or than the size it claims.
    BadHeader,
    /// A debug guard on the number of ticks or NOPs was exceeded.
    DebugBudgetExceeded,
}

impl EmuError {
    /// A short description of the failure.
    pub fn describe(&self) -> (r: &'static str) {
        match self {
            EmuError::InvalidAddress => "invalid cartridge address",
            EmuError::UndecodedOpcode => "undecoded opcode",
            EmuError::BadHeader => "bad cartridge header",
            EmuError::DebugBudgetExceeded => "debug budget exceeded",
        }
    }
}

} // verus!
