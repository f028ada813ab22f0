//! The registers of the rule-evaluation machine.
//!
//! The constructors of this library use the first data register as the one
//! scratch register of a rule; an expression that needs another names it.

use vstd::prelude::*;
use crate::field::WireEnum;
use crate::sys::{NFT_REG_1, NFT_REG_2, NFT_REG_3, NFT_REG_4, NFT_REG_VERDICT};

verus! {

/// A register of the rule-evaluation machine. Expressions hand values to each other through these.
#[derive(Clone, Copy, Debug, PartialEq, Eq, Hash, Structural)]
pub enum Register {
    /// The register that holds the verdict on the packet.
    Verdict,
    /// The first data register.
    Reg1,
    /// The second data register.
    Reg2,
    /// The third data register.
    Reg3,
    /// The fourth data register.
    Reg4,
}

impl WireEnum for Register {
    open spec fn code(self) -> u32 {
        match self {
            Register::Verdict => NFT_REG_VERDICT,
            Register::Reg1 => NFT_REG_1,
            Register::Reg2 => NFT_REG_2,
            Register::Reg3 => NFT_REG_3,
            Register::Reg4 => NFT_REG_4,
        }
    }

    open spec fn of_code(c: u32) -> Option<Self> {
        if c == NFT_REG_VERDICT {
            Some(Register::Verdict)
        } else if c == NFT_REG_1 {
            Some(Register::Reg1)
        } else if c == NFT_REG_2 {
            Some(Register::Reg2)
        } else if c == NFT_REG_3 {
            Some(Register::Reg3)
        } else if c == NFT_REG_4 {
            Some(Register::Reg4)
        } else {
            None
        }
    }

    fn to_code(self) -> (c: u32) {
        match self {
            Register::Verdict => NFT_REG_VERDICT,
            Register::Reg1 => NFT_REG_1,
            Register::Reg2 => NFT_REG_2,
            Register::Reg3 => NFT_REG_3,
            Register::Reg4 => NFT_REG_4,
        }
    }

    fn from_code(c: u32) -> (r: Option<Self>) {
        if c == NFT_REG_VERDICT {
            Some(Register::Verdict)
        } else if c == NFT_REG_1 {
            Some(Register::Reg1)
        } else if c == NFT_REG_2 {
            Some(Register::Reg2)
        } else if c == NFT_REG_3 {
            Some(Register::Reg3)
        } else if c == NFT_REG_4 {
            Some(Register::Reg4)
        } else {
            None
        }
    }

    proof fn lemma_code(self) {
    }
}

} // verus!
