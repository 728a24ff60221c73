//! Action words: the 32-bit instructions of a firmware program.
//!
//! Bits 31..28 select the operation, bits 27..16 hold a register number or a
//! relative offset, bits 15..0 hold an immediate operand.

use vstd::prelude::*;

verus! {

/// The closed set of operations a firmware program may use.
#[derive(Clone, Copy, Debug, PartialEq, Eq, Structural)]
pub enum RtlFwOpCode {
    PhyRead,
    PhyDataOr,
    PhyDataAnd,
    PhyBjmpn,
    PhyMdioChg,
    PhyClearReadCount,
    PhyWrite,
    PhyReadcountEqSkip,
    PhyCompEqSkipn,
    PhyCompNeqSkipn,
    PhyWritePrevious,
    PhySkipn,
    PhyDelayMs,
}

/// The operation that a nibble value selects, if any. The values 0x5 and 0x6
/// are unassigned, as is everything above 0xe.
pub open spec fn spec_from_u32(n: u32) -> Option<RtlFwOpCode> {
    if n == 0x0 {
        Some(RtlFwOpCode::PhyRead)
    } else if n == 0x1 {
        Some(RtlFwOpCode::PhyDataOr)
    } else if n == 0x2 {
        Some(RtlFwOpCode::PhyDataAnd)
    } else if n == 0x3 {
        Some(RtlFwOpCode::PhyBjmpn)
    } else if n == 0x4 {
        Some(RtlFwOpCode::PhyMdioChg)
    } else if n == 0x7 {
        Some(RtlFwOpCode::PhyClearReadCount)
    } else if n == 0x8 {
        Some(RtlFwOpCode::PhyWrite)
    } else if n == 0x9 {
        Some(RtlFwOpCode::PhyReadcountEqSkip)
    } else if n == 0xa {
        Some(RtlFwOpCode::PhyCompEqSkipn)
    } else if n == 0xb {
        Some(RtlFwOpCode::PhyCompNeqSkipn)
    } else if n == 0xc {
        Some(RtlFwOpCode::PhyWritePrevious)
    } else if n == 0xd {
        Some(RtlFwOpCode::PhySkipn)
    } else if n == 0xe {
        Some(RtlFwOpCode::PhyDelayMs)
    } else {
        None
    }
}

impl RtlFwOpCode {
    /// The nibble value that encodes this operation.
    pub open spec fn spec_code(self) -> u32 {
        match self {
            RtlFwOpCode::PhyRead => 0x0,
            RtlFwOpCode::PhyDataOr => 0x1,
            RtlFwOpCode::PhyDataAnd => 0x2,
            RtlFwOpCode::PhyBjmpn => 0x3,
            RtlFwOpCode::PhyMdioChg => 0x4,
            RtlFwOpCode::PhyClearReadCount => 0x7,
            RtlFwOpCode::PhyWrite => 0x8,
            RtlFwOpCode::PhyReadcountEqSkip => 0x9,
            RtlFwOpCode::PhyCompEqSkipn => 0xa,
            RtlFwOpCode::PhyCompNeqSkipn => 0xb,
            RtlFwOpCode::PhyWritePrevious => 0xc,
            RtlFwOpCode::PhySkipn => 0xd,
            RtlFwOpCode::PhyDelayMs => 0xe,
        }
    }

    /// Whether the operation moves the program counter forward by its
    /// register field when it triggers.
    pub open spec fn is_skipn(self) -> bool {
        self == RtlFwOpCode::PhyCompEqSkipn || self == RtlFwOpCode::PhyCompNeqSkipn || self
            == RtlFwOpCode::PhySkipn
    }

    /// Decodes a nibble value through the closed enumeration.
    pub fn from_u32(n: u32) -> (op: Option<RtlFwOpCode>)
        ensures
            op == spec_from_u32(n),
    {
        match n {
            0x0 => Some(RtlFwOpCode::PhyRead),
            0x1 => Some(RtlFwOpCode::PhyDataOr),
            0x2 => Some(RtlFwOpCode::PhyDataAnd),
            0x3 => Some(RtlFwOpCode::PhyBjmpn),
            0x4 => Some(RtlFwOpCode::PhyMdioChg),
            0x7 => Some(RtlFwOpCode::PhyClearReadCount),
            0x8 => Some(RtlFwOpCode::PhyWrite),
            0x9 => Some(RtlFwOpCode::PhyReadcountEqSkip),
            0xa => Some(RtlFwOpCode::PhyCompEqSkipn),
            0xb => Some(RtlFwOpCode::PhyCompNeqSkipn),
            0xc => Some(RtlFwOpCode::PhyWritePrevious),
            0xd => Some(RtlFwOpCode::PhySkipn),
            0xe => Some(RtlFwOpCode::PhyDelayMs),
            _ => None,
        }
    }

    /// The nibble value that encodes this operation.
    pub fn code(self) -> (n: u32)
        ensures
            n == self.spec_code(),
            n <= 0xe,
            spec_from_u32(n) == Some(self),
    {
        match self {
            RtlFwOpCode::PhyRead => 0x0,
            RtlFwOpCode::PhyDataOr => 0x1,
            RtlFwOpCode::PhyDataAnd => 0x2,
            RtlFwOpCode::PhyBjmpn => 0x3,
            RtlFwOpCode::PhyMdioChg => 0x4,
            RtlFwOpCode::PhyClearReadCount => 0x7,
            RtlFwOpCode::PhyWrite => 0x8,
            RtlFwOpCode::PhyReadcountEqSkip => 0x9,
            RtlFwOpCode::PhyCompEqSkipn => 0xa,
            RtlFwOpCode::PhyCompNeqSkipn => 0xb,
            RtlFwOpCode::PhyWritePrevious => 0xc,
            RtlFwOpCode::PhySkipn => 0xd,
            RtlFwOpCode::PhyDelayMs => 0xe,
        }
    }
}

/// The opcode nibble of an action word: its top four bits.
pub open spec fn spec_opcode_bits(action: u32) -> u32 {
    action / 0x1000_0000
}

/// The register field of an action word: bits 27..16.
pub open spec fn spec_regno(action: u32) -> u16 {
    ((action / 0x1_0000) % 0x1000) as u16
}

/// The immediate field of an action word: bits 15..0.
pub open spec fn spec_data(action: u32) -> u16 {
    (action % 0x1_0000) as u16
}

/// The operation of an action word, if its nibble is assigned.
pub open spec fn spec_opcode(action: u32) -> Option<RtlFwOpCode> {
    spec_from_u32(spec_opcode_bits(action))
}

/// The word that carries the given fields.
pub open spec fn spec_encode(op: RtlFwOpCode, regno: u16, data: u16) -> u32
    recommends
        regno < 0x1000,
{
    (op.spec_code() * 0x1000_0000 + regno * 0x1_0000 + data) as u32
}

/// An action word split into its three fields, the opcode already decoded.
#[derive(Clone, Copy, Debug, PartialEq, Eq, Structural)]
pub struct Action {
    pub opcode: RtlFwOpCode,
    pub regno: u16,
    pub data: u16,
}

/// The fields of an action word, or `None` where the opcode nibble is
/// unassigned.
pub open spec fn spec_decode(action: u32) -> Option<Action> {
    match spec_opcode(action) {
        Some(op) => Some(Action { opcode: op, regno: spec_regno(action), data: spec_data(action) }),
        None => None,
    }
}

/// The opcode nibble of an action word.
pub fn opcode_bits(action: u32) -> (n: u32)
    ensures
        n == spec_opcode_bits(action),
        n <= 0xf,
{
    let n: u32 = action >> 28;
    assert(action >> 28 == action / 0x1000_0000 && (action >> 28) <= 0xf) by (bit_vector);
    n
}

/// The register field of an action word.
pub fn regno(action: u32) -> (r: u16)
    ensures
        r == spec_regno(action),
        r < 0x1000,
{
    let r: u32 = (action & 0x0fff_0000) >> 16;
    assert((action & 0x0fff_0000) >> 16 == (action / 0x1_0000) % 0x1000 && ((action & 0x0fff_0000)
        >> 16) < 0x1000) by (bit_vector);
    r as u16
}

/// The immediate field of an action word.
pub fn data(action: u32) -> (d: u16)
    ensures
        d == spec_data(action),
{
    let d: u32 = action & 0x0000_ffff;
    assert(action & 0x0000_ffff == action % 0x1_0000 && (action & 0x0000_ffff) < 0x1_0000)
        by (bit_vector);
    d as u16
}

impl Action {
    /// Splits an action word into its fields.
    pub fn decode(action: u32) -> (a: Option<Action>)
        ensures
            a == spec_decode(action),
            a is Some ==> a.unwrap().regno < 0x1000,
    {
        match RtlFwOpCode::from_u32(opcode_bits(action)) {
            Some(op) => Some(Action { opcode: op, regno: regno(action), data: data(action) }),
            None => None,
        }
    }

    /// Packs the fields back into an action word.
    pub fn encode(self) -> (action: u32)
        requires
            self.regno < 0x1000,
        ensures
            action == spec_encode(self.opcode, self.regno, self.data),
            spec_decode(action) == Some(self),
    {
        let n: u32 = self.opcode.code();
        let r: u32 = self.regno as u32;
        let d: u32 = self.data as u32;
        let action: u32 = n * 0x1000_0000 + r * 0x1_0000 + d;
        action
    }
}

} // verus!
