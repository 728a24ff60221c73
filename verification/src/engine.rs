//! The execution engine's instruction semantics.
//!
//! The engine is a machine without a stack: a program counter, an
//! accumulator, a read counter and the register space that reads and writes
//! currently go to. Running a program alternates two things: an access to the
//! device (a register read, a register write, a delay), which the caller
//! performs, and the change of the machine's state, which is decided here.

use vstd::prelude::*;
use crate::action::{Action, RtlFwOpCode, spec_decode};
use crate::validator::{spec_action_ok, spec_data_ok, spec_out_of_range};

verus! {

/// The two register spaces a program can address.
#[derive(Clone, Copy, Debug, PartialEq, Eq, Structural)]
pub enum RtlFwTarget {
    /// The PHY management interface.
    Phy,
    /// The MAC microcontroller.
    MacMcu,
}

/// The state of one execution run.
#[derive(Clone, Copy, Debug, PartialEq, Eq, Structural)]
pub struct RtlFwState {
    /// Index of the action that runs next.
    pub index: usize,
    /// The accumulator: the value last read, as masked since.
    pub predata: i32,
    /// Number of register reads since the counter was last cleared.
    pub count: i32,
    /// The register space that reads and writes go to.
    pub target: RtlFwTarget,
}

/// What an action asks of the device.
#[derive(Clone, Copy, Debug, PartialEq, Eq, Structural)]
pub enum RtlFwAccess {
    /// Nothing: the action only changes the machine's state.
    Idle,
    /// Read the register `regno` of `target`.
    Read { target: RtlFwTarget, regno: u16 },
    /// Write `value` to the register `regno` of `target`.
    Write { target: RtlFwTarget, regno: u16, value: i32 },
    /// Sleep for `ms` milliseconds.
    DelayMs { ms: u16 },
}

/// The state in which every run starts.
pub open spec fn spec_initial() -> RtlFwState {
    RtlFwState { index: 0, predata: 0, count: 0, target: RtlFwTarget::Phy }
}

/// What the action asks of the device in the given state.
pub open spec fn spec_access(a: Action, st: RtlFwState) -> RtlFwAccess {
    match a.opcode {
        RtlFwOpCode::PhyRead => RtlFwAccess::Read { target: st.target, regno: a.regno },
        RtlFwOpCode::PhyWrite => RtlFwAccess::Write {
            target: st.target,
            regno: a.regno,
            value: a.data as i32,
        },
        RtlFwOpCode::PhyWritePrevious => RtlFwAccess::Write {
            target: st.target,
            regno: a.regno,
            value: st.predata,
        },
        RtlFwOpCode::PhyDelayMs => RtlFwAccess::DelayMs { ms: a.data },
        _ => RtlFwAccess::Idle,
    }
}

/// Index of the action that runs after `a`: the next one, moved back by a
/// branch or forward by a skip that triggers.
pub open spec fn spec_next_index(a: Action, st: RtlFwState) -> int {
    match a.opcode {
        RtlFwOpCode::PhyBjmpn => st.index - a.regno,
        RtlFwOpCode::PhyReadcountEqSkip => if st.count == a.data as i32 {
            st.index + 2
        } else {
            st.index + 1
        },
        RtlFwOpCode::PhyCompEqSkipn => if st.predata == a.data as i32 {
            st.index + 1 + a.regno
        } else {
            st.index + 1
        },
        RtlFwOpCode::PhyCompNeqSkipn => if st.predata != a.data as i32 {
            st.index + 1 + a.regno
        } else {
            st.index + 1
        },
        RtlFwOpCode::PhySkipn => st.index + 1 + a.regno,
        _ => st.index + 1,
    }
}

/// The accumulator after `a`, where `read` is what the device returned for
/// the action's register read.
pub open spec fn spec_next_predata(a: Action, st: RtlFwState, read: i32) -> i32 {
    match a.opcode {
        RtlFwOpCode::PhyRead => read,
        RtlFwOpCode::PhyDataOr => st.predata | (a.data as i32),
        RtlFwOpCode::PhyDataAnd => st.predata & (a.data as i32),
        _ => st.predata,
    }
}

/// The read counter after `a`. It wraps round behind the largest value.
pub open spec fn spec_next_count(a: Action, st: RtlFwState) -> i32 {
    match a.opcode {
        RtlFwOpCode::PhyRead => if st.count == i32::MAX {
            i32::MIN
        } else {
            (st.count + 1) as i32
        },
        RtlFwOpCode::PhyClearReadCount => 0,
        _ => st.count,
    }
}

/// The active register space after `a`.
pub open spec fn spec_next_target(a: Action, st: RtlFwState) -> RtlFwTarget {
    match a.opcode {
        RtlFwOpCode::PhyMdioChg => if a.data != 0 {
            RtlFwTarget::MacMcu
        } else {
            RtlFwTarget::Phy
        },
        _ => st.target,
    }
}

/// The state after `a` has run in state `st` and the device has returned
/// `read` for its register read. Actions that read nothing ignore `read`.
pub open spec fn spec_advance(a: Action, st: RtlFwState, read: i32) -> RtlFwState {
    RtlFwState {
        index: spec_next_index(a, st) as usize,
        predata: spec_next_predata(a, st, read),
        count: spec_next_count(a, st),
        target: spec_next_target(a, st),
    }
}

impl RtlFwState {
    /// The state in which every run starts: first action, cleared
    /// accumulator and read counter, PHY register space.
    pub fn new() -> (st: RtlFwState)
        ensures
            st == spec_initial(),
    {
        RtlFwState { index: 0, predata: 0, count: 0, target: RtlFwTarget::Phy }
    }
}

/// What the action asks of the device in the given state.
pub fn access(a: Action, st: &RtlFwState) -> (acc: RtlFwAccess)
    ensures
        acc == spec_access(a, *st),
{
    match a.opcode {
        RtlFwOpCode::PhyRead => RtlFwAccess::Read { target: st.target, regno: a.regno },
        RtlFwOpCode::PhyWrite => RtlFwAccess::Write {
            target: st.target,
            regno: a.regno,
            value: a.data as i32,
        },
        RtlFwOpCode::PhyWritePrevious => RtlFwAccess::Write {
            target: st.target,
            regno: a.regno,
            value: st.predata,
        },
        RtlFwOpCode::PhyDelayMs => RtlFwAccess::DelayMs { ms: a.data },
        _ => RtlFwAccess::Idle,
    }
}

/// Runs one action on the machine's state.
///
/// `size` is the number of actions of the program and `read` the value that
/// the device returned for the action's access, where that was a register
/// read. The action must have passed validation at the index it runs at; the
/// new program counter then lies inside the array or directly behind it.
pub fn advance(a: Action, st: &mut RtlFwState, size: usize, read: i32)
    requires
        old(st).index < size,
        !spec_out_of_range(a, old(st).index as int, size as int),
    ensures
        *final(st) == spec_advance(a, *old(st), read),
        final(st).index == spec_next_index(a, *old(st)),
        final(st).index <= size,
{
    let data: i32 = a.data as i32;
    let regno: usize = a.regno as usize;
    match a.opcode {
        RtlFwOpCode::PhyRead => {
            st.predata = read;
            st.count = st.count.wrapping_add(1);
        },
        RtlFwOpCode::PhyDataOr => {
            st.predata = st.predata | data;
        },
        RtlFwOpCode::PhyDataAnd => {
            st.predata = st.predata & data;
        },
        RtlFwOpCode::PhyBjmpn => {
            st.index = st.index - regno;
            return ;
        },
        RtlFwOpCode::PhyMdioChg => {
            if a.data != 0 {
                st.target = RtlFwTarget::MacMcu;
            } else {
                st.target = RtlFwTarget::Phy;
            }
        },
        RtlFwOpCode::PhyClearReadCount => {
            st.count = 0;
        },
        RtlFwOpCode::PhyWrite => {},
        RtlFwOpCode::PhyReadcountEqSkip => {
            if st.count == data {
                st.index = st.index + 1;
            }
        },
        RtlFwOpCode::PhyCompEqSkipn => {
            if st.predata == data {
                st.index = st.index + regno;
            }
        },
        RtlFwOpCode::PhyCompNeqSkipn => {
            if st.predata != data {
                st.index = st.index + regno;
            }
        },
        RtlFwOpCode::PhyWritePrevious => {},
        RtlFwOpCode::PhySkipn => {
            st.index = st.index + regno;
        },
        RtlFwOpCode::PhyDelayMs => {},
    }
    st.index = st.index + 1;
}

/// In a program that has passed validation no action moves the program
/// counter out of the array: a backward branch never lands before the first
/// action, a skip of either kind lands on an action, and every other action
/// lands on an action or directly behind the last one.
pub proof fn lemma_targets_stay_inside(words: Seq<u32>, st: RtlFwState)
    requires
        spec_data_ok(words),
        st.index < words.len(),
    ensures
        spec_decode(words[st.index as int]) is Some,
        ({
            let a = spec_decode(words[st.index as int]).unwrap();
            &&& 0 <= spec_next_index(a, st) <= words.len()
            &&& a.opcode == RtlFwOpCode::PhyBjmpn ==> 0 <= spec_next_index(a, st) <= st.index
            &&& a.opcode == RtlFwOpCode::PhyReadcountEqSkip || a.opcode.is_skipn()
                ==> st.index < spec_next_index(a, st) < words.len()
        }),
{
    assert(spec_action_ok(words[st.index as int], st.index as int, words.len() as int));
}

} // verus!
