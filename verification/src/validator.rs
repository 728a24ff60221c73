//! Static validation of an action program.
//!
//! Every word is looked at once, in order, before anything is executed: its
//! opcode must be assigned, and what it may do to the program counter must
//! stay inside the array.

use vstd::prelude::*;
use crate::action::{Action, RtlFwOpCode, spec_decode, spec_opcode_bits};
use crate::container::RtlFwPhyAction;

verus! {

/// What is wrong with one action word.
#[derive(Clone, Copy, Debug, PartialEq, Eq, Structural)]
pub enum ActionFault {
    /// The opcode nibble is unassigned.
    InvalidOpcode,
    /// An operand leaves the range that the word's place in the array allows.
    OutOfRange,
}

/// The first word that validation refuses: its index, the raw word and the
/// reason.
#[derive(Clone, Copy, Debug, PartialEq, Eq, Structural)]
pub struct ValidationError {
    pub index: usize,
    pub action: u32,
    pub fault: ActionFault,
}

/// Whether a decoded action at `index` of an array of `size` words breaks the
/// range rule of its opcode.
///
/// A register-space change takes 0 or 1; a backward branch may not pass the
/// start of the array; a conditional single skip needs two words behind it; a
/// skip by `regno` words must land inside the array. The other operations
/// have no rule.
pub open spec fn spec_out_of_range(a: Action, index: int, size: int) -> bool {
    match a.opcode {
        RtlFwOpCode::PhyMdioChg => a.data > 1,
        RtlFwOpCode::PhyBjmpn => a.regno > index,
        RtlFwOpCode::PhyReadcountEqSkip => index + 2 >= size,
        RtlFwOpCode::PhyCompEqSkipn | RtlFwOpCode::PhyCompNeqSkipn | RtlFwOpCode::PhySkipn => index
            + 1 + a.regno >= size,
        _ => false,
    }
}

/// The fault of the word `action` at `index` of an array of `size` words, if
/// it has one.
pub open spec fn spec_action_fault(action: u32, index: int, size: int) -> Option<ActionFault> {
    match spec_decode(action) {
        None => Some(ActionFault::InvalidOpcode),
        Some(a) => if spec_out_of_range(a, index, size) {
            Some(ActionFault::OutOfRange)
        } else {
            None
        },
    }
}

/// Whether the word `action` may stand at `index` of an array of `size` words.
pub open spec fn spec_action_ok(action: u32, index: int, size: int) -> bool {
    spec_action_fault(action, index, size) is None
}

/// Whether every word of the program may stand where it stands.
pub open spec fn spec_data_ok(words: Seq<u32>) -> bool {
    forall|i: int| 0 <= i < words.len() ==> spec_action_ok(#[trigger] words[i], i, words.len() as int)
}

impl ValidationError {
    /// Whether this is the report on the first refused word of `words`.
    pub open spec fn spec_first_in(self, words: Seq<u32>) -> bool {
        &&& self.index < words.len()
        &&& self.action == words[self.index as int]
        &&& spec_action_fault(self.action, self.index as int, words.len() as int) == Some(
            self.fault,
        )
        &&& forall|j: int|
            0 <= j < self.index ==> spec_action_ok(#[trigger] words[j], j, words.len() as int)
    }
}

/// Checks one action word against its place in the array.
pub fn check_action(action: u32, index: usize, size: usize) -> (fault: Option<ActionFault>)
    requires
        index < size,
    ensures
        fault == spec_action_fault(action, index as int, size as int),
{
    let a = match Action::decode(action) {
        Some(a) => a,
        None => {
            return Some(ActionFault::InvalidOpcode);
        },
    };
    let regno: usize = a.regno as usize;
    let behind: usize = size - index - 1;
    let out_of_range = match a.opcode {
        RtlFwOpCode::PhyRead
        | RtlFwOpCode::PhyDataOr
        | RtlFwOpCode::PhyDataAnd
        | RtlFwOpCode::PhyClearReadCount
        | RtlFwOpCode::PhyWrite
        | RtlFwOpCode::PhyWritePrevious
        | RtlFwOpCode::PhyDelayMs => false,
        RtlFwOpCode::PhyMdioChg => a.data > 1,
        RtlFwOpCode::PhyBjmpn => regno > index,
        RtlFwOpCode::PhyReadcountEqSkip => behind <= 1,
        RtlFwOpCode::PhyCompEqSkipn | RtlFwOpCode::PhyCompNeqSkipn | RtlFwOpCode::PhySkipn => regno
            >= behind,
    };
    if out_of_range {
        Some(ActionFault::OutOfRange)
    } else {
        None
    }
}

/// Walks the action array once and reports the first word that is refused.
///
/// The result is `Ok` exactly for a program in which every word passes; an
/// error names the least index whose word fails, that word, and its fault.
pub fn rtl_fw_data_ok(data: &[u8], pa: &RtlFwPhyAction) -> (r: Result<(), ValidationError>)
    requires
        pa.spec_fits(data@.len()),
    ensures
        r is Ok <==> spec_data_ok(pa.spec_words(data@)),
        r is Err ==> r.unwrap_err().spec_first_in(pa.spec_words(data@)),
{
    let ghost words = pa.spec_words(data@);
    let mut index: usize = 0;
    while index < pa.size
        invariant
            index <= pa.size,
            pa.spec_fits(data@.len()),
            words == pa.spec_words(data@),
            forall|j: int| 0 <= j < index ==> spec_action_ok(#[trigger] words[j], j, words.len() as int),
        decreases pa.size - index,
    {
        let action: u32 = pa.action_at(data, index);
        match check_action(action, index, pa.size) {
            Some(fault) => {
                return Err(ValidationError { index: index, action: action, fault: fault });
            },
            None => {},
        }
        index += 1;
    }
    Ok(())
}

/// A program that holds a word with opcode nibble 0x5 or 0x6 fails
/// validation, whatever the other 28 bits of the word are and wherever it
/// stands.
pub proof fn lemma_unassigned_opcode_refused(words: Seq<u32>, index: int)
    requires
        0 <= index < words.len(),
        spec_opcode_bits(words[index]) == 0x5 || spec_opcode_bits(words[index]) == 0x6,
    ensures
        spec_action_fault(words[index], index, words.len() as int) == Some(
            ActionFault::InvalidOpcode,
        ),
        !spec_data_ok(words),
{
}

/// The report on the first refused word of a program is unique.
pub proof fn lemma_first_fault_unique(words: Seq<u32>, e1: ValidationError, e2: ValidationError)
    requires
        e1.spec_first_in(words),
        e2.spec_first_in(words),
    ensures
        e1 == e2,
{
    if e1.index < e2.index {
        assert(spec_action_ok(words[e1.index as int], e1.index as int, words.len() as int));
    } else if e2.index < e1.index {
        assert(spec_action_ok(words[e2.index as int], e2.index as int, words.len() as int));
    }
}

/// Validation is a function of the program: two results that both meet the
/// contract of [`rtl_fw_data_ok`] for the same program are the same verdict,
/// down to the reported word.
pub proof fn lemma_verdict_unique(
    words: Seq<u32>,
    r1: Result<(), ValidationError>,
    r2: Result<(), ValidationError>,
)
    requires
        r1 is Ok <==> spec_data_ok(words),
        r1 is Err ==> r1.unwrap_err().spec_first_in(words),
        r2 is Ok <==> spec_data_ok(words),
        r2 is Err ==> r2.unwrap_err().spec_first_in(words),
    ensures
        r1 == r2,
{
    match (r1, r2) {
        (Err(e1), Err(e2)) => {
            lemma_first_fault_unique(words, e1, e2);
        },
        (Ok(u1), Ok(u2)) => {
            assert(u1 == u2);
        },
        _ => {},
    }
}

} // verus!
