//! The typed shape of a decoded transaction, as far as burn detection reads
//! it: the top-level instruction list and the inner-instruction groups, each
//! instruction with its program identifier and optional parsed sub-record.
//! Fields that the upstream data may omit are options; extraction substitutes
//! a placeholder for an absent field rather than failing.

use vstd::prelude::*;

verus! {

/// The fields of a parsed instruction's `info` record that a burn event
/// reports. An absent or non-string field is `None`.
#[derive(Clone, Debug)]
pub struct ParsedInfo {
    pub amount: Option<String>,
    pub source: Option<String>,
    pub mint: Option<String>,
}

/// The parsed sub-record of an instruction: its operation-type tag and its
/// `info` fields. An instruction whose decoded form carries no parsed record,
/// or a parsed record without a string operation tag, has no `ParsedInstr`.
#[derive(Clone, Debug)]
pub struct ParsedInstr {
    pub op_type: String,
    pub info: ParsedInfo,
}

/// One instruction of the transaction: the program it targets and, when the
/// upstream decoder could parse it, the parsed sub-record.
#[derive(Clone, Debug)]
pub struct InstructionNode {
    pub program: String,
    pub parsed: Option<ParsedInstr>,
}

/// One inner-instruction group: instructions executed as side effects of a
/// top-level instruction, searched in group order independently of which
/// top-level instruction spawned them.
#[derive(Clone, Debug)]
pub struct InnerGroup {
    pub instructions: Vec<InstructionNode>,
}

/// A decoded transaction, reduced to what burn detection reads: the top-level
/// instruction list and the inner-instruction groups. An absent list decodes
/// as empty.
#[derive(Clone, Debug)]
pub struct Transaction {
    pub instructions: Vec<InstructionNode>,
    pub inner_groups: Vec<InnerGroup>,
}

/// A detected burn: the transaction's signature and the instruction's mint,
/// source account and amount, each replaced by the placeholder `?` when the
/// instruction's info record did not carry it as a string. The amount stays
/// an opaque decimal string.
#[derive(Clone, Debug)]
pub struct BurnEvent {
    pub signature: String,
    pub mint: String,
    pub source: String,
    pub amount: String,
}

} // verus!
