//! Burn detection: a structural, short-circuiting search over a decoded
//! transaction's instruction tree. The top-level instruction list is scanned
//! first, then the inner-instruction groups in group order and, within a
//! group, in instruction order; the first instruction that targets the token
//! program and whose parsed operation tag is `burn` (case-insensitively)
//! yields the event. A transaction holding several burns yields only the
//! first structural match.

use vstd::prelude::*;
use crate::model::{BurnEvent, InnerGroup, InstructionNode, Transaction};
use crate::strings::{eq_ignore_ascii_case, eq_ignore_case, str_eq};

verus! {

/// Whether one instruction is a burn: it targets the token program and its
/// parsed operation tag equals `burn` up to ASCII letter case.
pub open spec fn spec_is_burn(i: InstructionNode) -> bool {
    &&& i.program@ == "spl-token"@
    &&& match i.parsed {
        Some(p) => eq_ignore_case(p.op_type@, "burn"@),
        None => false,
    }
}

/// The first burn instruction of `s`, in order, or `None`.
pub open spec fn first_burn(s: Seq<InstructionNode>) -> Option<InstructionNode>
    decreases s.len(),
{
    if s.len() == 0 {
        None
    } else if spec_is_burn(s[0]) {
        Some(s[0])
    } else {
        first_burn(s.drop_first())
    }
}

/// The first burn instruction across the inner-instruction groups `gs`,
/// taken in group order and, within a group, in instruction order.
pub open spec fn first_burn_groups(gs: Seq<InnerGroup>) -> Option<InstructionNode>
    decreases gs.len(),
{
    if gs.len() == 0 {
        None
    } else {
        match first_burn(gs[0].instructions@) {
            Some(i) => Some(i),
            None => first_burn_groups(gs.drop_first()),
        }
    }
}

/// The instruction a detection run reports for transaction `tx`: none for an
/// unavailable (null) transaction; otherwise the first top-level burn, and
/// only when the top-level scan finds nothing, the first burn among the
/// inner-instruction groups.
pub open spec fn spec_found(tx: Option<Transaction>) -> Option<InstructionNode> {
    match tx {
        None => None,
        Some(t) => match first_burn(t.instructions@) {
            Some(i) => Some(i),
            None => first_burn_groups(t.inner_groups@),
        },
    }
}

/// The string a burn event reports for an info field: the field itself, or
/// the placeholder `?` when the decoded instruction did not carry it.
pub open spec fn placeholder_or(f: Option<String>) -> Seq<char> {
    match f {
        Some(s) => s@,
        None => "?"@,
    }
}

/// Whether event `e` is the extraction of burn instruction `i` from the
/// transaction with signature `sig`.
pub open spec fn event_matches(e: BurnEvent, sig: Seq<char>, i: InstructionNode) -> bool {
    &&& e.signature@ == sig
    &&& e.mint@ == placeholder_or(i.parsed->Some_0.info.mint)
    &&& e.source@ == placeholder_or(i.parsed->Some_0.info.source)
    &&& e.amount@ == placeholder_or(i.parsed->Some_0.info.amount)
}

/// A scan of `s` that found no burn before index `i` pins `first_burn`:
/// the burn at `i` when one stands there, none when the scan ran out.
proof fn lemma_first_burn_scan(s: Seq<InstructionNode>, i: int)
    requires
        0 <= i <= s.len(),
        forall|k: int| 0 <= k < i ==> !spec_is_burn(s[k]),
        i < s.len() ==> spec_is_burn(s[i]),
    ensures
        first_burn(s) == if i < s.len() {
            Some(s[i])
        } else {
            None::<InstructionNode>
        },
    decreases s.len(),
{
    if s.len() != 0 && !spec_is_burn(s[0]) {
        let tail = s.drop_first();
        assert(forall|k: int| 0 <= k < i - 1 ==> tail[k] == s[k + 1]);
        lemma_first_burn_scan(tail, i - 1);
    }
}

/// A scan of the groups `gs` that found no burn in any group before index `g`
/// pins `first_burn_groups`: the first burn of group `g` when that group
/// holds one, none when the scan ran out.
proof fn lemma_first_burn_groups_scan(gs: Seq<InnerGroup>, g: int)
    requires
        0 <= g <= gs.len(),
        forall|k: int| 0 <= k < g ==> first_burn(gs[k].instructions@) is None,
        g < gs.len() ==> first_burn(gs[g].instructions@) is Some,
    ensures
        first_burn_groups(gs) == if g < gs.len() {
            first_burn(gs[g].instructions@)
        } else {
            None::<InstructionNode>
        },
    decreases gs.len(),
{
    if gs.len() != 0 && first_burn(gs[0].instructions@) is None {
        let tail = gs.drop_first();
        assert(forall|k: int| 0 <= k < g - 1 ==> tail[k] == gs[k + 1]);
        lemma_first_burn_groups_scan(tail, g - 1);
    }
}

/// Whether `instr` is a burn instruction.
pub fn is_burn_instr(instr: &InstructionNode) -> (r: bool)
    ensures
        r == spec_is_burn(*instr),
{
    if !str_eq(instr.program.as_str(), "spl-token") {
        return false;
    }
    match &instr.parsed {
        Some(p) => eq_ignore_ascii_case(p.op_type.as_str(), "burn"),
        None => false,
    }
}

/// The info field itself, or the placeholder `?` when it is absent.
fn field_or_placeholder(f: &Option<String>) -> (r: String)
    ensures
        r@ == placeholder_or(*f),
{
    match f {
        Some(s) => s.clone(),
        None => "?".to_owned(),
    }
}

/// The burn event extracted from burn instruction `instr` of the transaction
/// with signature `signature`.
fn make_event(signature: &str, instr: &InstructionNode) -> (r: BurnEvent)
    requires
        spec_is_burn(*instr),
    ensures
        event_matches(r, signature@, *instr),
{
    match &instr.parsed {
        Some(p) => BurnEvent {
            signature: signature.to_owned(),
            mint: field_or_placeholder(&p.info.mint),
            source: field_or_placeholder(&p.info.source),
            amount: field_or_placeholder(&p.info.amount),
        },
        None => vstd::pervasive::unreached(),
    }
}

/// Detect a burn in transaction `tx` with signature `signature`.
///
/// Returns `None` for an unavailable (null) transaction, and otherwise the
/// event extracted from the first structural match: the top-level instruction
/// list is scanned first, then the inner-instruction groups in group order
/// and in-group order. A detection failure cannot arise: an instruction with
/// missing info fields yields an event with placeholder fields.
pub fn detect(tx: &Option<Transaction>, signature: &str) -> (r: Option<BurnEvent>)
    ensures
        (r is Some) == (spec_found(*tx) is Some),
        r is Some ==> event_matches(r->Some_0, signature@, spec_found(*tx)->Some_0),
{
    let t = match tx.as_ref() {
        Some(t) => t,
        None => {
            return None;
        },
    };
    let ghost top = t.instructions@;
    let mut i: usize = 0;
    while i < t.instructions.len()
        invariant
            0 <= i <= top.len(),
            *tx is Some,
            (*tx)->Some_0 == *t,
            top == t.instructions@,
            forall|k: int| 0 <= k < i ==> !spec_is_burn(top[k]),
        decreases top.len() - i,
    {
        let instr = &t.instructions[i];
        if is_burn_instr(instr) {
            proof {
                lemma_first_burn_scan(top, i as int);
            }
            return Some(make_event(signature, instr));
        }
        i = i + 1;
    }
    proof {
        lemma_first_burn_scan(top, top.len() as int);
    }
    let ghost groups = t.inner_groups@;
    let mut g: usize = 0;
    while g < t.inner_groups.len()
        invariant
            0 <= g <= groups.len(),
            *tx is Some,
            (*tx)->Some_0 == *t,
            top == t.instructions@,
            groups == t.inner_groups@,
            first_burn(top) is None,
            forall|k: int| 0 <= k < g ==> first_burn(groups[k].instructions@) is None,
        decreases groups.len() - g,
    {
        let grp = &t.inner_groups[g];
        let ghost ginstrs = grp.instructions@;
        let mut j: usize = 0;
        while j < grp.instructions.len()
            invariant
                0 <= j <= ginstrs.len(),
                *tx is Some,
                (*tx)->Some_0 == *t,
                top == t.instructions@,
                ginstrs == grp.instructions@,
                grp == t.inner_groups@[g as int],
                0 <= g < groups.len(),
                groups == t.inner_groups@,
                first_burn(top) is None,
                forall|k: int| 0 <= k < g ==> first_burn(groups[k].instructions@) is None,
                forall|k: int| 0 <= k < j ==> !spec_is_burn(ginstrs[k]),
            decreases ginstrs.len() - j,
        {
            let instr = &grp.instructions[j];
            if is_burn_instr(instr) {
                proof {
                    lemma_first_burn_scan(ginstrs, j as int);
                    lemma_first_burn_groups_scan(groups, g as int);
                }
                return Some(make_event(signature, instr));
            }
            j = j + 1;
        }
        proof {
            lemma_first_burn_scan(ginstrs, ginstrs.len() as int);
        }
        g = g + 1;
    }
    proof {
        lemma_first_burn_groups_scan(groups, groups.len() as int);
    }
    None
}

} // verus!
