use burnwatch::detector::detect;
use burnwatch::model::{InnerGroup, InstructionNode, ParsedInfo, ParsedInstr, Transaction};
use burnwatch::strings::{eq_ignore_ascii_case, str_eq};

fn instr(program: &str, op_type: Option<&str>, info: [Option<&str>; 3]) -> InstructionNode {
    InstructionNode {
        program: program.to_string(),
        parsed: op_type.map(|t| ParsedInstr {
            op_type: t.to_string(),
            info: ParsedInfo {
                amount: info[0].map(|s| s.to_string()),
                source: info[1].map(|s| s.to_string()),
                mint: info[2].map(|s| s.to_string()),
            },
        }),
    }
}

fn burn(amount: &str, source: &str, mint: &str) -> InstructionNode {
    instr("spl-token", Some("burn"), [Some(amount), Some(source), Some(mint)])
}

fn tx(top: Vec<InstructionNode>, groups: Vec<Vec<InstructionNode>>) -> Option<Transaction> {
    Some(Transaction {
        instructions: top,
        inner_groups: groups
            .into_iter()
            .map(|instructions| InnerGroup { instructions })
            .collect(),
    })
}

#[test]
fn null_transaction_yields_none() {
    assert!(detect(&None, "sig").is_none());
}

#[test]
fn empty_transaction_yields_none() {
    let t = tx(vec![], vec![]);
    assert!(detect(&t, "sig").is_none());
}

#[test]
fn top_level_burn_is_detected() {
    let t = tx(vec![burn("100", "A", "M")], vec![]);
    let e = detect(&t, "s2").unwrap();
    assert_eq!(e.signature, "s2");
    assert_eq!(e.mint, "M");
    assert_eq!(e.source, "A");
    assert_eq!(e.amount, "100");
}

#[test]
fn first_structural_match_wins() {
    // A non-burn top-level instruction, then a burn inside an inner group,
    // then a second burn-like instruction later in the same group: detection
    // reports exactly the first structural match.
    let t = tx(
        vec![instr("system", Some("transfer"), [None, None, None])],
        vec![vec![
            burn("1", "first", "M1"),
            burn("2", "second", "M2"),
        ]],
    );
    let e = detect(&t, "s").unwrap();
    assert_eq!(e.source, "first");
    assert_eq!(e.amount, "1");
}

#[test]
fn top_level_scan_precedes_inner_scan() {
    let t = tx(
        vec![burn("10", "top", "M")],
        vec![vec![burn("20", "inner", "M")]],
    );
    let e = detect(&t, "s").unwrap();
    assert_eq!(e.source, "top");
}

#[test]
fn group_order_precedes_in_group_order() {
    let t = tx(
        vec![],
        vec![
            vec![instr("system", Some("transfer"), [None, None, None])],
            vec![burn("5", "grp2", "M")],
            vec![burn("6", "grp3", "M")],
        ],
    );
    let e = detect(&t, "s").unwrap();
    assert_eq!(e.source, "grp2");
}

#[test]
fn missing_amount_yields_placeholder() {
    let t = tx(
        vec![instr("spl-token", Some("burn"), [None, Some("A"), Some("M")])],
        vec![],
    );
    let e = detect(&t, "s").unwrap();
    assert_eq!(e.amount, "?");
    assert_eq!(e.source, "A");
    assert_eq!(e.mint, "M");
}

#[test]
fn missing_info_yields_all_placeholders() {
    let t = tx(vec![instr("spl-token", Some("burn"), [None, None, None])], vec![]);
    let e = detect(&t, "s").unwrap();
    assert_eq!(e.amount, "?");
    assert_eq!(e.source, "?");
    assert_eq!(e.mint, "?");
}

#[test]
fn burn_tag_is_case_insensitive() {
    for tag in ["Burn", "BURN", "bUrN"] {
        let t = tx(
            vec![instr("spl-token", Some(tag), [Some("7"), None, None])],
            vec![],
        );
        let e = detect(&t, "s").unwrap();
        assert_eq!(e.amount, "7");
    }
}

#[test]
fn wrong_program_is_not_a_burn() {
    let t = tx(
        vec![instr("spl-token-2022", Some("burn"), [Some("7"), None, None])],
        vec![],
    );
    assert!(detect(&t, "s").is_none());
}

#[test]
fn unparsed_instruction_is_not_a_burn() {
    let t = tx(vec![instr("spl-token", None, [None, None, None])], vec![]);
    assert!(detect(&t, "s").is_none());
}

#[test]
fn non_burn_tag_is_not_a_burn() {
    let t = tx(
        vec![instr("spl-token", Some("burnChecked"), [Some("7"), None, None])],
        vec![],
    );
    assert!(detect(&t, "s").is_none());
}

#[test]
fn string_comparisons() {
    assert!(str_eq("spl-token", "spl-token"));
    assert!(!str_eq("spl-token", "spl-Token"));
    assert!(!str_eq("spl-token", "spl-token2"));
    assert!(eq_ignore_ascii_case("Burn", "burn"));
    assert!(eq_ignore_ascii_case("BURN", "burn"));
    assert!(!eq_ignore_ascii_case("burnt", "burn"));
    assert!(!eq_ignore_ascii_case("bur", "burn"));
}
