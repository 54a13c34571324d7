use network_types::{BondMode, InvalidBondMode};

const MODES: [(u8, &str, BondMode); 7] = [
    (0, "balance-rr", BondMode::RoundRobin),
    (1, "active-backup", BondMode::ActiveBackup),
    (2, "balance-xor", BondMode::BalanceXOR),
    (3, "broadcast", BondMode::Broadcast),
    (4, "802.3ad", BondMode::LACP),
    (5, "balance-tlb", BondMode::BalanceTLB),
    (6, "balance-alb", BondMode::BalanceALB),
];

#[test]
fn bond_mode_codes_match_the_table() {
    for (code, _, mode) in MODES {
        assert_eq!(BondMode::try_from(code), Ok(mode));
        assert_eq!(mode.as_code(), code);
    }
}

#[test]
fn bond_mode_tokens_match_the_table() {
    for (_, token, mode) in MODES {
        assert_eq!(BondMode::try_from(token), Ok(mode));
        assert_eq!(mode.as_str(), token);
        assert_eq!(mode.to_string(), token);
    }
}

#[test]
fn bond_mode_round_trips_through_both_encodings() {
    for code in 0u8..=6 {
        let mode = BondMode::try_from(code).unwrap();
        let token = mode.to_string();
        let again = BondMode::try_from(token.as_str()).unwrap();
        assert_eq!(again, mode);
        assert_eq!(again.as_code(), code);
    }
}

#[test]
fn bond_mode_rejects_every_other_code() {
    for code in 7u8..=255 {
        assert_eq!(BondMode::try_from(code), Err(InvalidBondMode(format!("{}", code))));
    }
}

#[test]
fn bond_mode_rejects_unknown_tokens() {
    let rejected = [
        "",
        "bond",
        "balance",
        "balance-rr ",
        " balance-rr",
        "Balance-RR",
        "balance_rr",
        "802.3ax",
        "balance-xob",
        "1",
        "\u{e9}t\u{e9}",
    ];
    for token in rejected {
        assert_eq!(BondMode::try_from(token), Err(InvalidBondMode(token.to_string())));
    }
}

#[test]
fn bond_mode_default_is_round_robin() {
    assert_eq!(BondMode::default(), BondMode::RoundRobin);
}

#[test]
fn invalid_bond_mode_text() {
    let from_token = BondMode::try_from("fastest").unwrap_err();
    assert_eq!(from_token.to_string(), "Invalid bond mode: fastest");
    let from_code = BondMode::try_from(7).unwrap_err();
    assert_eq!(from_code.to_string(), "Invalid bond mode: 7");
    let from_large_code = BondMode::try_from(200).unwrap_err();
    assert_eq!(from_large_code, InvalidBondMode(String::from("200")));
}

#[test]
fn invalid_bond_mode_equality_goes_by_text() {
    assert_eq!(InvalidBondMode(String::from("x")), InvalidBondMode(String::from("x")));
    assert_ne!(InvalidBondMode(String::from("x")), InvalidBondMode(String::from("y")));
}
