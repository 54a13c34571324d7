//! Bonding modes and their two wire encodings: a numeric code and a token.

use crate::text::{decimal, decimal_string, same_text};
use vstd::prelude::*;
use vstd::string::*;

verus! {

/// The policy by which a bond spreads traffic over its links.
#[derive(Debug, PartialEq, Eq, Structural, Clone, Copy)]
pub enum BondMode {
    RoundRobin,
    ActiveBackup,
    BalanceXOR,
    Broadcast,
    LACP,
    BalanceTLB,
    BalanceALB,
}

/// The rejected input of a bonding mode, as text.
#[derive(Debug)]
pub struct InvalidBondMode(pub String);

impl vstd::std_specs::cmp::PartialEqSpecImpl for InvalidBondMode {
    open spec fn obeys_eq_spec() -> bool {
        true
    }

    open spec fn eq_spec(&self, other: &InvalidBondMode) -> bool {
        self.0@ == other.0@
    }
}

impl PartialEq for InvalidBondMode {
    /// Two errors are equal when they carry the same text.
    fn eq(&self, other: &InvalidBondMode) -> (same: bool) {
        self.0 == other.0
    }
}

impl InvalidBondMode {
    /// The diagnostic of the error: a fixed phrase, then the rejected input.
    pub open spec fn text(&self) -> Seq<char> {
        "Invalid bond mode: "@ + self.0@
    }

    /// Writes the diagnostic of the error.
    pub fn to_string(&self) -> (text: String)
        ensures
            text@ == self.text(),
    {
        String::from_str("Invalid bond mode: ").concat(self.0.as_str())
    }
}

impl BondMode {
    /// The numeric wire code of each mode.
    pub open spec fn code(self) -> u8 {
        match self {
            BondMode::RoundRobin => 0,
            BondMode::ActiveBackup => 1,
            BondMode::BalanceXOR => 2,
            BondMode::Broadcast => 3,
            BondMode::LACP => 4,
            BondMode::BalanceTLB => 5,
            BondMode::BalanceALB => 6,
        }
    }

    /// The canonical token of each mode.
    pub open spec fn token(self) -> Seq<char> {
        match self {
            BondMode::RoundRobin => "balance-rr"@,
            BondMode::ActiveBackup => "active-backup"@,
            BondMode::BalanceXOR => "balance-xor"@,
            BondMode::Broadcast => "broadcast"@,
            BondMode::LACP => "802.3ad"@,
            BondMode::BalanceTLB => "balance-tlb"@,
            BondMode::BalanceALB => "balance-alb"@,
        }
    }

    /// The mode that a numeric code stands for, if it stands for one.
    pub open spec fn from_code(code: u8) -> Option<BondMode> {
        if code == 0 {
            Some(BondMode::RoundRobin)
        } else if code == 1 {
            Some(BondMode::ActiveBackup)
        } else if code == 2 {
            Some(BondMode::BalanceXOR)
        } else if code == 3 {
            Some(BondMode::Broadcast)
        } else if code == 4 {
            Some(BondMode::LACP)
        } else if code == 5 {
            Some(BondMode::BalanceTLB)
        } else if code == 6 {
            Some(BondMode::BalanceALB)
        } else {
            None
        }
    }

    /// The mode that a token stands for, if it stands for one.
    pub open spec fn from_token(token: Seq<char>) -> Option<BondMode> {
        if token == "balance-rr"@ {
            Some(BondMode::RoundRobin)
        } else if token == "active-backup"@ {
            Some(BondMode::ActiveBackup)
        } else if token == "balance-xor"@ {
            Some(BondMode::BalanceXOR)
        } else if token == "broadcast"@ {
            Some(BondMode::Broadcast)
        } else if token == "802.3ad"@ {
            Some(BondMode::LACP)
        } else if token == "balance-tlb"@ {
            Some(BondMode::BalanceTLB)
        } else if token == "balance-alb"@ {
            Some(BondMode::BalanceALB)
        } else {
            None
        }
    }

    /// Whether a text is one of the canonical tokens.
    pub open spec fn is_token(text: Seq<char>) -> bool {
        exists|mode: BondMode| #[trigger] mode.token() == text
    }

    /// Returns the numeric wire code of this mode, from which the mode is
    /// found again.
    pub fn as_code(self) -> (code: u8)
        ensures
            code == self.code(),
            code <= 6,
            BondMode::from_code(code) == Some(self),
    {
        match self {
            BondMode::RoundRobin => 0,
            BondMode::ActiveBackup => 1,
            BondMode::BalanceXOR => 2,
            BondMode::Broadcast => 3,
            BondMode::LACP => 4,
            BondMode::BalanceTLB => 5,
            BondMode::BalanceALB => 6,
        }
    }

    /// Returns the canonical token of this mode, from which the mode is found
    /// again.
    pub fn as_str(self) -> (token: &'static str)
        ensures
            token@ == self.token(),
            BondMode::from_token(token@) == Some(self),
    {
        proof {
            lemma_mode_found_by_token(self);
        }
        match self {
            BondMode::RoundRobin => "balance-rr",
            BondMode::ActiveBackup => "active-backup",
            BondMode::BalanceXOR => "balance-xor",
            BondMode::Broadcast => "broadcast",
            BondMode::LACP => "802.3ad",
            BondMode::BalanceTLB => "balance-tlb",
            BondMode::BalanceALB => "balance-alb",
        }
    }

    /// Writes this mode as its canonical token.
    pub fn to_string(&self) -> (text: String)
        ensures
            text@ == self.token(),
            BondMode::from_token(text@) == Some(*self),
    {
        self.as_str().to_owned()
    }
}

impl Default for BondMode {
    /// The mode of a bond for which none was given.
    fn default() -> (mode: BondMode)
        ensures
            mode == BondMode::RoundRobin,
    {
        BondMode::RoundRobin
    }
}

/// The error of this conversion owns a `String`, and ghost code can speak of
/// a string's characters only, not build one. So the result is not given as a
/// value here: the `ensures` of `try_from` below describes it.
impl<'a> vstd::std_specs::convert::TryFromSpecImpl<&'a str> for BondMode {
    open spec fn obeys_try_from_spec() -> bool {
        false
    }

    open spec fn try_from_spec(value: &'a str) -> Result<Self, Self::Error> {
        arbitrary()
    }
}

impl<'a> TryFrom<&'a str> for BondMode {
    type Error = InvalidBondMode;

    /// Reads a token. The seven canonical tokens give their mode; every other
    /// string is handed back in the error.
    fn try_from(value: &'a str) -> (res: Result<Self, Self::Error>)
        ensures
            res is Ok <==> BondMode::is_token(value@),
            match res {
                Ok(mode) => BondMode::from_token(value@) == Some(mode) && mode.token() == value@,
                Err(e) => BondMode::from_token(value@) is None && e.0@ == value@,
            },
    {
        let found = if same_text(value, "balance-rr") {
            Some(BondMode::RoundRobin)
        } else if same_text(value, "active-backup") {
            Some(BondMode::ActiveBackup)
        } else if same_text(value, "balance-xor") {
            Some(BondMode::BalanceXOR)
        } else if same_text(value, "broadcast") {
            Some(BondMode::Broadcast)
        } else if same_text(value, "802.3ad") {
            Some(BondMode::LACP)
        } else if same_text(value, "balance-tlb") {
            Some(BondMode::BalanceTLB)
        } else if same_text(value, "balance-alb") {
            Some(BondMode::BalanceALB)
        } else {
            None
        };
        match found {
            Some(mode) => {
                assert(mode.token() == value@);
                Ok(mode)
            },
            None => {
                assert forall|mode: BondMode| #[trigger] mode.token() != value@ by {}
                Err(InvalidBondMode(value.to_owned()))
            },
        }
    }
}

/// As for tokens, the result is described by the `ensures` of `try_from`
/// below, since the error owns a `String`.
impl vstd::std_specs::convert::TryFromSpecImpl<u8> for BondMode {
    open spec fn obeys_try_from_spec() -> bool {
        false
    }

    open spec fn try_from_spec(value: u8) -> Result<Self, Self::Error> {
        arbitrary()
    }
}

impl TryFrom<u8> for BondMode {
    type Error = InvalidBondMode;

    /// Reads a numeric code. Codes 0 to 6 give their mode; every other code
    /// is handed back in the error, written in decimal.
    fn try_from(value: u8) -> (res: Result<Self, Self::Error>)
        ensures
            res is Ok <==> value <= 6,
            match res {
                Ok(mode) => BondMode::from_code(value) == Some(mode) && mode.code() == value,
                Err(e) => BondMode::from_code(value) is None && e.0@ == decimal(value as nat),
            },
    {
        match value {
            0 => Ok(BondMode::RoundRobin),
            1 => Ok(BondMode::ActiveBackup),
            2 => Ok(BondMode::BalanceXOR),
            3 => Ok(BondMode::Broadcast),
            4 => Ok(BondMode::LACP),
            5 => Ok(BondMode::BalanceTLB),
            6 => Ok(BondMode::BalanceALB),
            _ => Err(InvalidBondMode(decimal_string(value))),
        }
    }
}

/// Every code from 0 to 6 stands for a mode, that mode has the code, and no
/// other code stands for a mode.
pub proof fn lemma_code_names_mode(code: u8)
    ensures
        BondMode::from_code(code) is Some <==> code <= 6,
        BondMode::from_code(code) matches Some(mode) ==> mode.code() == code,
{
}

/// Every mode is found again from its code.
pub proof fn lemma_mode_found_by_code(mode: BondMode)
    ensures
        mode.code() <= 6,
        BondMode::from_code(mode.code()) == Some(mode),
{
}

/// No two modes share a token.
pub proof fn lemma_tokens_differ(a: BondMode, b: BondMode)
    requires
        a.token() == b.token(),
    ensures
        a == b,
{
    reveal_strlit("balance-rr");
    reveal_strlit("active-backup");
    reveal_strlit("balance-xor");
    reveal_strlit("broadcast");
    reveal_strlit("802.3ad");
    reveal_strlit("balance-tlb");
    reveal_strlit("balance-alb");
    assert("balance-rr"@.len() == 10);
    assert("active-backup"@.len() == 13);
    assert("balance-xor"@.len() == 11 && "balance-xor"@[8] == 'x');
    assert("broadcast"@.len() == 9);
    assert("802.3ad"@.len() == 7);
    assert("balance-tlb"@.len() == 11 && "balance-tlb"@[8] == 't');
    assert("balance-alb"@.len() == 11 && "balance-alb"@[8] == 'a');
}

/// Every mode is found again from its token.
pub proof fn lemma_mode_found_by_token(mode: BondMode)
    ensures
        BondMode::is_token(mode.token()),
        BondMode::from_token(mode.token()) == Some(mode),
{
    let found = BondMode::from_token(mode.token());
    assert(found is Some);
    lemma_tokens_differ(found.unwrap(), mode);
}

/// A text stands for a mode exactly when it is one of the canonical tokens,
/// and then it is the token of that mode.
pub proof fn lemma_token_names_mode(text: Seq<char>)
    ensures
        BondMode::from_token(text) is Some <==> BondMode::is_token(text),
        BondMode::from_token(text) matches Some(mode) ==> mode.token() == text,
{
    if BondMode::from_token(text) is Some {
        assert(BondMode::from_token(text).unwrap().token() == text);
    }
    if BondMode::is_token(text) {
        let mode = choose|mode: BondMode| #[trigger] mode.token() == text;
        lemma_mode_found_by_token(mode);
    }
}

/// A code from 0 to 6 round-trips through both encodings: it stands for a
/// mode with that code, and the token of that mode stands for the same mode.
pub proof fn lemma_code_round_trips(code: u8)
    requires
        code <= 6,
    ensures
        BondMode::from_code(code) is Some,
        BondMode::from_code(code).unwrap().code() == code,
        BondMode::from_token(BondMode::from_code(code).unwrap().token()) == BondMode::from_code(
            code,
        ),
{
    lemma_mode_found_by_token(BondMode::from_code(code).unwrap());
}

/// A canonical token round-trips through both encodings: it stands for a
/// mode with that token, and the code of that mode stands for the same mode.
pub proof fn lemma_token_round_trips(text: Seq<char>)
    requires
        BondMode::is_token(text),
    ensures
        BondMode::from_token(text) is Some,
        BondMode::from_token(text).unwrap().token() == text,
        BondMode::from_code(BondMode::from_token(text).unwrap().code()) == BondMode::from_token(
            text,
        ),
{
    lemma_token_names_mode(text);
}

} // verus!
