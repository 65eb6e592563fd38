//! Tokens of the modifier language and the lexer that turns text into them.
//!
//! The lexer reads the longest token at each position. Spaces, newlines and tabs between tokens
//! are skipped. A word made of letters, digits, `-`, `_` and `'` is a keyword when it spells one
//! exactly, a number when it is all digits, a roll such as `3d6` when it has that shape, and an
//! identifier otherwise. Text in double or single quotes is a string.
use vstd::prelude::*;
use crate::text::{debug_quoted, debug_string, i64_to_string, int_decimal, lower_char, to_lower_char, ascii_lower, push_char};

verus! {

/// A token of the modifier language.
#[derive(Debug)]
/// The `NONE` keyword is `NoneMarker`; its debug text is `None`.
pub enum Token {
    NoneMarker,
    Perm,
    Cast,
    CastDismiss,
    EmptyCast,
    OneMin,
    OneHour,
    FourHour,
    EightHour,
    OneDay,
    Rest,
    Dot,
    Comma,
    Grant,
    Lose,
    Override,
    Choose,
    Apply,
    Str,
    Agl,
    Int,
    Will,
    BonusDamage,
    Defense,
    Health,
    Immunity,
    Language,
    MagicTalent,
    NatDef,
    NoviceSpell,
    ExpertSpell,
    MasterSpell,
    Profession,
    Score,
    Sense,
    Speed,
    SpeedTrait,
    StatBlock,
    Merge,
    Talent,
    Tradition,
    Heal,
    Select,
    SelectAgain,
    Slot,
    Calc,
    Ask,
    Dice(String),
    Number(i32),
    Slash,
    Identifier(String),
    ConditionMarker,
    IfCase,
    HasNotCase,
    HasCase,
    Equals,
    OpenParen,
    CloseParen,
    Semicolon,
    String(String),
    Gt,
    GtEq,
    Lt,
    LtEq,
    Plus,
    Times,
}

/// A token as the contracts see it: text payloads are character sequences.
pub enum SpecToken {
    NoneMarker,
    Perm,
    Cast,
    CastDismiss,
    EmptyCast,
    OneMin,
    OneHour,
    FourHour,
    EightHour,
    OneDay,
    Rest,
    Dot,
    Comma,
    Grant,
    Lose,
    Override,
    Choose,
    Apply,
    Str,
    Agl,
    Int,
    Will,
    BonusDamage,
    Defense,
    Health,
    Immunity,
    Language,
    MagicTalent,
    NatDef,
    NoviceSpell,
    ExpertSpell,
    MasterSpell,
    Profession,
    Score,
    Sense,
    Speed,
    SpeedTrait,
    StatBlock,
    Merge,
    Talent,
    Tradition,
    Heal,
    Select,
    SelectAgain,
    Slot,
    Calc,
    Ask,
    Dice(Seq<char>),
    Number(i32),
    Slash,
    Identifier(Seq<char>),
    ConditionMarker,
    IfCase,
    HasNotCase,
    HasCase,
    Equals,
    OpenParen,
    CloseParen,
    Semicolon,
    String(Seq<char>),
    Gt,
    GtEq,
    Lt,
    LtEq,
    Plus,
    Times,
}

impl DeepView for Token {
    type V = SpecToken;

    open spec fn deep_view(&self) -> SpecToken {
        match self {
            Token::NoneMarker => SpecToken::NoneMarker,
            Token::Perm => SpecToken::Perm,
            Token::Cast => SpecToken::Cast,
            Token::CastDismiss => SpecToken::CastDismiss,
            Token::EmptyCast => SpecToken::EmptyCast,
            Token::OneMin => SpecToken::OneMin,
            Token::OneHour => SpecToken::OneHour,
            Token::FourHour => SpecToken::FourHour,
            Token::EightHour => SpecToken::EightHour,
            Token::OneDay => SpecToken::OneDay,
            Token::Rest => SpecToken::Rest,
            Token::Dot => SpecToken::Dot,
            Token::Comma => SpecToken::Comma,
            Token::Grant => SpecToken::Grant,
            Token::Lose => SpecToken::Lose,
            Token::Override => SpecToken::Override,
            Token::Choose => SpecToken::Choose,
            Token::Apply => SpecToken::Apply,
            Token::Str => SpecToken::Str,
            Token::Agl => SpecToken::Agl,
            Token::Int => SpecToken::Int,
            Token::Will => SpecToken::Will,
            Token::BonusDamage => SpecToken::BonusDamage,
            Token::Defense => SpecToken::Defense,
            Token::Health => SpecToken::Health,
            Token::Immunity => SpecToken::Immunity,
            Token::Language => SpecToken::Language,
            Token::MagicTalent => SpecToken::MagicTalent,
            Token::NatDef => SpecToken::NatDef,
            Token::NoviceSpell => SpecToken::NoviceSpell,
            Token::ExpertSpell => SpecToken::ExpertSpell,
            Token::MasterSpell => SpecToken::MasterSpell,
            Token::Profession => SpecToken::Profession,
            Token::Score => SpecToken::Score,
            Token::Sense => SpecToken::Sense,
            Token::Speed => SpecToken::Speed,
            Token::SpeedTrait => SpecToken::SpeedTrait,
            Token::StatBlock => SpecToken::StatBlock,
            Token::Merge => SpecToken::Merge,
            Token::Talent => SpecToken::Talent,
            Token::Tradition => SpecToken::Tradition,
            Token::Heal => SpecToken::Heal,
            Token::Select => SpecToken::Select,
            Token::SelectAgain => SpecToken::SelectAgain,
            Token::Slot => SpecToken::Slot,
            Token::Calc => SpecToken::Calc,
            Token::Ask => SpecToken::Ask,
            Token::Slash => SpecToken::Slash,
            Token::ConditionMarker => SpecToken::ConditionMarker,
            Token::IfCase => SpecToken::IfCase,
            Token::HasNotCase => SpecToken::HasNotCase,
            Token::HasCase => SpecToken::HasCase,
            Token::Equals => SpecToken::Equals,
            Token::OpenParen => SpecToken::OpenParen,
            Token::CloseParen => SpecToken::CloseParen,
            Token::Semicolon => SpecToken::Semicolon,
            Token::Gt => SpecToken::Gt,
            Token::GtEq => SpecToken::GtEq,
            Token::Lt => SpecToken::Lt,
            Token::LtEq => SpecToken::LtEq,
            Token::Plus => SpecToken::Plus,
            Token::Times => SpecToken::Times,
            Token::Dice(s) => SpecToken::Dice(s@),
            Token::Number(n) => SpecToken::Number(*n),
            Token::Identifier(s) => SpecToken::Identifier(s@),
            Token::String(s) => SpecToken::String(s@),
        }
    }
}

/// What `{:?}` writes for a token.
pub open spec fn token_debug(t: SpecToken) -> Seq<char> {
    match t {
        SpecToken::NoneMarker => "None"@,
        SpecToken::Perm => "Perm"@,
        SpecToken::Cast => "Cast"@,
        SpecToken::CastDismiss => "CastDismiss"@,
        SpecToken::EmptyCast => "EmptyCast"@,
        SpecToken::OneMin => "OneMin"@,
        SpecToken::OneHour => "OneHour"@,
        SpecToken::FourHour => "FourHour"@,
        SpecToken::EightHour => "EightHour"@,
        SpecToken::OneDay => "OneDay"@,
        SpecToken::Rest => "Rest"@,
        SpecToken::Dot => "Dot"@,
        SpecToken::Comma => "Comma"@,
        SpecToken::Grant => "Grant"@,
        SpecToken::Lose => "Lose"@,
        SpecToken::Override => "Override"@,
        SpecToken::Choose => "Choose"@,
        SpecToken::Apply => "Apply"@,
        SpecToken::Str => "Str"@,
        SpecToken::Agl => "Agl"@,
        SpecToken::Int => "Int"@,
        SpecToken::Will => "Will"@,
        SpecToken::BonusDamage => "BonusDamage"@,
        SpecToken::Defense => "Defense"@,
        SpecToken::Health => "Health"@,
        SpecToken::Immunity => "Immunity"@,
        SpecToken::Language => "Language"@,
        SpecToken::MagicTalent => "MagicTalent"@,
        SpecToken::NatDef => "NatDef"@,
        SpecToken::NoviceSpell => "NoviceSpell"@,
        SpecToken::ExpertSpell => "ExpertSpell"@,
        SpecToken::MasterSpell => "MasterSpell"@,
        SpecToken::Profession => "Profession"@,
        SpecToken::Score => "Score"@,
        SpecToken::Sense => "Sense"@,
        SpecToken::Speed => "Speed"@,
        SpecToken::SpeedTrait => "SpeedTrait"@,
        SpecToken::StatBlock => "StatBlock"@,
        SpecToken::Merge => "Merge"@,
        SpecToken::Talent => "Talent"@,
        SpecToken::Tradition => "Tradition"@,
        SpecToken::Heal => "Heal"@,
        SpecToken::Select => "Select"@,
        SpecToken::SelectAgain => "SelectAgain"@,
        SpecToken::Slot => "Slot"@,
        SpecToken::Calc => "Calc"@,
        SpecToken::Ask => "Ask"@,
        SpecToken::Slash => "Slash"@,
        SpecToken::ConditionMarker => "ConditionMarker"@,
        SpecToken::IfCase => "IfCase"@,
        SpecToken::HasNotCase => "HasNotCase"@,
        SpecToken::HasCase => "HasCase"@,
        SpecToken::Equals => "Equals"@,
        SpecToken::OpenParen => "OpenParen"@,
        SpecToken::CloseParen => "CloseParen"@,
        SpecToken::Semicolon => "Semicolon"@,
        SpecToken::Gt => "Gt"@,
        SpecToken::GtEq => "GtEq"@,
        SpecToken::Lt => "Lt"@,
        SpecToken::LtEq => "LtEq"@,
        SpecToken::Plus => "Plus"@,
        SpecToken::Times => "Times"@,
        SpecToken::Dice(s) => "Dice("@ + debug_quoted(s) + ")"@,
        SpecToken::Number(n) => "Number("@ + int_decimal(n as int) + ")"@,
        SpecToken::Identifier(s) => "Identifier("@ + debug_quoted(s) + ")"@,
        SpecToken::String(s) => "String("@ + debug_quoted(s) + ")"@,
    }
}

fn wrapped_debug(prefix: &str, s: &String) -> (r: String)
    ensures r@ == prefix@ + debug_quoted(s@) + ")"@,
{
    let mut r = String::from_str(prefix);
    let d = debug_string(s);
    r.append(d.as_str());
    r.append(")");
    r
}

fn number_debug(n: i32) -> (r: String)
    ensures
        r@ == "Number("@ + int_decimal(n as int) + ")"@,
{
    let mut r = String::from_str("Number(");
    let d = i64_to_string(n as i64);
    r.append(d.as_str());
    r.append(")");
    r
}

/// The `{:?}` rendering of a token.
pub fn token_debug_string(t: &Token) -> (r: String)
    ensures r@ == token_debug(t.deep_view()),
{
    match t {
        Token::NoneMarker => String::from_str("None"),
        Token::Perm => String::from_str("Perm"),
        Token::Cast => String::from_str("Cast"),
        Token::CastDismiss => String::from_str("CastDismiss"),
        Token::EmptyCast => String::from_str("EmptyCast"),
        Token::OneMin => String::from_str("OneMin"),
        Token::OneHour => String::from_str("OneHour"),
        Token::FourHour => String::from_str("FourHour"),
        Token::EightHour => String::from_str("EightHour"),
        Token::OneDay => String::from_str("OneDay"),
        Token::Rest => String::from_str("Rest"),
        Token::Dot => String::from_str("Dot"),
        Token::Comma => String::from_str("Comma"),
        Token::Grant => String::from_str("Grant"),
        Token::Lose => String::from_str("Lose"),
        Token::Override => String::from_str("Override"),
        Token::Choose => String::from_str("Choose"),
        Token::Apply => String::from_str("Apply"),
        Token::Str => String::from_str("Str"),
        Token::Agl => String::from_str("Agl"),
        Token::Int => String::from_str("Int"),
        Token::Will => String::from_str("Will"),
        Token::BonusDamage => String::from_str("BonusDamage"),
        Token::Defense => String::from_str("Defense"),
        Token::Health => String::from_str("Health"),
        Token::Immunity => String::from_str("Immunity"),
        Token::Language => String::from_str("Language"),
        Token::MagicTalent => String::from_str("MagicTalent"),
        Token::NatDef => String::from_str("NatDef"),
        Token::NoviceSpell => String::from_str("NoviceSpell"),
        Token::ExpertSpell => String::from_str("ExpertSpell"),
        Token::MasterSpell => String::from_str("MasterSpell"),
        Token::Profession => String::from_str("Profession"),
        Token::Score => String::from_str("Score"),
        Token::Sense => String::from_str("Sense"),
        Token::Speed => String::from_str("Speed"),
        Token::SpeedTrait => String::from_str("SpeedTrait"),
        Token::StatBlock => String::from_str("StatBlock"),
        Token::Merge => String::from_str("Merge"),
        Token::Talent => String::from_str("Talent"),
        Token::Tradition => String::from_str("Tradition"),
        Token::Heal => String::from_str("Heal"),
        Token::Select => String::from_str("Select"),
        Token::SelectAgain => String::from_str("SelectAgain"),
        Token::Slot => String::from_str("Slot"),
        Token::Calc => String::from_str("Calc"),
        Token::Ask => String::from_str("Ask"),
        Token::Slash => String::from_str("Slash"),
        Token::ConditionMarker => String::from_str("ConditionMarker"),
        Token::IfCase => String::from_str("IfCase"),
        Token::HasNotCase => String::from_str("HasNotCase"),
        Token::HasCase => String::from_str("HasCase"),
        Token::Equals => String::from_str("Equals"),
        Token::OpenParen => String::from_str("OpenParen"),
        Token::CloseParen => String::from_str("CloseParen"),
        Token::Semicolon => String::from_str("Semicolon"),
        Token::Gt => String::from_str("Gt"),
        Token::GtEq => String::from_str("GtEq"),
        Token::Lt => String::from_str("Lt"),
        Token::LtEq => String::from_str("LtEq"),
        Token::Plus => String::from_str("Plus"),
        Token::Times => String::from_str("Times"),
        Token::Dice(s) => wrapped_debug("Dice(", s),
        Token::Number(n) => number_debug(*n),
        Token::Identifier(s) => wrapped_debug("Identifier(", s),
        Token::String(s) => wrapped_debug("String(", s),
    }
}

/// A copy of a token.
pub fn clone_token(t: &Token) -> (r: Token)
    ensures r.deep_view() == t.deep_view(),
{
    match t {
        Token::NoneMarker => Token::NoneMarker,
        Token::Perm => Token::Perm,
        Token::Cast => Token::Cast,
        Token::CastDismiss => Token::CastDismiss,
        Token::EmptyCast => Token::EmptyCast,
        Token::OneMin => Token::OneMin,
        Token::OneHour => Token::OneHour,
        Token::FourHour => Token::FourHour,
        Token::EightHour => Token::EightHour,
        Token::OneDay => Token::OneDay,
        Token::Rest => Token::Rest,
        Token::Dot => Token::Dot,
        Token::Comma => Token::Comma,
        Token::Grant => Token::Grant,
        Token::Lose => Token::Lose,
        Token::Override => Token::Override,
        Token::Choose => Token::Choose,
        Token::Apply => Token::Apply,
        Token::Str => Token::Str,
        Token::Agl => Token::Agl,
        Token::Int => Token::Int,
        Token::Will => Token::Will,
        Token::BonusDamage => Token::BonusDamage,
        Token::Defense => Token::Defense,
        Token::Health => Token::Health,
        Token::Immunity => Token::Immunity,
        Token::Language => Token::Language,
        Token::MagicTalent => Token::MagicTalent,
        Token::NatDef => Token::NatDef,
        Token::NoviceSpell => Token::NoviceSpell,
        Token::ExpertSpell => Token::ExpertSpell,
        Token::MasterSpell => Token::MasterSpell,
        Token::Profession => Token::Profession,
        Token::Score => Token::Score,
        Token::Sense => Token::Sense,
        Token::Speed => Token::Speed,
        Token::SpeedTrait => Token::SpeedTrait,
        Token::StatBlock => Token::StatBlock,
        Token::Merge => Token::Merge,
        Token::Talent => Token::Talent,
        Token::Tradition => Token::Tradition,
        Token::Heal => Token::Heal,
        Token::Select => Token::Select,
        Token::SelectAgain => Token::SelectAgain,
        Token::Slot => Token::Slot,
        Token::Calc => Token::Calc,
        Token::Ask => Token::Ask,
        Token::Slash => Token::Slash,
        Token::ConditionMarker => Token::ConditionMarker,
        Token::IfCase => Token::IfCase,
        Token::HasNotCase => Token::HasNotCase,
        Token::HasCase => Token::HasCase,
        Token::Equals => Token::Equals,
        Token::OpenParen => Token::OpenParen,
        Token::CloseParen => Token::CloseParen,
        Token::Semicolon => Token::Semicolon,
        Token::Gt => Token::Gt,
        Token::GtEq => Token::GtEq,
        Token::Lt => Token::Lt,
        Token::LtEq => Token::LtEq,
        Token::Plus => Token::Plus,
        Token::Times => Token::Times,
        Token::Dice(s) => Token::Dice(s.clone()),
        Token::Number(n) => Token::Number(*n),
        Token::Identifier(s) => Token::Identifier(s.clone()),
        Token::String(s) => Token::String(s.clone()),
    }
}

/// The keyword that a whole identifier-shaped word spells, if any.
pub open spec fn keyword_token(w: Seq<char>) -> Option<SpecToken> {
    if w == seq!['N', 'O', 'N', 'E'] {
        Option::Some(SpecToken::NoneMarker)
    } else if w == seq!['G', 'R', 'A', 'N', 'T'] {
        Option::Some(SpecToken::Grant)
    } else if w == seq!['L', 'O', 'S', 'E'] {
        Option::Some(SpecToken::Lose)
    } else if w == seq!['O', 'V', 'E', 'R', 'R', 'I', 'D', 'E'] {
        Option::Some(SpecToken::Override)
    } else if w == seq!['C', 'H', 'O', 'O', 'S', 'E'] {
        Option::Some(SpecToken::Choose)
    } else if w == seq!['A', 'P', 'P', 'L', 'Y'] {
        Option::Some(SpecToken::Apply)
    } else if w == seq!['S', 'T', 'R'] {
        Option::Some(SpecToken::Str)
    } else if w == seq!['A', 'G', 'L'] {
        Option::Some(SpecToken::Agl)
    } else if w == seq!['I', 'N', 'T'] {
        Option::Some(SpecToken::Int)
    } else if w == seq!['W', 'I', 'L', 'L'] {
        Option::Some(SpecToken::Will)
    } else if w == seq!['B', 'o', 'n', 'u', 's', 'D', 'a', 'm', 'a', 'g', 'e'] {
        Option::Some(SpecToken::BonusDamage)
    } else if w == seq!['D', 'e', 'f', 'e', 'n', 's', 'e'] {
        Option::Some(SpecToken::Defense)
    } else if w == seq!['H', 'e', 'a', 'l', 't', 'h'] {
        Option::Some(SpecToken::Health)
    } else if w == seq!['I', 'm', 'm', 'u', 'n', 'i', 't', 'y'] {
        Option::Some(SpecToken::Immunity)
    } else if w == seq!['L', 'a', 'n', 'g', 'u', 'a', 'g', 'e'] {
        Option::Some(SpecToken::Language)
    } else if w == seq!['M', 'a', 'g', 'i', 'c', 'T', 'a', 'l', 'e', 'n', 't'] {
        Option::Some(SpecToken::MagicTalent)
    } else if w == seq!['N', 'a', 't', 'D', 'e', 'f'] {
        Option::Some(SpecToken::NatDef)
    } else if w == seq!['N', 'o', 'v', 'i', 'c', 'e', 'S', 'p', 'e', 'l', 'l'] {
        Option::Some(SpecToken::NoviceSpell)
    } else if w == seq!['E', 'x', 'p', 'e', 'r', 't', 'S', 'p', 'e', 'l', 'l'] {
        Option::Some(SpecToken::ExpertSpell)
    } else if w == seq!['M', 'a', 's', 't', 'e', 'r', 'S', 'p', 'e', 'l', 'l'] {
        Option::Some(SpecToken::MasterSpell)
    } else if w == seq!['P', 'r', 'o', 'f', 'e', 's', 's', 'i', 'o', 'n'] {
        Option::Some(SpecToken::Profession)
    } else if w == seq!['S', 'c', 'o', 'r', 'e'] {
        Option::Some(SpecToken::Score)
    } else if w == seq!['S', 'e', 'n', 's', 'e'] {
        Option::Some(SpecToken::Sense)
    } else if w == seq!['S', 'p', 'e', 'e', 'd'] {
        Option::Some(SpecToken::Speed)
    } else if w == seq!['S', 'p', 'e', 'e', 'd', 'T', 'r', 'a', 'i', 't'] {
        Option::Some(SpecToken::SpeedTrait)
    } else if w == seq!['S', 't', 'a', 't', 'B', 'l', 'o', 'c', 'k'] {
        Option::Some(SpecToken::StatBlock)
    } else if w == seq!['M', 'e', 'r', 'g', 'e'] {
        Option::Some(SpecToken::Merge)
    } else if w == seq!['T', 'a', 'l', 'e', 'n', 't'] {
        Option::Some(SpecToken::Talent)
    } else if w == seq!['T', 'r', 'a', 'd', 'i', 't', 'i', 'o', 'n'] {
        Option::Some(SpecToken::Tradition)
    } else if w == seq!['H', 'e', 'a', 'l'] {
        Option::Some(SpecToken::Heal)
    } else if w == seq!['S', 'E', 'L', 'E', 'C', 'T'] {
        Option::Some(SpecToken::Select)
    } else if w == seq!['S', 'E', 'L', 'E', 'C', 'T', '_', 'A', 'G', 'A', 'I', 'N'] {
        Option::Some(SpecToken::SelectAgain)
    } else if w == seq!['S', 'l', 'o', 't'] {
        Option::Some(SpecToken::Slot)
    } else if w == seq!['C', 'a', 'l', 'c'] {
        Option::Some(SpecToken::Calc)
    } else if w == seq!['A', 's', 'k'] {
        Option::Some(SpecToken::Ask)
    } else if w == seq!['I', 'F'] {
        Option::Some(SpecToken::IfCase)
    } else if w == seq!['H', 'A', 'S', 'N', 'O', 'T'] {
        Option::Some(SpecToken::HasNotCase)
    } else if w == seq!['H', 'A', 'S'] {
        Option::Some(SpecToken::HasCase)
    } else {
        Option::None
    }
}

/// The duration token that a word spells when it is followed by `]`.
pub open spec fn timed_token(w: Seq<char>) -> Option<SpecToken> {
    if w == seq!['1', 'm'] {
        Option::Some(SpecToken::OneMin)
    } else if w == seq!['1', 'h'] {
        Option::Some(SpecToken::OneHour)
    } else if w == seq!['4', 'h'] {
        Option::Some(SpecToken::FourHour)
    } else if w == seq!['8', 'h'] {
        Option::Some(SpecToken::EightHour)
    } else if w == seq!['2', '4', 'h'] {
        Option::Some(SpecToken::OneDay)
    } else if w == seq!['1', 'd'] {
        Option::Some(SpecToken::OneDay)
    } else if w == seq!['r', 'e', 's', 't'] {
        Option::Some(SpecToken::Rest)
    } else {
        Option::None
    }
}

/// The words before `]` that spell a duration, and their tokens: `1m` one minute, `1h` one hour,
/// `4h` four hours, `8h` eight hours, `24h` and `1d` one day, `rest` until the next rest.
pub proof fn lemma_timed_words()
    ensures
        timed_token(seq!['1', 'm']) == Option::Some(SpecToken::OneMin),
        timed_token(seq!['1', 'h']) == Option::Some(SpecToken::OneHour),
        timed_token(seq!['4', 'h']) == Option::Some(SpecToken::FourHour),
        timed_token(seq!['8', 'h']) == Option::Some(SpecToken::EightHour),
        timed_token(seq!['2', '4', 'h']) == Option::Some(SpecToken::OneDay),
        timed_token(seq!['1', 'd']) == Option::Some(SpecToken::OneDay),
        timed_token(seq!['r', 'e', 's', 't']) == Option::Some(SpecToken::Rest),
{
    let m1 = seq!['1', 'm'];
    let h1 = seq!['1', 'h'];
    let h4 = seq!['4', 'h'];
    let h8 = seq!['8', 'h'];
    let h24 = seq!['2', '4', 'h'];
    let d1 = seq!['1', 'd'];
    let r = seq!['r', 'e', 's', 't'];
    assert(h1 != m1) by { assert(h1[1] != m1[1]); }
    assert(h4 != m1) by { assert(h4[0] != m1[0]); }
    assert(h4 != h1) by { assert(h4[0] != h1[0]); }
    assert(h8 != m1) by { assert(h8[0] != m1[0]); }
    assert(h8 != h1) by { assert(h8[0] != h1[0]); }
    assert(h8 != h4) by { assert(h8[0] != h4[0]); }
    assert(h24 != m1) by { assert(h24.len() != m1.len()); }
    assert(h24 != h1) by { assert(h24.len() != h1.len()); }
    assert(h24 != h4) by { assert(h24.len() != h4.len()); }
    assert(h24 != h8) by { assert(h24.len() != h8.len()); }
    assert(d1 != m1) by { assert(d1[1] != m1[1]); }
    assert(d1 != h1) by { assert(d1[1] != h1[1]); }
    assert(d1 != h4) by { assert(d1[0] != h4[0]); }
    assert(d1 != h8) by { assert(d1[0] != h8[0]); }
    assert(d1 != h24) by { assert(d1.len() != h24.len()); }
    assert(r != m1) by { assert(r.len() != m1.len()); }
    assert(r != h1) by { assert(r.len() != h1.len()); }
    assert(r != h4) by { assert(r.len() != h4.len()); }
    assert(r != h8) by { assert(r.len() != h8.len()); }
    assert(r != h24) by { assert(r.len() != h24.len()); }
    assert(r != d1) by { assert(r.len() != d1.len()); }
}

#[verifier::rlimit(40)]
fn keyword_token_of(w: &Vec<char>) -> (r: Option<Token>)
    ensures r.deep_view() == keyword_token(w@),
{
    if chars_equal(w, &['N', 'O', 'N', 'E']) {
        return Option::Some(Token::NoneMarker);
    }
    if chars_equal(w, &['G', 'R', 'A', 'N', 'T']) {
        return Option::Some(Token::Grant);
    }
    if chars_equal(w, &['L', 'O', 'S', 'E']) {
        return Option::Some(Token::Lose);
    }
    if chars_equal(w, &['O', 'V', 'E', 'R', 'R', 'I', 'D', 'E']) {
        return Option::Some(Token::Override);
    }
    if chars_equal(w, &['C', 'H', 'O', 'O', 'S', 'E']) {
        return Option::Some(Token::Choose);
    }
    if chars_equal(w, &['A', 'P', 'P', 'L', 'Y']) {
        return Option::Some(Token::Apply);
    }
    if chars_equal(w, &['S', 'T', 'R']) {
        return Option::Some(Token::Str);
    }
    if chars_equal(w, &['A', 'G', 'L']) {
        return Option::Some(Token::Agl);
    }
    if chars_equal(w, &['I', 'N', 'T']) {
        return Option::Some(Token::Int);
    }
    if chars_equal(w, &['W', 'I', 'L', 'L']) {
        return Option::Some(Token::Will);
    }
    if chars_equal(w, &['B', 'o', 'n', 'u', 's', 'D', 'a', 'm', 'a', 'g', 'e']) {
        return Option::Some(Token::BonusDamage);
    }
    if chars_equal(w, &['D', 'e', 'f', 'e', 'n', 's', 'e']) {
        return Option::Some(Token::Defense);
    }
    if chars_equal(w, &['H', 'e', 'a', 'l', 't', 'h']) {
        return Option::Some(Token::Health);
    }
    if chars_equal(w, &['I', 'm', 'm', 'u', 'n', 'i', 't', 'y']) {
        return Option::Some(Token::Immunity);
    }
    if chars_equal(w, &['L', 'a', 'n', 'g', 'u', 'a', 'g', 'e']) {
        return Option::Some(Token::Language);
    }
    if chars_equal(w, &['M', 'a', 'g', 'i', 'c', 'T', 'a', 'l', 'e', 'n', 't']) {
        return Option::Some(Token::MagicTalent);
    }
    if chars_equal(w, &['N', 'a', 't', 'D', 'e', 'f']) {
        return Option::Some(Token::NatDef);
    }
    if chars_equal(w, &['N', 'o', 'v', 'i', 'c', 'e', 'S', 'p', 'e', 'l', 'l']) {
        return Option::Some(Token::NoviceSpell);
    }
    if chars_equal(w, &['E', 'x', 'p', 'e', 'r', 't', 'S', 'p', 'e', 'l', 'l']) {
        return Option::Some(Token::ExpertSpell);
    }
    if chars_equal(w, &['M', 'a', 's', 't', 'e', 'r', 'S', 'p', 'e', 'l', 'l']) {
        return Option::Some(Token::MasterSpell);
    }
    if chars_equal(w, &['P', 'r', 'o', 'f', 'e', 's', 's', 'i', 'o', 'n']) {
        return Option::Some(Token::Profession);
    }
    if chars_equal(w, &['S', 'c', 'o', 'r', 'e']) {
        return Option::Some(Token::Score);
    }
    if chars_equal(w, &['S', 'e', 'n', 's', 'e']) {
        return Option::Some(Token::Sense);
    }
    if chars_equal(w, &['S', 'p', 'e', 'e', 'd']) {
        return Option::Some(Token::Speed);
    }
    if chars_equal(w, &['S', 'p', 'e', 'e', 'd', 'T', 'r', 'a', 'i', 't']) {
        return Option::Some(Token::SpeedTrait);
    }
    if chars_equal(w, &['S', 't', 'a', 't', 'B', 'l', 'o', 'c', 'k']) {
        return Option::Some(Token::StatBlock);
    }
    if chars_equal(w, &['M', 'e', 'r', 'g', 'e']) {
        return Option::Some(Token::Merge);
    }
    if chars_equal(w, &['T', 'a', 'l', 'e', 'n', 't']) {
        return Option::Some(Token::Talent);
    }
    if chars_equal(w, &['T', 'r', 'a', 'd', 'i', 't', 'i', 'o', 'n']) {
        return Option::Some(Token::Tradition);
    }
    if chars_equal(w, &['H', 'e', 'a', 'l']) {
        return Option::Some(Token::Heal);
    }
    if chars_equal(w, &['S', 'E', 'L', 'E', 'C', 'T']) {
        return Option::Some(Token::Select);
    }
    if chars_equal(w, &['S', 'E', 'L', 'E', 'C', 'T', '_', 'A', 'G', 'A', 'I', 'N']) {
        return Option::Some(Token::SelectAgain);
    }
    if chars_equal(w, &['S', 'l', 'o', 't']) {
        return Option::Some(Token::Slot);
    }
    if chars_equal(w, &['C', 'a', 'l', 'c']) {
        return Option::Some(Token::Calc);
    }
    if chars_equal(w, &['A', 's', 'k']) {
        return Option::Some(Token::Ask);
    }
    if chars_equal(w, &['I', 'F']) {
        return Option::Some(Token::IfCase);
    }
    if chars_equal(w, &['H', 'A', 'S', 'N', 'O', 'T']) {
        return Option::Some(Token::HasNotCase);
    }
    if chars_equal(w, &['H', 'A', 'S']) {
        return Option::Some(Token::HasCase);
    }
    Option::None
}

fn timed_token_of(w: &Vec<char>) -> (r: Option<Token>)
    ensures r.deep_view() == timed_token(w@),
{
    if chars_equal(w, &['1', 'm']) {
        return Option::Some(Token::OneMin);
    }
    if chars_equal(w, &['1', 'h']) {
        return Option::Some(Token::OneHour);
    }
    if chars_equal(w, &['4', 'h']) {
        return Option::Some(Token::FourHour);
    }
    if chars_equal(w, &['8', 'h']) {
        return Option::Some(Token::EightHour);
    }
    if chars_equal(w, &['2', '4', 'h']) {
        return Option::Some(Token::OneDay);
    }
    if chars_equal(w, &['1', 'd']) {
        return Option::Some(Token::OneDay);
    }
    if chars_equal(w, &['r', 'e', 's', 't']) {
        return Option::Some(Token::Rest);
    }
    Option::None
}

/// Whether two character sequences are equal.
pub fn chars_equal(w: &Vec<char>, lit: &[char]) -> (b: bool)
    ensures
        b <==> w@ == lit@,
{
    if w.len() != lit.len() {
        return false;
    }
    let mut k: usize = 0;
    while k < w.len()
        invariant
            w.len() == lit@.len(),
            k <= w.len(),
            forall|j: int| 0 <= j < k ==> w@[j] == lit@[j],
        decreases w.len() - k,
    {
        if w[k] != lit[k] {
            return false;
        }
        k += 1;
    }
    assert(w@ =~= lit@);
    true
}

/// Characters skipped between tokens.
pub open spec fn is_skipped(c: char) -> bool {
    c == ' ' || c == '\n' || c == '\t'
}

pub open spec fn is_digit(c: char) -> bool {
    '0' <= c <= '9'
}

/// Characters that can make up a word: ASCII letters and digits, `-`, `_` and `'`.
pub open spec fn is_word_char(c: char) -> bool {
    ('a' <= c <= 'z') || ('A' <= c <= 'Z') || is_digit(c) || c == '-' || c == '_' || c == '\''
}

/// Number of word characters in `s` from position `j` on.
pub open spec fn word_run(s: Seq<char>, j: int) -> int
    decreases s.len() - j,
{
    if 0 <= j < s.len() && is_word_char(s[j]) {
        1 + word_run(s, j + 1)
    } else {
        0
    }
}

/// Number of digits in `s` from position `j` on.
pub open spec fn digit_run(s: Seq<char>, j: int) -> int
    decreases s.len() - j,
{
    if 0 <= j < s.len() && is_digit(s[j]) {
        1 + digit_run(s, j + 1)
    } else {
        0
    }
}

/// Position of the first `q` in `s` at or after `j`.
pub open spec fn find_char(s: Seq<char>, j: int, q: char) -> Option<int>
    decreases s.len() - j,
{
    if 0 <= j < s.len() {
        if s[j] == q {
            Option::Some(j)
        } else {
            find_char(s, j + 1, q)
        }
    } else {
        Option::None
    }
}

/// Value of a sequence of decimal digits.
pub open spec fn digits_value(w: Seq<char>) -> int
    decreases w.len(),
{
    if w.len() == 0 {
        0
    } else {
        10 * digits_value(w.drop_last()) + (w.last() as int - 48)
    }
}

pub open spec fn all_digits(w: Seq<char>) -> bool {
    digit_run(w, 0) == w.len()
}

/// A roll such as `3d6` or `12D4`: digits, `d` or `D`, digits.
pub open spec fn is_dice(w: Seq<char>) -> bool {
    let k = digit_run(w, 0);
    &&& k >= 1
    &&& k + 1 < w.len()
    &&& (w[k] == 'd' || w[k] == 'D')
    &&& digit_run(w, k + 1) == w.len() - (k + 1)
}

pub open spec fn starts_with(s: Seq<char>, i: int, p: Seq<char>) -> bool {
    0 <= i && i + p.len() <= s.len() && s.subrange(i, i + p.len()) == p
}

/// Single-character tokens.
pub open spec fn punct_token(c: char) -> Option<SpecToken> {
    if c == '.' {
        Option::Some(SpecToken::Dot)
    } else if c == ',' {
        Option::Some(SpecToken::Comma)
    } else if c == '/' {
        Option::Some(SpecToken::Slash)
    } else if c == '@' {
        Option::Some(SpecToken::ConditionMarker)
    } else if c == '=' {
        Option::Some(SpecToken::Equals)
    } else if c == '(' {
        Option::Some(SpecToken::OpenParen)
    } else if c == ')' {
        Option::Some(SpecToken::CloseParen)
    } else if c == ';' {
        Option::Some(SpecToken::Semicolon)
    } else if c == '+' {
        Option::Some(SpecToken::Plus)
    } else if c == '*' {
        Option::Some(SpecToken::Times)
    } else if c == ']' {
        Option::Some(SpecToken::EmptyCast)
    } else {
        Option::None
    }
}

/// The outcome of reading one token: the token and how many characters it took, text that no
/// token matches, or a number too large for an `i32`.
pub enum Scan {
    Tok(SpecToken, int),
    Bad,
    Overflow,
}

/// Reads a word that does not start with a quote.
pub open spec fn scan_word(s: Seq<char>, i: int) -> Scan {
    let r = word_run(s, i);
    let w = s.subrange(i, i + r);
    if i + r < s.len() && s[i + r] == ']' && timed_token(w) is Some {
        Scan::Tok(timed_token(w)->0, r + 1)
    } else if keyword_token(w) is Some {
        Scan::Tok(keyword_token(w)->0, r)
    } else if all_digits(w) {
        if digits_value(w) <= i32::MAX {
            Scan::Tok(SpecToken::Number(digits_value(w) as i32), r)
        } else {
            Scan::Overflow
        }
    } else if is_dice(w) {
        Scan::Tok(SpecToken::Dice(ascii_lower(w)), r)
    } else {
        Scan::Tok(SpecToken::Identifier(w), r)
    }
}

/// Reads at a `'`: a quoted string when the quote closes no earlier than the word would end,
/// the word otherwise.
pub open spec fn scan_single_quoted(s: Seq<char>, i: int) -> Scan {
    let r = word_run(s, i);
    match find_char(s, i + 1, '\'') {
        Option::Some(j) => if j >= i + 2 && j - i + 1 >= r {
            Scan::Tok(SpecToken::String(s.subrange(i + 1, j)), j - i + 1)
        } else {
            Scan::Tok(SpecToken::Identifier(s.subrange(i, i + r)), r)
        },
        Option::None => Scan::Tok(SpecToken::Identifier(s.subrange(i, i + r)), r),
    }
}

/// Reads at a `"`: a non-empty string up to the next `"`.
pub open spec fn scan_double_quoted(s: Seq<char>, i: int) -> Scan {
    match find_char(s, i + 1, '"') {
        Option::Some(j) => if j >= i + 2 {
            Scan::Tok(SpecToken::String(s.subrange(i + 1, j)), j - i + 1)
        } else {
            Scan::Bad
        },
        Option::None => Scan::Bad,
    }
}

/// Reads at a `[`: `[PERM]`, `[CAST!` or `[CAST`.
pub open spec fn scan_bracket(s: Seq<char>, i: int) -> Scan {
    if starts_with(s, i, seq!['[', 'P', 'E', 'R', 'M', ']']) {
        Scan::Tok(SpecToken::Perm, 6)
    } else if starts_with(s, i, seq!['[', 'C', 'A', 'S', 'T', '!']) {
        Scan::Tok(SpecToken::CastDismiss, 6)
    } else if starts_with(s, i, seq!['[', 'C', 'A', 'S', 'T']) {
        Scan::Tok(SpecToken::Cast, 5)
    } else {
        Scan::Bad
    }
}

/// Reads the token that starts at position `i`.
pub open spec fn scan(s: Seq<char>, i: int) -> Scan {
    let c = s[i];
    if c == '"' {
        scan_double_quoted(s, i)
    } else if c == '\'' {
        scan_single_quoted(s, i)
    } else if is_word_char(c) {
        scan_word(s, i)
    } else if c == '[' {
        scan_bracket(s, i)
    } else if c == '>' {
        if i + 1 < s.len() && s[i + 1] == '=' {
            Scan::Tok(SpecToken::GtEq, 2)
        } else {
            Scan::Tok(SpecToken::Gt, 1)
        }
    } else if c == '<' {
        if i + 1 < s.len() && s[i + 1] == '=' {
            Scan::Tok(SpecToken::LtEq, 2)
        } else {
            Scan::Tok(SpecToken::Lt, 1)
        }
    } else {
        match punct_token(c) {
            Option::Some(t) => Scan::Tok(t, 1),
            Option::None => Scan::Bad,
        }
    }
}

/// How the token sequence ends: at the end of the text, at text that no token matches, or at a
/// number too large for an `i32`.
#[derive(Clone, Copy, Debug)]
pub enum LexEnd {
    Done,
    Bad,
    Overflow,
}

/// The tokens of a text, in order, and how they end.
pub struct Tokens {
    pub toks: Vec<Token>,
    pub end: LexEnd,
}

pub struct SpecTokens {
    pub toks: Seq<SpecToken>,
    pub end: LexEnd,
}

impl DeepView for Tokens {
    type V = SpecTokens;

    open spec fn deep_view(&self) -> SpecTokens {
        SpecTokens { toks: self.toks.deep_view(), end: self.end }
    }
}

pub proof fn lemma_word_run_bounds(s: Seq<char>, j: int)
    requires
        0 <= j <= s.len(),
    ensures
        0 <= word_run(s, j) <= s.len() - j,
    decreases s.len() - j,
{
    if j < s.len() && is_word_char(s[j]) {
        lemma_word_run_bounds(s, j + 1);
    }
}

pub proof fn lemma_find_char_bounds(s: Seq<char>, j: int, q: char)
    requires
        0 <= j,
    ensures
        find_char(s, j, q) matches Option::Some(k) ==> j <= k < s.len() && s[k] == q,
    decreases s.len() - j,
{
    if 0 <= j < s.len() && s[j] != q {
        lemma_find_char_bounds(s, j + 1, q);
    }
}

/// Every token takes at least one character and no more than are left.
pub proof fn lemma_scan_advances(s: Seq<char>, i: int)
    requires
        0 <= i < s.len(),
    ensures
        scan(s, i) matches Scan::Tok(_, n) ==> 1 <= n <= s.len() - i,
{
    lemma_word_run_bounds(s, i);
    lemma_word_run_bounds(s, i + 1);
    lemma_find_char_bounds(s, i + 1, '\'');
    lemma_find_char_bounds(s, i + 1, '"');
    let c = s[i];
    if is_word_char(c) {
        assert(word_run(s, i) == 1 + word_run(s, i + 1));
    }
}

/// The tokens of `s` from position `i` on.
pub open spec fn lex_from(s: Seq<char>, i: int) -> SpecTokens
    decreases s.len() - i,
{
    if i < 0 || i >= s.len() {
        SpecTokens { toks: seq![], end: LexEnd::Done }
    } else if is_skipped(s[i]) {
        lex_from(s, i + 1)
    } else {
        match scan(s, i) {
            Scan::Tok(t, n) => {
                proof {
                    lemma_scan_advances(s, i);
                }
                let rest = lex_from(s, i + n);
                SpecTokens { toks: seq![t] + rest.toks, end: rest.end }
            },
            Scan::Bad => SpecTokens { toks: seq![], end: LexEnd::Bad },
            Scan::Overflow => SpecTokens { toks: seq![], end: LexEnd::Overflow },
        }
    }
}

/// The tokens of a whole text.
pub open spec fn lex_spec(s: Seq<char>) -> SpecTokens {
    lex_from(s, 0)
}


pub fn is_word_char_exec(c: char) -> (b: bool)
    ensures
        b == is_word_char(c),
{
    ('a' <= c && c <= 'z') || ('A' <= c && c <= 'Z') || ('0' <= c && c <= '9') || c == '-' || c
        == '_' || c == '\''
}

pub fn word_run_exec(s: &Vec<char>, i: usize) -> (r: usize)
    requires
        i <= s.len(),
    ensures
        r as int == word_run(s@, i as int),
        i + r <= s.len(),
{
    let mut k = i;
    while k < s.len() && is_word_char_exec(s[k])
        invariant
            i <= k <= s.len(),
            word_run(s@, i as int) == (k - i) + word_run(s@, k as int),
        decreases s.len() - k,
    {
        k += 1;
    }
    k - i
}

pub fn digit_run_exec(s: &Vec<char>, i: usize) -> (r: usize)
    requires
        i <= s.len(),
    ensures
        r as int == digit_run(s@, i as int),
        i + r <= s.len(),
{
    let mut k = i;
    while k < s.len() && '0' <= s[k] && s[k] <= '9'
        invariant
            i <= k <= s.len(),
            digit_run(s@, i as int) == (k - i) + digit_run(s@, k as int),
        decreases s.len() - k,
    {
        k += 1;
    }
    k - i
}

pub fn find_char_exec(s: &Vec<char>, j: usize, q: char) -> (r: Option<usize>)
    requires
        j <= s.len(),
    ensures
        match r {
            Option::Some(k) => find_char(s@, j as int, q) == Option::Some(k as int),
            Option::None => find_char(s@, j as int, q) is None,
        },
{
    let mut k = j;
    while k < s.len()
        invariant
            j <= k <= s.len(),
            find_char(s@, j as int, q) == find_char(s@, k as int, q),
        decreases s.len() - k,
    {
        if s[k] == q {
            return Option::Some(k);
        }
        k += 1;
    }
    Option::None
}


/// Copies `s[lo..hi]`.
pub fn copy_range(s: &Vec<char>, lo: usize, hi: usize) -> (w: Vec<char>)
    requires
        lo <= hi <= s.len(),
    ensures
        w@ == s@.subrange(lo as int, hi as int),
{
    let mut w: Vec<char> = Vec::new();
    let mut k = lo;
    while k < hi
        invariant
            lo <= k <= hi <= s.len(),
            w@ == s@.subrange(lo as int, k as int),
        decreases hi - k,
    {
        w.push(s[k]);
        k += 1;
        assert(w@ =~= s@.subrange(lo as int, k as int));
    }
    w
}

/// The ASCII lowercase of a character vector, as a string.
pub fn lower_string(w: &Vec<char>) -> (s: String)
    ensures
        s@ == ascii_lower(w@),
{
    let mut s = String::new();
    let mut k: usize = 0;
    while k < w.len()
        invariant
            k <= w.len(),
            s@ == ascii_lower(w@.subrange(0, k as int)),
        decreases w.len() - k,
    {
        let c = to_lower_char(w[k]);
        push_char(&mut s, c);
        k += 1;
        assert(s@ =~= ascii_lower(w@.subrange(0, k as int)));
    }
    assert(w@.subrange(0, w@.len() as int) =~= w@);
    s
}

/// One more than the largest `i32`: the value at which digit sequences stop being counted.
pub open spec fn value_cap() -> int {
    2147483648
}

pub open spec fn capped(x: int) -> int {
    if x >= value_cap() {
        value_cap()
    } else {
        x
    }
}

pub proof fn lemma_digit_run_all(w: Seq<char>, j: int)
    requires
        0 <= j <= w.len(),
        digit_run(w, j) == w.len() - j,
    ensures
        forall|k: int| j <= k < w.len() ==> is_digit(#[trigger] w[k]),
    decreases w.len() - j,
{
    if j < w.len() {
        lemma_digit_run_all(w, j + 1);
    }
}

pub proof fn lemma_digits_nonneg(w: Seq<char>)
    requires
        forall|k: int| 0 <= k < w.len() ==> is_digit(#[trigger] w[k]),
    ensures
        digits_value(w) >= 0,
    decreases w.len(),
{
    if w.len() > 0 {
        lemma_digits_nonneg(w.drop_last());
    }
}

/// The value of the digits `w[lo..hi]`, capped at one more than the largest `i32`.
pub fn digits_value_capped(w: &Vec<char>, lo: usize, hi: usize) -> (v: u64)
    requires
        lo <= hi <= w.len(),
        forall|k: int| lo <= k < hi ==> is_digit(#[trigger] w@[k]),
    ensures
        v as int == capped(digits_value(w@.subrange(lo as int, hi as int))),
{
    let mut v: u64 = 0;
    let mut k = lo;
    assert(w@.subrange(lo as int, lo as int) =~= Seq::<char>::empty());
    while k < hi
        invariant
            lo <= k <= hi <= w.len(),
            forall|m: int| lo <= m < hi ==> is_digit(#[trigger] w@[m]),
            v as int == capped(digits_value(w@.subrange(lo as int, k as int))),
            digits_value(w@.subrange(lo as int, k as int)) >= 0,
        decreases hi - k,
    {
        let d = (w[k] as u64) - 48;
        let ghost before = w@.subrange(lo as int, k as int);
        let ghost after = w@.subrange(lo as int, k + 1);
        assert(after.drop_last() =~= before);
        assert(digits_value(after) == 10 * digits_value(before) + d);
        let next = 10 * v + d;
        v = if next >= 2147483648 { 2147483648 } else { next };
        k += 1;
    }
    v
}

/// The outcome of reading one token.
pub enum ScanOut {
    Tok(Token, usize),
    Bad,
    Overflow,
}

impl DeepView for ScanOut {
    type V = Scan;

    open spec fn deep_view(&self) -> Scan {
        match self {
            ScanOut::Tok(t, n) => Scan::Tok(t.deep_view(), *n as int),
            ScanOut::Bad => Scan::Bad,
            ScanOut::Overflow => Scan::Overflow,
        }
    }
}

fn scan_word_exec(s: &Vec<char>, i: usize) -> (r: ScanOut)
    requires
        i < s.len(),
    ensures
        r.deep_view() == scan_word(s@, i as int),
{
    let r = word_run_exec(s, i);
    let w = copy_range(s, i, i + r);
    if i + r < s.len() && s[i + r] == ']' {
        if let Option::Some(t) = timed_token_of(&w) {
            return ScanOut::Tok(t, r + 1);
        }
    }
    if let Option::Some(t) = keyword_token_of(&w) {
        return ScanOut::Tok(t, r);
    }
    let k = digit_run_exec(&w, 0);
    if k == w.len() {
        proof {
            lemma_digit_run_all(w@, 0);
            assert(w@.subrange(0, w@.len() as int) =~= w@);
        }
        let v = digits_value_capped(&w, 0, w.len());
        if v <= 2147483647 {
            return ScanOut::Tok(Token::Number(v as i32), r);
        } else {
            return ScanOut::Overflow;
        }
    }
    if k >= 1 && k + 1 < w.len() && (w[k] == 'd' || w[k] == 'D') {
        let m = digit_run_exec(&w, k + 1);
        if m == w.len() - (k + 1) {
            return ScanOut::Tok(Token::Dice(lower_string(&w)), r);
        }
    }
    let text = string_of_chars_local(&w);
    ScanOut::Tok(Token::Identifier(text), r)
}

fn string_of_chars_local(w: &Vec<char>) -> (s: String)
    ensures
        s@ == w@,
{
    crate::text::string_of_chars(w)
}

fn scan_single_quoted_exec(s: &Vec<char>, i: usize) -> (r: ScanOut)
    requires
        i < s.len(),
    ensures
        r.deep_view() == scan_single_quoted(s@, i as int),
{
    let r = word_run_exec(s, i);
    match find_char_exec(s, i + 1, '\'') {
        Option::Some(j) => {
            proof {
                lemma_find_char_bounds(s@, i + 1, '\'');
            }
            if j >= i + 2 && j - i + 1 >= r {
                let text = crate::text::string_of_range(s, i + 1, j);
                ScanOut::Tok(Token::String(text), j - i + 1)
            } else {
                let text = crate::text::string_of_range(s, i, i + r);
                ScanOut::Tok(Token::Identifier(text), r)
            }
        },
        Option::None => {
            let text = crate::text::string_of_range(s, i, i + r);
            ScanOut::Tok(Token::Identifier(text), r)
        },
    }
}

fn scan_double_quoted_exec(s: &Vec<char>, i: usize) -> (r: ScanOut)
    requires
        i < s.len(),
    ensures
        r.deep_view() == scan_double_quoted(s@, i as int),
{
    match find_char_exec(s, i + 1, '"') {
        Option::Some(j) => {
            proof {
                lemma_find_char_bounds(s@, i + 1, '"');
            }
            if j >= i + 2 {
                let text = crate::text::string_of_range(s, i + 1, j);
                ScanOut::Tok(Token::String(text), j - i + 1)
            } else {
                ScanOut::Bad
            }
        },
        Option::None => ScanOut::Bad,
    }
}

fn starts_with_exec(s: &Vec<char>, i: usize, p: &[char]) -> (b: bool)
    requires
        i <= s.len(),
    ensures
        b == starts_with(s@, i as int, p@),
{
    if p.len() > s.len() - i {
        return false;
    }
    let mut k: usize = 0;
    while k < p.len()
        invariant
            i + p@.len() <= s.len(),
            k <= p@.len(),
            forall|m: int| 0 <= m < k ==> s@[i + m] == p@[m],
        decreases p.len() - k,
    {
        if s[i + k] != p[k] {
            assert(s@.subrange(i as int, i + p@.len())[k as int] != p@[k as int]);
            return false;
        }
        k += 1;
    }
    assert(s@.subrange(i as int, i + p@.len()) =~= p@);
    true
}

fn scan_bracket_exec(s: &Vec<char>, i: usize) -> (r: ScanOut)
    requires
        i < s.len(),
    ensures
        r.deep_view() == scan_bracket(s@, i as int),
{
    let perm = ['[', 'P', 'E', 'R', 'M', ']'];
    let dismiss = ['[', 'C', 'A', 'S', 'T', '!'];
    let cast = ['[', 'C', 'A', 'S', 'T'];
    assert(perm@ == seq!['[', 'P', 'E', 'R', 'M', ']']);
    assert(dismiss@ == seq!['[', 'C', 'A', 'S', 'T', '!']);
    assert(cast@ == seq!['[', 'C', 'A', 'S', 'T']);
    if starts_with_exec(s, i, &perm) {
        ScanOut::Tok(Token::Perm, 6)
    } else if starts_with_exec(s, i, &dismiss) {
        ScanOut::Tok(Token::CastDismiss, 6)
    } else if starts_with_exec(s, i, &cast) {
        ScanOut::Tok(Token::Cast, 5)
    } else {
        ScanOut::Bad
    }
}

fn punct_token_of(c: char) -> (r: Option<Token>)
    ensures
        r.deep_view() == punct_token(c),
{
    if c == '.' {
        Option::Some(Token::Dot)
    } else if c == ',' {
        Option::Some(Token::Comma)
    } else if c == '/' {
        Option::Some(Token::Slash)
    } else if c == '@' {
        Option::Some(Token::ConditionMarker)
    } else if c == '=' {
        Option::Some(Token::Equals)
    } else if c == '(' {
        Option::Some(Token::OpenParen)
    } else if c == ')' {
        Option::Some(Token::CloseParen)
    } else if c == ';' {
        Option::Some(Token::Semicolon)
    } else if c == '+' {
        Option::Some(Token::Plus)
    } else if c == '*' {
        Option::Some(Token::Times)
    } else if c == ']' {
        Option::Some(Token::EmptyCast)
    } else {
        Option::None
    }
}

fn scan_exec(s: &Vec<char>, i: usize) -> (r: ScanOut)
    requires
        i < s.len(),
    ensures
        r.deep_view() == scan(s@, i as int),
{
    let c = s[i];
    if c == '"' {
        scan_double_quoted_exec(s, i)
    } else if c == '\'' {
        scan_single_quoted_exec(s, i)
    } else if is_word_char_exec(c) {
        scan_word_exec(s, i)
    } else if c == '[' {
        scan_bracket_exec(s, i)
    } else if c == '>' {
        if i + 1 < s.len() && s[i + 1] == '=' {
            ScanOut::Tok(Token::GtEq, 2)
        } else {
            ScanOut::Tok(Token::Gt, 1)
        }
    } else if c == '<' {
        if i + 1 < s.len() && s[i + 1] == '=' {
            ScanOut::Tok(Token::LtEq, 2)
        } else {
            ScanOut::Tok(Token::Lt, 1)
        }
    } else {
        match punct_token_of(c) {
            Option::Some(t) => ScanOut::Tok(t, 1),
            Option::None => ScanOut::Bad,
        }
    }
}

/// Splits a text into the tokens of the modifier language.
pub fn lex(s: &Vec<char>) -> (ts: Tokens)
    ensures
        ts.deep_view() == lex_spec(s@),
{
    let mut toks: Vec<Token> = Vec::new();
    let mut i: usize = 0;
    loop
        invariant
            i <= s.len(),
            lex_spec(s@).toks == toks.deep_view() + lex_from(s@, i as int).toks,
            lex_spec(s@).end == lex_from(s@, i as int).end,
        decreases s.len() - i,
    {
        if i >= s.len() {
            assert(toks.deep_view() + Seq::<SpecToken>::empty() =~= toks.deep_view());
            return Tokens { toks, end: LexEnd::Done };
        }
        if s[i] == ' ' || s[i] == '\n' || s[i] == '\t' {
            i += 1;
        } else {
            proof {
                lemma_scan_advances(s@, i as int);
            }
            match scan_exec(s, i) {
                ScanOut::Tok(t, n) => {
                    let ghost before = toks.deep_view();
                    let ghost tv = t.deep_view();
                    toks.push(t);
                    assert(toks.deep_view() =~= before.push(tv));
                    assert(lex_from(s@, i as int).toks =~= seq![tv] + lex_from(
                        s@,
                        i + n,
                    ).toks);
                    i = i + n;
                    assert(lex_spec(s@).toks =~= toks.deep_view() + lex_from(s@, i as int).toks);
                },
                ScanOut::Bad => {
                    assert(toks.deep_view() + Seq::<SpecToken>::empty() =~= toks.deep_view());
                    return Tokens { toks, end: LexEnd::Bad };
                },
                ScanOut::Overflow => {
                    assert(toks.deep_view() + Seq::<SpecToken>::empty() =~= toks.deep_view());
                    return Tokens { toks, end: LexEnd::Overflow };
                },
            }
        }
    }
}

} // verus!
