//! The syntax tree of the modifier language.
use vstd::prelude::*;
use crate::text::{int_decimal, i64_to_string};

verus! {

/// One modifier: when it applies, what it does, and under which condition.
#[derive(Debug)]
pub struct Modifier {
    pub when: WhenMod,
    pub target: Target,
    pub condition: Condition,
}

#[derive(Debug)]
pub enum Target {
    Grant(GrantTarget),
    Lose(LoseTarget),
    Override(OverrideTarget),
    Choose(ChooseTarget),
    Apply(ApplyTarget),
}

#[derive(Debug, Clone, Copy)]
pub enum WhenDuration {
    OneMinute,
    OneHour,
    FourHours,
    EightHours,
    OneDay,
    Rest,
}

#[derive(Debug, Clone, Copy)]
pub enum WhenMod {
    Permanent,
    CastOnce,
    CastTime(WhenDuration),
    CastTimeDismiss(WhenDuration),
}

/// What a GRANT gives: everything but stat blocks, healing and slots.
#[derive(Debug)]
pub enum GrantTarget {
    Int(i32),
    Str(i32),
    Will(i32),
    Agl(i32),
    Speed(i32),
    Health(i32),
    Defense(i32),
    NatDef(i32),
    BonusDamage(i32),
    Language(Vec<String>),
    Tradition(Vec<String>),
    Sense(Vec<String>),
    Immunity(Vec<String>),
    SpeedTrait(Vec<String>),
    Talent(String, String),
    MagicTalent(String, String),
}

/// What a LOSE takes away: only talents and magic talents.
#[derive(Debug)]
pub enum LoseTarget {
    Talent(String, String),
    MagicTalent(String, String),
}

/// What an OVERRIDE replaces: speed, defense, or the whole stat block.
#[derive(Debug)]
pub enum OverrideTarget {
    Speed(i32),
    Defense(i32),
    StatBlock(String),
}

/// What a CHOOSE asks the player to pick, and how many times.
#[derive(Debug)]
pub enum ChooseTarget {
    Language(u32),
    Profession(u32),
    Tradition(u32),
    NoviceSpell(u32),
    NoviceSpellFrom(u32, Vec<String>),
    ExpertSpell(u32),
    ExpertSpellFrom(u32, Vec<String>),
    MasterSpell(u32),
    MasterSpellFrom(u32, Vec<String>),
    Select(u32, String),
    SelectAgain(u32, String),
    Score(u32),
    /// A talent of the named tradition: asked for when a tradition is granted.
    MagicTalent(u32, String),
}

/// What an APPLY does once: heal, restore health, or restore spell slots.
#[derive(Debug)]
pub enum ApplyTarget {
    Heal(HealAmount),
    Health(HealAmount),
    Slots(SlotsTarget),
}

#[derive(Debug)]
pub enum HealAmount {
    Number(i32),
    Expr(SimpleExpr),
    Roll(Dice),
    Ask(String),
}

#[derive(Debug)]
pub enum SlotsTarget {
    AnySpell(u32),
    NoviceSpell(u32),
    ExpertSpell(u32),
    MasterSpell(u32),
    Tradition(u32, String),
    SpecificSpell(u32, String, String),
}

#[derive(Debug, Clone, Copy)]
pub struct Dice {
    pub die_size: i32,
    pub die_count: i32,
}

#[derive(Debug)]
pub enum HasCategory {
    SpeedTrait(String),
    Sense(String),
}

/// A value, optionally followed by an operator and a second value.
#[derive(Debug, Clone, Copy)]
pub struct SimpleExpr {
    pub left: ExprValue,
    pub right: Option<(ExprOp, ExprValue)>,
}

#[derive(Debug, Clone, Copy)]
pub enum ExprValue {
    Health,
    Dmg,
    Level,
    Defense,
    Number(i32),
}

/// The text of an expression value.
pub open spec fn expr_value_text(v: ExprValue) -> Seq<char> {
    match v {
        ExprValue::Health => "Health"@,
        ExprValue::Dmg => "Dmg"@,
        ExprValue::Level => "Level"@,
        ExprValue::Defense => "Defense"@,
        ExprValue::Number(x) => int_decimal(x as int),
    }
}

impl ExprValue {
    pub fn to_str(&self) -> (s: String)
        ensures
            s@ == expr_value_text(*self),
    {
        match self {
            ExprValue::Health => String::from_str("Health"),
            ExprValue::Dmg => String::from_str("Dmg"),
            ExprValue::Level => String::from_str("Level"),
            ExprValue::Defense => String::from_str("Defense"),
            ExprValue::Number(x) => i64_to_string(*x as i64),
        }
    }
}

#[derive(Debug, Clone, Copy)]
pub enum ExprOp {
    Lt,
    Gt,
    LtEq,
    GtEq,
    Eq,
    Div,
}

/// The text of an expression operator.
pub open spec fn expr_op_text(op: ExprOp) -> Seq<char> {
    match op {
        ExprOp::Lt => "<"@,
        ExprOp::Gt => ">"@,
        ExprOp::LtEq => "<="@,
        ExprOp::GtEq => ">="@,
        ExprOp::Eq => "="@,
        ExprOp::Div => "/"@,
    }
}

impl ExprOp {
    pub fn to_str(&self) -> (s: String)
        ensures
            s@ == expr_op_text(*self),
    {
        match self {
            ExprOp::Lt => String::from_str("<"),
            ExprOp::Gt => String::from_str(">"),
            ExprOp::LtEq => String::from_str("<="),
            ExprOp::GtEq => String::from_str(">="),
            ExprOp::Eq => String::from_str("="),
            ExprOp::Div => String::from_str("/"),
        }
    }
}

/// When a modifier holds. `Always` is the modifier without a condition.
#[derive(Debug)]
pub enum Condition {
    Always,
    HasNot,
    Has(HasCategory),
    If(SimpleExpr),
}

impl Clone for HasCategory {
    fn clone(&self) -> (r: Self)
        ensures
            r.deep_view() == self.deep_view(),
    {
        match self {
            HasCategory::SpeedTrait(s) => HasCategory::SpeedTrait(s.clone()),
            HasCategory::Sense(s) => HasCategory::Sense(s.clone()),
        }
    }
}

impl Clone for Condition {
    fn clone(&self) -> (r: Self)
        ensures
            r.deep_view() == self.deep_view(),
    {
        match self {
            Condition::Always => Condition::Always,
            Condition::HasNot => Condition::HasNot,
            Condition::Has(h) => Condition::Has(h.clone()),
            Condition::If(e) => Condition::If(*e),
        }
    }
}

/// A copy of a list of names.
pub fn clone_names(v: &Vec<String>) -> (r: Vec<String>)
    ensures
        r.deep_view() == v.deep_view(),
{
    let mut r: Vec<String> = Vec::new();
    let mut k: usize = 0;
    while k < v.len()
        invariant
            k <= v.len(),
            r.deep_view() == v.deep_view().take(k as int),
        decreases v.len() - k,
    {
        let ghost before = r.deep_view();
        r.push(v[k].clone());
        proof {
            assert(r.deep_view() =~= before.push(v.deep_view()[k as int]));
            assert(v.deep_view().take(k + 1) =~= v.deep_view().take(k as int).push(
                v.deep_view()[k as int],
            ));
        }
        k += 1;
    }
    proof {
        assert(v.deep_view().take(k as int) =~= v.deep_view());
    }
    r
}

impl Clone for GrantTarget {
    fn clone(&self) -> (r: Self)
        ensures
            r.deep_view() == self.deep_view(),
    {
        match self {
            GrantTarget::Int(x) => GrantTarget::Int(*x),
            GrantTarget::Str(x) => GrantTarget::Str(*x),
            GrantTarget::Will(x) => GrantTarget::Will(*x),
            GrantTarget::Agl(x) => GrantTarget::Agl(*x),
            GrantTarget::Speed(x) => GrantTarget::Speed(*x),
            GrantTarget::Health(x) => GrantTarget::Health(*x),
            GrantTarget::Defense(x) => GrantTarget::Defense(*x),
            GrantTarget::NatDef(x) => GrantTarget::NatDef(*x),
            GrantTarget::BonusDamage(x) => GrantTarget::BonusDamage(*x),
            GrantTarget::Language(v) => GrantTarget::Language(clone_names(v)),
            GrantTarget::Tradition(v) => GrantTarget::Tradition(clone_names(v)),
            GrantTarget::Sense(v) => GrantTarget::Sense(clone_names(v)),
            GrantTarget::Immunity(v) => GrantTarget::Immunity(clone_names(v)),
            GrantTarget::SpeedTrait(v) => GrantTarget::SpeedTrait(clone_names(v)),
            GrantTarget::Talent(a, b) => GrantTarget::Talent(a.clone(), b.clone()),
            GrantTarget::MagicTalent(a, b) => GrantTarget::MagicTalent(a.clone(), b.clone()),
        }
    }
}

impl Clone for LoseTarget {
    fn clone(&self) -> (r: Self)
        ensures
            r.deep_view() == self.deep_view(),
    {
        match self {
            LoseTarget::Talent(a, b) => LoseTarget::Talent(a.clone(), b.clone()),
            LoseTarget::MagicTalent(a, b) => LoseTarget::MagicTalent(a.clone(), b.clone()),
        }
    }
}

impl Clone for OverrideTarget {
    fn clone(&self) -> (r: Self)
        ensures
            r.deep_view() == self.deep_view(),
    {
        match self {
            OverrideTarget::Speed(x) => OverrideTarget::Speed(*x),
            OverrideTarget::Defense(x) => OverrideTarget::Defense(*x),
            OverrideTarget::StatBlock(s) => OverrideTarget::StatBlock(s.clone()),
        }
    }
}

impl Clone for ChooseTarget {
    fn clone(&self) -> (r: Self)
        ensures
            r.deep_view() == self.deep_view(),
    {
        match self {
            ChooseTarget::Language(m) => ChooseTarget::Language(*m),
            ChooseTarget::Profession(m) => ChooseTarget::Profession(*m),
            ChooseTarget::Tradition(m) => ChooseTarget::Tradition(*m),
            ChooseTarget::NoviceSpell(m) => ChooseTarget::NoviceSpell(*m),
            ChooseTarget::NoviceSpellFrom(m, v) => ChooseTarget::NoviceSpellFrom(*m, clone_names(v)),
            ChooseTarget::ExpertSpell(m) => ChooseTarget::ExpertSpell(*m),
            ChooseTarget::ExpertSpellFrom(m, v) => ChooseTarget::ExpertSpellFrom(*m, clone_names(v)),
            ChooseTarget::MasterSpell(m) => ChooseTarget::MasterSpell(*m),
            ChooseTarget::MasterSpellFrom(m, v) => ChooseTarget::MasterSpellFrom(*m, clone_names(v)),
            ChooseTarget::Select(m, s) => ChooseTarget::Select(*m, s.clone()),
            ChooseTarget::SelectAgain(m, s) => ChooseTarget::SelectAgain(*m, s.clone()),
            ChooseTarget::Score(m) => ChooseTarget::Score(*m),
            ChooseTarget::MagicTalent(m, t) => ChooseTarget::MagicTalent(*m, t.clone()),
        }
    }
}

impl Clone for HealAmount {
    fn clone(&self) -> (r: Self)
        ensures
            r.deep_view() == self.deep_view(),
    {
        match self {
            HealAmount::Number(x) => HealAmount::Number(*x),
            HealAmount::Expr(e) => HealAmount::Expr(*e),
            HealAmount::Roll(d) => HealAmount::Roll(*d),
            HealAmount::Ask(s) => HealAmount::Ask(s.clone()),
        }
    }
}

impl Clone for SlotsTarget {
    fn clone(&self) -> (r: Self)
        ensures
            r.deep_view() == self.deep_view(),
    {
        match self {
            SlotsTarget::AnySpell(m) => SlotsTarget::AnySpell(*m),
            SlotsTarget::NoviceSpell(m) => SlotsTarget::NoviceSpell(*m),
            SlotsTarget::ExpertSpell(m) => SlotsTarget::ExpertSpell(*m),
            SlotsTarget::MasterSpell(m) => SlotsTarget::MasterSpell(*m),
            SlotsTarget::Tradition(m, t) => SlotsTarget::Tradition(*m, t.clone()),
            SlotsTarget::SpecificSpell(m, t, s) => SlotsTarget::SpecificSpell(*m, t.clone(), s.clone()),
        }
    }
}

impl Clone for ApplyTarget {
    fn clone(&self) -> (r: Self)
        ensures
            r.deep_view() == self.deep_view(),
    {
        match self {
            ApplyTarget::Heal(h) => ApplyTarget::Heal(h.clone()),
            ApplyTarget::Health(h) => ApplyTarget::Health(h.clone()),
            ApplyTarget::Slots(t) => ApplyTarget::Slots(t.clone()),
        }
    }
}

impl Clone for Target {
    fn clone(&self) -> (r: Self)
        ensures
            r.deep_view() == self.deep_view(),
    {
        match self {
            Target::Grant(t) => Target::Grant(t.clone()),
            Target::Lose(t) => Target::Lose(t.clone()),
            Target::Override(t) => Target::Override(t.clone()),
            Target::Choose(t) => Target::Choose(t.clone()),
            Target::Apply(t) => Target::Apply(t.clone()),
        }
    }
}

impl Clone for Modifier {
    fn clone(&self) -> (r: Self)
        ensures
            r.deep_view() == self.deep_view(),
    {
        Modifier { when: self.when, target: self.target.clone(), condition: self.condition.clone() }
    }
}

#[derive(Debug)]
pub struct ModOptions {
    pub when: WhenMod,
    pub condition: Condition,
}

// The same tree as the contracts see it: text is a character sequence.

pub struct SpecModifier {
    pub when: WhenMod,
    pub target: SpecTarget,
    pub condition: SpecCondition,
}

pub enum SpecTarget {
    Grant(SpecGrantTarget),
    Lose(SpecLoseTarget),
    Override(SpecOverrideTarget),
    Choose(SpecChooseTarget),
    Apply(SpecApplyTarget),
}

pub enum SpecGrantTarget {
    Int(i32),
    Str(i32),
    Will(i32),
    Agl(i32),
    Speed(i32),
    Health(i32),
    Defense(i32),
    NatDef(i32),
    BonusDamage(i32),
    Language(Seq<Seq<char>>),
    Tradition(Seq<Seq<char>>),
    Sense(Seq<Seq<char>>),
    Immunity(Seq<Seq<char>>),
    SpeedTrait(Seq<Seq<char>>),
    Talent(Seq<char>, Seq<char>),
    MagicTalent(Seq<char>, Seq<char>),
}

pub enum SpecLoseTarget {
    Talent(Seq<char>, Seq<char>),
    MagicTalent(Seq<char>, Seq<char>),
}

pub enum SpecOverrideTarget {
    Speed(i32),
    Defense(i32),
    StatBlock(Seq<char>),
}

pub enum SpecChooseTarget {
    Language(u32),
    Profession(u32),
    Tradition(u32),
    NoviceSpell(u32),
    NoviceSpellFrom(u32, Seq<Seq<char>>),
    ExpertSpell(u32),
    ExpertSpellFrom(u32, Seq<Seq<char>>),
    MasterSpell(u32),
    MasterSpellFrom(u32, Seq<Seq<char>>),
    Select(u32, Seq<char>),
    SelectAgain(u32, Seq<char>),
    Score(u32),
    MagicTalent(u32, Seq<char>),
}

pub enum SpecApplyTarget {
    Heal(SpecHealAmount),
    Health(SpecHealAmount),
    Slots(SpecSlotsTarget),
}

pub enum SpecHealAmount {
    Number(i32),
    Expr(SimpleExpr),
    Roll(Dice),
    Ask(Seq<char>),
}

pub enum SpecSlotsTarget {
    AnySpell(u32),
    NoviceSpell(u32),
    ExpertSpell(u32),
    MasterSpell(u32),
    Tradition(u32, Seq<char>),
    SpecificSpell(u32, Seq<char>, Seq<char>),
}

pub enum SpecHasCategory {
    SpeedTrait(Seq<char>),
    Sense(Seq<char>),
}

pub enum SpecCondition {
    Always,
    HasNot,
    Has(SpecHasCategory),
    If(SimpleExpr),
}

impl DeepView for Modifier {
    type V = SpecModifier;

    open spec fn deep_view(&self) -> SpecModifier {
        SpecModifier {
            when: self.when,
            target: self.target.deep_view(),
            condition: self.condition.deep_view(),
        }
    }
}

impl DeepView for Target {
    type V = SpecTarget;

    open spec fn deep_view(&self) -> SpecTarget {
        match self {
            Target::Grant(t) => SpecTarget::Grant(t.deep_view()),
            Target::Lose(t) => SpecTarget::Lose(t.deep_view()),
            Target::Override(t) => SpecTarget::Override(t.deep_view()),
            Target::Choose(t) => SpecTarget::Choose(t.deep_view()),
            Target::Apply(t) => SpecTarget::Apply(t.deep_view()),
        }
    }
}

impl DeepView for GrantTarget {
    type V = SpecGrantTarget;

    open spec fn deep_view(&self) -> SpecGrantTarget {
        match self {
            GrantTarget::Int(x) => SpecGrantTarget::Int(*x),
            GrantTarget::Str(x) => SpecGrantTarget::Str(*x),
            GrantTarget::Will(x) => SpecGrantTarget::Will(*x),
            GrantTarget::Agl(x) => SpecGrantTarget::Agl(*x),
            GrantTarget::Speed(x) => SpecGrantTarget::Speed(*x),
            GrantTarget::Health(x) => SpecGrantTarget::Health(*x),
            GrantTarget::Defense(x) => SpecGrantTarget::Defense(*x),
            GrantTarget::NatDef(x) => SpecGrantTarget::NatDef(*x),
            GrantTarget::BonusDamage(x) => SpecGrantTarget::BonusDamage(*x),
            GrantTarget::Language(v) => SpecGrantTarget::Language(v.deep_view()),
            GrantTarget::Tradition(v) => SpecGrantTarget::Tradition(v.deep_view()),
            GrantTarget::Sense(v) => SpecGrantTarget::Sense(v.deep_view()),
            GrantTarget::Immunity(v) => SpecGrantTarget::Immunity(v.deep_view()),
            GrantTarget::SpeedTrait(v) => SpecGrantTarget::SpeedTrait(v.deep_view()),
            GrantTarget::Talent(a, b) => SpecGrantTarget::Talent(a@, b@),
            GrantTarget::MagicTalent(a, b) => SpecGrantTarget::MagicTalent(a@, b@),
        }
    }
}

impl DeepView for LoseTarget {
    type V = SpecLoseTarget;

    open spec fn deep_view(&self) -> SpecLoseTarget {
        match self {
            LoseTarget::Talent(a, b) => SpecLoseTarget::Talent(a@, b@),
            LoseTarget::MagicTalent(a, b) => SpecLoseTarget::MagicTalent(a@, b@),
        }
    }
}

impl DeepView for OverrideTarget {
    type V = SpecOverrideTarget;

    open spec fn deep_view(&self) -> SpecOverrideTarget {
        match self {
            OverrideTarget::Speed(x) => SpecOverrideTarget::Speed(*x),
            OverrideTarget::Defense(x) => SpecOverrideTarget::Defense(*x),
            OverrideTarget::StatBlock(s) => SpecOverrideTarget::StatBlock(s@),
        }
    }
}

impl DeepView for ChooseTarget {
    type V = SpecChooseTarget;

    open spec fn deep_view(&self) -> SpecChooseTarget {
        match self {
            ChooseTarget::Language(m) => SpecChooseTarget::Language(*m),
            ChooseTarget::Profession(m) => SpecChooseTarget::Profession(*m),
            ChooseTarget::Tradition(m) => SpecChooseTarget::Tradition(*m),
            ChooseTarget::NoviceSpell(m) => SpecChooseTarget::NoviceSpell(*m),
            ChooseTarget::NoviceSpellFrom(m, v) => SpecChooseTarget::NoviceSpellFrom(
                *m,
                v.deep_view(),
            ),
            ChooseTarget::ExpertSpell(m) => SpecChooseTarget::ExpertSpell(*m),
            ChooseTarget::ExpertSpellFrom(m, v) => SpecChooseTarget::ExpertSpellFrom(
                *m,
                v.deep_view(),
            ),
            ChooseTarget::MasterSpell(m) => SpecChooseTarget::MasterSpell(*m),
            ChooseTarget::MasterSpellFrom(m, v) => SpecChooseTarget::MasterSpellFrom(
                *m,
                v.deep_view(),
            ),
            ChooseTarget::Select(m, s) => SpecChooseTarget::Select(*m, s@),
            ChooseTarget::SelectAgain(m, s) => SpecChooseTarget::SelectAgain(*m, s@),
            ChooseTarget::Score(m) => SpecChooseTarget::Score(*m),
            ChooseTarget::MagicTalent(m, t) => SpecChooseTarget::MagicTalent(*m, t@),
        }
    }
}

impl DeepView for ApplyTarget {
    type V = SpecApplyTarget;

    open spec fn deep_view(&self) -> SpecApplyTarget {
        match self {
            ApplyTarget::Heal(h) => SpecApplyTarget::Heal(h.deep_view()),
            ApplyTarget::Health(h) => SpecApplyTarget::Health(h.deep_view()),
            ApplyTarget::Slots(s) => SpecApplyTarget::Slots(s.deep_view()),
        }
    }
}

impl DeepView for HealAmount {
    type V = SpecHealAmount;

    open spec fn deep_view(&self) -> SpecHealAmount {
        match self {
            HealAmount::Number(x) => SpecHealAmount::Number(*x),
            HealAmount::Expr(e) => SpecHealAmount::Expr(*e),
            HealAmount::Roll(d) => SpecHealAmount::Roll(*d),
            HealAmount::Ask(s) => SpecHealAmount::Ask(s@),
        }
    }
}

impl DeepView for SlotsTarget {
    type V = SpecSlotsTarget;

    open spec fn deep_view(&self) -> SpecSlotsTarget {
        match self {
            SlotsTarget::AnySpell(m) => SpecSlotsTarget::AnySpell(*m),
            SlotsTarget::NoviceSpell(m) => SpecSlotsTarget::NoviceSpell(*m),
            SlotsTarget::ExpertSpell(m) => SpecSlotsTarget::ExpertSpell(*m),
            SlotsTarget::MasterSpell(m) => SpecSlotsTarget::MasterSpell(*m),
            SlotsTarget::Tradition(m, t) => SpecSlotsTarget::Tradition(*m, t@),
            SlotsTarget::SpecificSpell(m, t, s) => SpecSlotsTarget::SpecificSpell(*m, t@, s@),
        }
    }
}

impl DeepView for HasCategory {
    type V = SpecHasCategory;

    open spec fn deep_view(&self) -> SpecHasCategory {
        match self {
            HasCategory::SpeedTrait(s) => SpecHasCategory::SpeedTrait(s@),
            HasCategory::Sense(s) => SpecHasCategory::Sense(s@),
        }
    }
}

impl DeepView for Condition {
    type V = SpecCondition;

    open spec fn deep_view(&self) -> SpecCondition {
        match self {
            Condition::Always => SpecCondition::Always,
            Condition::HasNot => SpecCondition::HasNot,
            Condition::Has(h) => SpecCondition::Has(h.deep_view()),
            Condition::If(e) => SpecCondition::If(*e),
        }
    }
}

impl DeepView for SimpleExpr {
    type V = SimpleExpr;

    open spec fn deep_view(&self) -> SimpleExpr {
        *self
    }
}

impl DeepView for Dice {
    type V = Dice;

    open spec fn deep_view(&self) -> Dice {
        *self
    }
}

impl DeepView for ExprValue {
    type V = ExprValue;

    open spec fn deep_view(&self) -> ExprValue {
        *self
    }
}

impl DeepView for ExprOp {
    type V = ExprOp;

    open spec fn deep_view(&self) -> ExprOp {
        *self
    }
}

impl DeepView for WhenMod {
    type V = WhenMod;

    open spec fn deep_view(&self) -> WhenMod {
        *self
    }
}

impl DeepView for WhenDuration {
    type V = WhenDuration;

    open spec fn deep_view(&self) -> WhenDuration {
        *self
    }
}

} // verus!
