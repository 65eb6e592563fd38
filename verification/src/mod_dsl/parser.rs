//! The parser of the modifier language.
//!
//! A modifier text starts with when its modifiers apply (`NONE`, `[PERM]`, `[CAST ..]`,
//! `[CAST! ..]`, or directly an `APPLY`), followed by modifiers separated by semicolons. Each
//! modifier is a GRANT, LOSE, OVERRIDE, CHOOSE or APPLY with its target, optionally followed by
//! `@` and a condition.
//!
//! The specification reads the token sequence the way the parser walks it: a position moves
//! forward as tokens are taken, a peek looks at the token under the position without taking
//! it. Failures carry the message the parser reports. Some inputs make the parser stop without
//! a result (a number too large for an `i32`, or a negative count of choices); the
//! specification marks them as aborted; `parse_mods` leaves them out by its precondition and
//! `parse_mods_checked` reports them.
use vstd::prelude::*;
use crate::text::{ascii_upper, to_upper_char, upper_char, int_decimal};
use crate::mod_dsl::ast::{
    ApplyTarget, ChooseTarget, Condition, Dice, ExprOp, ExprValue, GrantTarget, HasCategory,
    HealAmount, LoseTarget, Modifier, OverrideTarget, SimpleExpr, SlotsTarget, Target,
    WhenDuration, WhenMod, SpecModifier, SpecTarget, SpecGrantTarget, SpecLoseTarget,
    SpecOverrideTarget, SpecChooseTarget, SpecApplyTarget, SpecHealAmount, SpecSlotsTarget,
    SpecHasCategory, SpecCondition, expr_value_text, expr_op_text,
};
use crate::mod_dsl::lexer::{
    Token, SpecToken, Tokens, SpecTokens, LexEnd, token_debug, token_debug_string, clone_token,
    lex, lex_spec, digit_run, digits_value, capped, value_cap, digit_run_exec,
    digits_value_capped, lemma_digit_run_all, is_digit,
};

verus! {

/// Why parsing stopped: a message, or a stop without a result.
pub enum Fail {
    Msg(Seq<char>),
    Abort,
}

/// How an executable parsing step fails: with the message the user sees, or by stopping where
/// the parser cannot go on.
#[derive(Debug)]
pub enum ParseFail {
    Msg(String),
    Stop,
}

pub open spec fn aborts<T>(r: Result<T, Fail>) -> bool {
    r matches Result::Err(Fail::Abort)
}

/// What is under a position: a token, text no token matches, the end of the input, or a number
/// too large for an `i32`.
pub enum Access {
    Tok(SpecToken),
    Bad,
    Eoi,
    Abort,
}

pub open spec fn access(ts: SpecTokens, p: int) -> Access {
    if 0 <= p < ts.toks.len() {
        Access::Tok(ts.toks[p])
    } else {
        match ts.end {
            LexEnd::Done => Access::Eoi,
            LexEnd::Bad => Access::Bad,
            LexEnd::Overflow => Access::Abort,
        }
    }
}

pub open spec fn msg_invalid() -> Seq<char> {
    "Unexpected issue parsing token, invalid grammar"@
}

pub open spec fn msg_end() -> Seq<char> {
    "Unexpected end of input"@
}

/// A message that quotes a token between two texts.
pub open spec fn token_msg(prefix: Seq<char>, t: SpecToken, suffix: Seq<char>) -> Seq<char> {
    prefix + token_debug(t) + suffix
}

/// Takes the token under the position.
pub open spec fn spec_ut(ts: SpecTokens, p: int) -> Result<(SpecToken, int), Fail> {
    match access(ts, p) {
        Access::Tok(t) => Result::Ok((t, p + 1)),
        Access::Bad => Result::Err(Fail::Msg(msg_invalid())),
        Access::Eoi => Result::Err(Fail::Msg(msg_end())),
        Access::Abort => Result::Err(Fail::Abort),
    }
}

pub open spec fn spec_eat_dot(ts: SpecTokens, p: int) -> Result<((), int), Fail> {
    match spec_ut(ts, p) {
        Result::Ok((t, q)) => if t is Dot {
            Result::Ok(((), q))
        } else {
            Result::Err(Fail::Msg(token_msg("Expected a dot '.', instead found '"@, t, "'"@)))
        },
        Result::Err(e) => Result::Err(e),
    }
}

pub open spec fn spec_eat_close_paren(ts: SpecTokens, p: int) -> Result<((), int), Fail> {
    match spec_ut(ts, p) {
        Result::Ok((t, q)) => if t is CloseParen {
            Result::Ok(((), q))
        } else {
            Result::Err(
                Fail::Msg(token_msg("Expected a close paren ')', instead found '"@, t, "'"@)),
            )
        },
        Result::Err(e) => Result::Err(e),
    }
}

pub open spec fn spec_eat_open_paren(ts: SpecTokens, p: int) -> Result<((), int), Fail> {
    match spec_ut(ts, p) {
        Result::Ok((t, q)) => if t is OpenParen {
            Result::Ok(((), q))
        } else {
            Result::Err(
                Fail::Msg(token_msg("Expected an open paren '(', instead found '"@, t, "'"@)),
            )
        },
        Result::Err(e) => Result::Err(e),
    }
}

pub open spec fn spec_eat_equal_sign(ts: SpecTokens, p: int) -> Result<((), int), Fail> {
    match spec_ut(ts, p) {
        Result::Ok((t, q)) => if t is Equals {
            Result::Ok(((), q))
        } else {
            Result::Err(
                Fail::Msg(token_msg("Expected an equal sign '=', instead found '"@, t, "'"@)),
            )
        },
        Result::Err(e) => Result::Err(e),
    }
}

pub open spec fn spec_parse_number(ts: SpecTokens, p: int) -> Result<(i32, int), Fail> {
    match spec_ut(ts, p) {
        Result::Ok((t, q)) => match t {
            SpecToken::Number(v) => Result::Ok((v, q)),
            _ => Result::Err(Fail::Msg(token_msg("Expected number, instead found '"@, t, "'"@))),
        },
        Result::Err(e) => Result::Err(e),
    }
}

/// An identifier, or a quoted string where an identifier is expected.
pub open spec fn spec_parse_ident(ts: SpecTokens, p: int) -> Result<(Seq<char>, int), Fail> {
    match spec_ut(ts, p) {
        Result::Ok((t, q)) => match t {
            SpecToken::Identifier(s) => Result::Ok((s, q)),
            SpecToken::String(s) => Result::Ok((s, q)),
            _ => Result::Err(
                Fail::Msg(token_msg("Expected identifier, instead found '"@, t, "'"@)),
            ),
        },
        Result::Err(e) => Result::Err(e),
    }
}

pub open spec fn spec_parse_string(ts: SpecTokens, p: int) -> Result<(Seq<char>, int), Fail> {
    match spec_ut(ts, p) {
        Result::Ok((t, q)) => match t {
            SpecToken::String(s) => Result::Ok((s, q)),
            _ => Result::Err(Fail::Msg(token_msg("Expected string, instead found '"@, t, "'"@))),
        },
        Result::Err(e) => Result::Err(e),
    }
}

/// The rest of a comma-separated list, after the identifiers `acc`.
pub open spec fn spec_comma_rest(ts: SpecTokens, p: int, acc: Seq<Seq<char>>) -> Result<
    (Seq<Seq<char>>, int),
    Fail,
>
    decreases ts.toks.len() - p,
{
    match access(ts, p) {
        Access::Abort => Result::Err(Fail::Abort),
        Access::Tok(SpecToken::Comma) => match spec_parse_ident(ts, p + 1) {
            Result::Ok((s, q)) => spec_comma_rest(ts, q, acc.push(s)),
            Result::Err(e) => Result::Err(e),
        },
        _ => Result::Ok((acc, p)),
    }
}

pub open spec fn spec_parse_comma_list(ts: SpecTokens, p: int) -> Result<
    (Seq<Seq<char>>, int),
    Fail,
> {
    match spec_parse_ident(ts, p) {
        Result::Ok((s, q)) => spec_comma_rest(ts, q, seq![s]),
        Result::Err(e) => Result::Err(e),
    }
}

/// An optional `(n)` count; 1 when absent.
pub open spec fn spec_parse_multiplier(ts: SpecTokens, p: int) -> Result<(i32, int), Fail> {
    match access(ts, p) {
        Access::Bad => Result::Err(Fail::Msg(msg_invalid())),
        Access::Abort => Result::Err(Fail::Abort),
        Access::Tok(SpecToken::OpenParen) => match spec_parse_number(ts, p + 1) {
            Result::Ok((v, q)) => match spec_eat_close_paren(ts, q) {
                Result::Ok((_, q2)) => Result::Ok((v, q2)),
                Result::Err(e) => Result::Err(e),
            },
            Result::Err(e) => Result::Err(e),
        },
        _ => Result::Ok((1, p)),
    }
}

/// The count as an unsigned number; a negative count stops the parser.
pub open spec fn spec_multiplier_u32(ts: SpecTokens, p: int) -> Result<(u32, int), Fail> {
    match spec_parse_multiplier(ts, p) {
        Result::Ok((m, q)) => if m < 0 {
            Result::Err(Fail::Abort)
        } else {
            Result::Ok((m as u32, q))
        },
        Result::Err(e) => Result::Err(e),
    }
}

pub open spec fn spec_parse_choose_spell_subcategory(ts: SpecTokens, p: int) -> Result<
    (Option<Seq<Seq<char>>>, int),
    Fail,
> {
    match access(ts, p) {
        Access::Abort => Result::Err(Fail::Abort),
        Access::Tok(SpecToken::Dot) => match spec_eat_dot(ts, p) {
            Result::Ok((_, q)) => match spec_parse_comma_list(ts, q) {
                Result::Ok((v, q2)) => Result::Ok((Option::Some(v), q2)),
                Result::Err(e) => Result::Err(e),
            },
            Result::Err(e) => Result::Err(e),
        },
        _ => Result::Ok((Option::None, p)),
    }
}

/// The digits before the `d` of a roll.
pub open spec fn dice_count_text(roll: Seq<char>) -> Seq<char> {
    roll.subrange(0, digit_run(roll, 0))
}

/// The digits after the `d` of a roll.
pub open spec fn dice_size_text(roll: Seq<char>) -> Seq<char> {
    let k = digit_run(roll, 0);
    if k + 1 <= roll.len() {
        roll.subrange(k + 1, k + 1 + digit_run(roll, k + 1))
    } else {
        seq![]
    }
}

/// A roll such as `3d6`: both counts must be positive.
pub open spec fn spec_parse_dice(roll: Seq<char>) -> Result<Dice, Fail> {
    let count = digits_value(dice_count_text(roll));
    let size = digits_value(dice_size_text(roll));
    if count > i32::MAX || size > i32::MAX {
        Result::Err(Fail::Abort)
    } else if count < 1 {
        Result::Err(Fail::Msg("Expected ROLL to have positive die count"@))
    } else if size < 1 {
        Result::Err(Fail::Msg("Expected ROLL to have positive die size"@))
    } else {
        Result::Ok(Dice { die_count: count as i32, die_size: size as i32 })
    }
}

/// An expression being read: the values and the operator seen so far.
#[derive(Clone, Copy)]
pub struct TmpExpr {
    pub left: Option<ExprValue>,
    pub op: Option<ExprOp>,
    pub right: Option<ExprValue>,
}

pub open spec fn empty_tmp() -> TmpExpr {
    TmpExpr { left: Option::None, op: Option::None, right: Option::None }
}

pub open spec fn spec_push_value(t: TmpExpr, v: ExprValue) -> Result<TmpExpr, Fail> {
    if t.left is None {
        Result::Ok(TmpExpr { left: Option::Some(v), ..t })
    } else if t.right is None {
        if t.op is Some {
            Result::Ok(TmpExpr { right: Option::Some(v), ..t })
        } else {
            Result::Err(
                Fail::Msg(
                    "Expected operator while parsing expression, received value '"@
                        + expr_value_text(v) + "'"@,
                ),
            )
        }
    } else {
        Result::Err(
            Fail::Msg(
                "Unexpected value while parsing expression, received value '"@ + expr_value_text(
                    v,
                ) + "'"@,
            ),
        )
    }
}

pub open spec fn spec_push_op(t: TmpExpr, op: ExprOp) -> Result<TmpExpr, Fail> {
    if t.left is Some && t.op is None {
        Result::Ok(TmpExpr { op: Option::Some(op), ..t })
    } else {
        Result::Err(
            Fail::Msg(
                "Expected value while parsing expression, received operator '"@ + expr_op_text(op)
                    + "'"@,
            ),
        )
    }
}

/// An expression under construction is well formed where a right value comes only after an
/// operator, and an operator only after a left value. Pushing values and operators keeps this.
pub open spec fn tmp_wf(t: TmpExpr) -> bool {
    &&& (t.right is Some ==> t.op is Some)
    &&& (t.op is Some ==> t.left is Some)
}

/// Finishing an expression: a single value stands alone, and `value op value` keeps all three
/// parts. A right value without an operator cannot be finished.
pub open spec fn spec_to_expr(t: TmpExpr) -> Result<SimpleExpr, Fail> {
    if t.left is None {
        Result::Err(Fail::Msg("Empty expression, shame on you"@))
    } else if t.right is None && t.op is Some {
        Result::Err(Fail::Msg("Unterminated expression, it shouldn't end with an operator"@))
    } else if t.right is Some {
        match t.op {
            Option::Some(o) => Result::Ok(
                SimpleExpr { left: t.left->0, right: Option::Some((o, t.right->0)) },
            ),
            Option::None => Result::Err(Fail::Abort),
        }
    } else {
        Result::Ok(SimpleExpr { left: t.left->0, right: Option::None })
    }
}

/// Pushing values and operators keeps an expression well formed, and a well-formed
/// expression always finishes, with a result or a message.
pub proof fn lemma_tmp_wf_kept(t: TmpExpr, v: ExprValue, op: ExprOp)
    requires
        tmp_wf(t),
    ensures
        tmp_wf(empty_tmp()),
        spec_push_value(t, v) matches Result::Ok(t2) ==> tmp_wf(t2),
        spec_push_op(t, op) matches Result::Ok(t2) ==> tmp_wf(t2),
        !aborts(spec_to_expr(t)),
{
}

/// The value that an identifier names in a calculation, by its uppercase text.
pub open spec fn expr_ident_value(text: Seq<char>) -> Option<ExprValue> {
    let up = ascii_upper(text);
    if up == seq!['D', 'E', 'F'] {
        Option::Some(ExprValue::Defense)
    } else if up == seq!['D', 'M', 'G'] {
        Option::Some(ExprValue::Dmg)
    } else if up == seq!['L', 'E', 'V', 'E', 'L'] {
        Option::Some(ExprValue::Level)
    } else if up == seq!['H', 'E', 'A', 'L', 'T', 'H'] {
        Option::Some(ExprValue::Health)
    } else {
        Option::None
    }
}

pub open spec fn expr_op_of(t: SpecToken) -> Option<ExprOp> {
    match t {
        SpecToken::Equals => Option::Some(ExprOp::Eq),
        SpecToken::Gt => Option::Some(ExprOp::Gt),
        SpecToken::GtEq => Option::Some(ExprOp::GtEq),
        SpecToken::Lt => Option::Some(ExprOp::Lt),
        SpecToken::LtEq => Option::Some(ExprOp::LtEq),
        SpecToken::Slash => Option::Some(ExprOp::Div),
        _ => Option::None,
    }
}

/// The rest of a calculation up to its closing parenthesis.
pub open spec fn spec_expr_rest(ts: SpecTokens, p: int, tmp: TmpExpr) -> Result<
    (SimpleExpr, int),
    Fail,
>
    decreases ts.toks.len() - p,
{
    match spec_ut(ts, p) {
        Result::Err(e) => Result::Err(e),
        Result::Ok((t, q)) => match t {
            SpecToken::CloseParen => match spec_to_expr(tmp) {
                Result::Ok(e) => Result::Ok((e, q)),
                Result::Err(f) => Result::Err(f),
            },
            SpecToken::Identifier(text) => match expr_ident_value(text) {
                Option::Some(v) => match spec_push_value(tmp, v) {
                    Result::Ok(tmp2) => spec_expr_rest(ts, q, tmp2),
                    Result::Err(f) => Result::Err(f),
                },
                Option::None => Result::Err(
                    Fail::Msg(
                        "Unknown identifier '"@ + text + "' while parsing expression"@,
                    ),
                ),
            },
            SpecToken::Number(n) => match spec_push_value(tmp, ExprValue::Number(n)) {
                Result::Ok(tmp2) => spec_expr_rest(ts, q, tmp2),
                Result::Err(f) => Result::Err(f),
            },
            _ => match expr_op_of(t) {
                Option::Some(op) => match spec_push_op(tmp, op) {
                    Result::Ok(tmp2) => spec_expr_rest(ts, q, tmp2),
                    Result::Err(f) => Result::Err(f),
                },
                Option::None => Result::Err(
                    Fail::Msg(
                        token_msg("Unexpected token '"@, t, "' while parsing expression"@),
                    ),
                ),
            },
        },
    }
}

pub open spec fn spec_parse_simple_expression(ts: SpecTokens, p: int) -> Result<
    (SimpleExpr, int),
    Fail,
> {
    match spec_eat_open_paren(ts, p) {
        Result::Ok((_, q)) => spec_expr_rest(ts, q, empty_tmp()),
        Result::Err(e) => Result::Err(e),
    }
}


pub open spec fn spec_parse_apply_heal_info(ts: SpecTokens, p: int) -> Result<
    (SpecHealAmount, int),
    Fail,
> {
    match spec_eat_dot(ts, p) {
        Result::Err(e) => Result::Err(e),
        Result::Ok((_, p1)) => match spec_ut(ts, p1) {
            Result::Err(e) => Result::Err(e),
            Result::Ok((t, p2)) => match t {
                SpecToken::Number(a) => Result::Ok((SpecHealAmount::Number(a), p2)),
                SpecToken::Dice(roll) => match spec_parse_dice(roll) {
                    Result::Ok(d) => Result::Ok((SpecHealAmount::Roll(d), p2)),
                    Result::Err(e) => Result::Err(e),
                },
                SpecToken::Calc => match spec_parse_simple_expression(ts, p2) {
                    Result::Ok((e, p3)) => Result::Ok((SpecHealAmount::Expr(e), p3)),
                    Result::Err(e) => Result::Err(e),
                },
                SpecToken::Ask => match spec_eat_open_paren(ts, p2) {
                    Result::Err(e) => Result::Err(e),
                    Result::Ok((_, p3)) => match spec_parse_string(ts, p3) {
                        Result::Err(e) => Result::Err(e),
                        Result::Ok((s, p4)) => match spec_eat_close_paren(ts, p4) {
                            Result::Err(e) => Result::Err(e),
                            Result::Ok((_, p5)) => Result::Ok((SpecHealAmount::Ask(s), p5)),
                        },
                    },
                },
                _ => Result::Err(
                    Fail::Msg(
                        token_msg("Expected APPLY HEAL/HEALTH target, instead found '"@, t, "'"@),
                    ),
                ),
            },
        },
    }
}

pub open spec fn spec_parse_slot_target(ts: SpecTokens, p: int) -> Result<
    (SpecSlotsTarget, int),
    Fail,
> {
    match spec_eat_dot(ts, p) {
        Result::Err(e) => Result::Err(e),
        Result::Ok((_, p1)) => match spec_ut(ts, p1) {
            Result::Err(e) => Result::Err(e),
            Result::Ok((t, p2)) => match spec_multiplier_u32(ts, p2) {
                Result::Err(e) => Result::Err(e),
                Result::Ok((m, p3)) => match t {
                    SpecToken::NoviceSpell => Result::Ok((SpecSlotsTarget::NoviceSpell(m), p3)),
                    SpecToken::ExpertSpell => Result::Ok((SpecSlotsTarget::ExpertSpell(m), p3)),
                    SpecToken::MasterSpell => Result::Ok((SpecSlotsTarget::MasterSpell(m), p3)),
                    SpecToken::Identifier(trad) => if ascii_upper(trad) == seq!['A', 'N', 'Y'] {
                        Result::Ok((SpecSlotsTarget::AnySpell(m), p3))
                    } else {
                        match access(ts, p3) {
                            Access::Abort => Result::Err(Fail::Abort),
                            Access::Tok(SpecToken::Dot) => match spec_eat_dot(ts, p3) {
                                Result::Err(e) => Result::Err(e),
                                Result::Ok((_, p4)) => match spec_parse_ident(ts, p4) {
                                    Result::Err(e) => Result::Err(e),
                                    Result::Ok((spell, p5)) => Result::Ok(
                                        (SpecSlotsTarget::SpecificSpell(m, trad, spell), p5),
                                    ),
                                },
                            },
                            _ => Result::Ok((SpecSlotsTarget::Tradition(m, trad), p3)),
                        }
                    },
                    _ => Result::Err(
                        Fail::Msg(token_msg("Expected a SLOT target, instead found '"@, t, "'"@)),
                    ),
                },
            },
        },
    }
}

pub open spec fn spec_parse_has_case(ts: SpecTokens, p: int) -> Result<
    (SpecHasCategory, int),
    Fail,
> {
    match spec_eat_dot(ts, p) {
        Result::Err(e) => Result::Err(e),
        Result::Ok((_, p1)) => match spec_ut(ts, p1) {
            Result::Err(e) => Result::Err(e),
            Result::Ok((t, p2)) => match t {
                SpecToken::Sense => match spec_eat_dot(ts, p2) {
                    Result::Err(e) => Result::Err(e),
                    Result::Ok((_, p3)) => match spec_parse_ident(ts, p3) {
                        Result::Err(e) => Result::Err(e),
                        Result::Ok((s, p4)) => Result::Ok((SpecHasCategory::Sense(s), p4)),
                    },
                },
                SpecToken::SpeedTrait => match spec_eat_dot(ts, p2) {
                    Result::Err(e) => Result::Err(e),
                    Result::Ok((_, p3)) => match spec_parse_ident(ts, p3) {
                        Result::Err(e) => Result::Err(e),
                        Result::Ok((s, p4)) => Result::Ok((SpecHasCategory::SpeedTrait(s), p4)),
                    },
                },
                _ => Result::Err(
                    Fail::Msg(
                        token_msg("Expected a HAS condition target, instead found '"@, t, "'"@),
                    ),
                ),
            },
        },
    }
}

pub open spec fn spec_parse_condition(ts: SpecTokens, p: int) -> Result<
    (SpecCondition, int),
    Fail,
> {
    match spec_ut(ts, p) {
        Result::Err(e) => Result::Err(e),
        Result::Ok((t, p1)) => match t {
            SpecToken::HasNotCase => Result::Ok((SpecCondition::HasNot, p1)),
            SpecToken::HasCase => match spec_parse_has_case(ts, p1) {
                Result::Ok((h, p2)) => Result::Ok((SpecCondition::Has(h), p2)),
                Result::Err(e) => Result::Err(e),
            },
            SpecToken::IfCase => match spec_parse_simple_expression(ts, p1) {
                Result::Ok((e, p2)) => Result::Ok((SpecCondition::If(e), p2)),
                Result::Err(e) => Result::Err(e),
            },
            _ => Result::Err(
                Fail::Msg(token_msg("Expected a Condition type, instead found '"@, t, "'"@)),
            ),
        },
    }
}

/// `.n` after a target.
pub open spec fn spec_dot_number(ts: SpecTokens, p: int) -> Result<(i32, int), Fail> {
    match spec_eat_dot(ts, p) {
        Result::Ok((_, q)) => spec_parse_number(ts, q),
        Result::Err(e) => Result::Err(e),
    }
}

/// `.a,b,..` after a target.
pub open spec fn spec_dot_list(ts: SpecTokens, p: int) -> Result<(Seq<Seq<char>>, int), Fail> {
    match spec_eat_dot(ts, p) {
        Result::Ok((_, q)) => spec_parse_comma_list(ts, q),
        Result::Err(e) => Result::Err(e),
    }
}

/// `.name` after a target.
pub open spec fn spec_dot_ident(ts: SpecTokens, p: int) -> Result<(Seq<char>, int), Fail> {
    match spec_eat_dot(ts, p) {
        Result::Ok((_, q)) => spec_parse_ident(ts, q),
        Result::Err(e) => Result::Err(e),
    }
}

/// `.category.name` after a target.
pub open spec fn spec_dot_pair(ts: SpecTokens, p: int) -> Result<
    ((Seq<char>, Seq<char>), int),
    Fail,
> {
    match spec_dot_ident(ts, p) {
        Result::Ok((a, q)) => match spec_dot_ident(ts, q) {
            Result::Ok((b, q2)) => Result::Ok(((a, b), q2)),
            Result::Err(e) => Result::Err(e),
        },
        Result::Err(e) => Result::Err(e),
    }
}

pub open spec fn grant_number(t: SpecToken, n: i32) -> SpecGrantTarget {
    match t {
        SpecToken::Str => SpecGrantTarget::Str(n),
        SpecToken::Agl => SpecGrantTarget::Agl(n),
        SpecToken::Int => SpecGrantTarget::Int(n),
        SpecToken::Will => SpecGrantTarget::Will(n),
        SpecToken::Speed => SpecGrantTarget::Speed(n),
        SpecToken::Health => SpecGrantTarget::Health(n),
        SpecToken::Defense => SpecGrantTarget::Defense(n),
        SpecToken::NatDef => SpecGrantTarget::NatDef(n),
        _ => SpecGrantTarget::BonusDamage(n),
    }
}

pub open spec fn is_grant_number(t: SpecToken) -> bool {
    t is Str || t is Agl || t is Int || t is Will || t is Speed || t is Health || t is Defense
        || t is NatDef || t is BonusDamage
}

pub open spec fn grant_list(t: SpecToken, v: Seq<Seq<char>>) -> SpecGrantTarget {
    match t {
        SpecToken::Tradition => SpecGrantTarget::Tradition(v),
        SpecToken::Language => SpecGrantTarget::Language(v),
        SpecToken::Sense => SpecGrantTarget::Sense(v),
        SpecToken::Immunity => SpecGrantTarget::Immunity(v),
        _ => SpecGrantTarget::SpeedTrait(v),
    }
}

pub open spec fn is_grant_list(t: SpecToken) -> bool {
    t is Tradition || t is Language || t is Sense || t is Immunity || t is SpeedTrait
}

pub open spec fn spec_parse_grant_target(ts: SpecTokens, p: int) -> Result<
    (SpecGrantTarget, int),
    Fail,
> {
    match spec_eat_dot(ts, p) {
        Result::Err(e) => Result::Err(e),
        Result::Ok((_, p1)) => match spec_ut(ts, p1) {
            Result::Err(e) => Result::Err(e),
            Result::Ok((t, p2)) => if is_grant_number(t) {
                match spec_dot_number(ts, p2) {
                    Result::Ok((n, p3)) => Result::Ok((grant_number(t, n), p3)),
                    Result::Err(e) => Result::Err(e),
                }
            } else if is_grant_list(t) {
                match spec_dot_list(ts, p2) {
                    Result::Ok((v, p3)) => Result::Ok((grant_list(t, v), p3)),
                    Result::Err(e) => Result::Err(e),
                }
            } else if t is Talent {
                match spec_dot_pair(ts, p2) {
                    Result::Ok(((a, b), p3)) => Result::Ok((SpecGrantTarget::Talent(a, b), p3)),
                    Result::Err(e) => Result::Err(e),
                }
            } else if t is MagicTalent {
                match spec_dot_pair(ts, p2) {
                    Result::Ok(((a, b), p3)) => Result::Ok(
                        (SpecGrantTarget::MagicTalent(a, b), p3),
                    ),
                    Result::Err(e) => Result::Err(e),
                }
            } else {
                Result::Err(
                    Fail::Msg(token_msg("Expected a GRANT target, instead found '"@, t, "'"@)),
                )
            },
        },
    }
}

pub open spec fn spec_parse_lose_target(ts: SpecTokens, p: int) -> Result<
    (SpecLoseTarget, int),
    Fail,
> {
    match spec_eat_dot(ts, p) {
        Result::Err(e) => Result::Err(e),
        Result::Ok((_, p1)) => match spec_ut(ts, p1) {
            Result::Err(e) => Result::Err(e),
            Result::Ok((t, p2)) => if t is Talent {
                match spec_dot_pair(ts, p2) {
                    Result::Ok(((a, b), p3)) => Result::Ok((SpecLoseTarget::Talent(a, b), p3)),
                    Result::Err(e) => Result::Err(e),
                }
            } else if t is MagicTalent {
                match spec_dot_pair(ts, p2) {
                    Result::Ok(((a, b), p3)) => Result::Ok(
                        (SpecLoseTarget::MagicTalent(a, b), p3),
                    ),
                    Result::Err(e) => Result::Err(e),
                }
            } else {
                Result::Err(
                    Fail::Msg(token_msg("Expected a LOSE target, instead found '"@, t, "'"@)),
                )
            },
        },
    }
}

pub open spec fn spec_parse_override_target(ts: SpecTokens, p: int) -> Result<
    (SpecOverrideTarget, int),
    Fail,
> {
    match spec_eat_dot(ts, p) {
        Result::Err(e) => Result::Err(e),
        Result::Ok((_, p1)) => match spec_ut(ts, p1) {
            Result::Err(e) => Result::Err(e),
            Result::Ok((t, p2)) => match t {
                SpecToken::Speed => match spec_dot_number(ts, p2) {
                    Result::Ok((n, p3)) => Result::Ok((SpecOverrideTarget::Speed(n), p3)),
                    Result::Err(e) => Result::Err(e),
                },
                SpecToken::Defense => match spec_dot_number(ts, p2) {
                    Result::Ok((n, p3)) => Result::Ok((SpecOverrideTarget::Defense(n), p3)),
                    Result::Err(e) => Result::Err(e),
                },
                SpecToken::StatBlock => match spec_dot_ident(ts, p2) {
                    Result::Ok((s, p3)) => Result::Ok((SpecOverrideTarget::StatBlock(s), p3)),
                    Result::Err(e) => Result::Err(e),
                },
                _ => Result::Err(
                    Fail::Msg(token_msg("Expected an OVERRIDE target, instead found '"@, t, "'"@)),
                ),
            },
        },
    }
}

/// A spell choice: from the given traditions when a list follows, from any otherwise.
pub open spec fn spell_choice(t: SpecToken, m: u32, sub: Option<Seq<Seq<char>>>) -> SpecChooseTarget {
    match (t, sub) {
        (SpecToken::NoviceSpell, Option::Some(v)) => SpecChooseTarget::NoviceSpellFrom(m, v),
        (SpecToken::NoviceSpell, Option::None) => SpecChooseTarget::NoviceSpell(m),
        (SpecToken::ExpertSpell, Option::Some(v)) => SpecChooseTarget::ExpertSpellFrom(m, v),
        (SpecToken::ExpertSpell, Option::None) => SpecChooseTarget::ExpertSpell(m),
        (_, Option::Some(v)) => SpecChooseTarget::MasterSpellFrom(m, v),
        (_, Option::None) => SpecChooseTarget::MasterSpell(m),
    }
}

pub open spec fn spec_parse_choose_target(ts: SpecTokens, p: int) -> Result<
    (SpecChooseTarget, int),
    Fail,
> {
    match spec_eat_dot(ts, p) {
        Result::Err(e) => Result::Err(e),
        Result::Ok((_, p1)) => match spec_ut(ts, p1) {
            Result::Err(e) => Result::Err(e),
            Result::Ok((t, p2)) => match spec_multiplier_u32(ts, p2) {
                Result::Err(e) => Result::Err(e),
                Result::Ok((m, p3)) => match t {
                    SpecToken::Language => Result::Ok((SpecChooseTarget::Language(m), p3)),
                    SpecToken::Profession => Result::Ok((SpecChooseTarget::Profession(m), p3)),
                    SpecToken::Tradition => Result::Ok((SpecChooseTarget::Tradition(m), p3)),
                    SpecToken::NoviceSpell | SpecToken::ExpertSpell | SpecToken::MasterSpell => {
                        match spec_parse_choose_spell_subcategory(ts, p3) {
                            Result::Ok((sub, p4)) => Result::Ok((spell_choice(t, m, sub), p4)),
                            Result::Err(e) => Result::Err(e),
                        }
                    },
                    SpecToken::Select => match spec_eat_equal_sign(ts, p3) {
                        Result::Err(e) => Result::Err(e),
                        Result::Ok((_, p4)) => match spec_parse_ident(ts, p4) {
                            Result::Ok((s, p5)) => Result::Ok((SpecChooseTarget::Select(m, s), p5)),
                            Result::Err(e) => Result::Err(e),
                        },
                    },
                    SpecToken::SelectAgain => match spec_eat_equal_sign(ts, p3) {
                        Result::Err(e) => Result::Err(e),
                        Result::Ok((_, p4)) => match spec_parse_ident(ts, p4) {
                            Result::Ok((s, p5)) => Result::Ok(
                                (SpecChooseTarget::SelectAgain(m, s), p5),
                            ),
                            Result::Err(e) => Result::Err(e),
                        },
                    },
                    SpecToken::Score => Result::Ok((SpecChooseTarget::Score(m), p3)),
                    _ => Result::Err(
                        Fail::Msg(token_msg("Expected a CHOOSE target, instead found '"@, t, "'"@)),
                    ),
                },
            },
        },
    }
}

pub open spec fn spec_parse_apply_target(ts: SpecTokens, p: int) -> Result<
    (SpecApplyTarget, int),
    Fail,
> {
    match spec_eat_dot(ts, p) {
        Result::Err(e) => Result::Err(e),
        Result::Ok((_, p1)) => match spec_ut(ts, p1) {
            Result::Err(e) => Result::Err(e),
            Result::Ok((t, p2)) => match t {
                SpecToken::Heal => match spec_parse_apply_heal_info(ts, p2) {
                    Result::Ok((h, p3)) => Result::Ok((SpecApplyTarget::Heal(h), p3)),
                    Result::Err(e) => Result::Err(e),
                },
                SpecToken::Health => match spec_parse_apply_heal_info(ts, p2) {
                    Result::Ok((h, p3)) => Result::Ok((SpecApplyTarget::Health(h), p3)),
                    Result::Err(e) => Result::Err(e),
                },
                SpecToken::Slot => match spec_parse_slot_target(ts, p2) {
                    Result::Ok((s, p3)) => Result::Ok((SpecApplyTarget::Slots(s), p3)),
                    Result::Err(e) => Result::Err(e),
                },
                _ => Result::Err(
                    Fail::Msg(token_msg("Expected an APPLY target, instead found '"@, t, "'"@)),
                ),
            },
        },
    }
}

/// The target that follows a GRANT, LOSE, OVERRIDE, CHOOSE or APPLY token.
pub open spec fn spec_parse_target(ts: SpecTokens, t: SpecToken, p: int) -> Result<
    (SpecTarget, int),
    Fail,
> {
    match t {
        SpecToken::Grant => match spec_parse_grant_target(ts, p) {
            Result::Ok((g, q)) => Result::Ok((SpecTarget::Grant(g), q)),
            Result::Err(e) => Result::Err(e),
        },
        SpecToken::Lose => match spec_parse_lose_target(ts, p) {
            Result::Ok((g, q)) => Result::Ok((SpecTarget::Lose(g), q)),
            Result::Err(e) => Result::Err(e),
        },
        SpecToken::Override => match spec_parse_override_target(ts, p) {
            Result::Ok((g, q)) => Result::Ok((SpecTarget::Override(g), q)),
            Result::Err(e) => Result::Err(e),
        },
        SpecToken::Choose => match spec_parse_choose_target(ts, p) {
            Result::Ok((g, q)) => Result::Ok((SpecTarget::Choose(g), q)),
            Result::Err(e) => Result::Err(e),
        },
        SpecToken::Apply => match spec_parse_apply_target(ts, p) {
            Result::Ok((g, q)) => Result::Ok((SpecTarget::Apply(g), q)),
            Result::Err(e) => Result::Err(e),
        },
        _ => Result::Err(
            Fail::Msg(
                token_msg(
                    "Unexpected token '"@,
                    t,
                    "', expected one of GRANT, LOSE, OVERRIDE, CHOOSE, or APPLY"@,
                ),
            ),
        ),
    }
}

/// An optional `@condition` after a modifier.
pub open spec fn spec_parse_opt_condition(ts: SpecTokens, p: int) -> Result<
    (SpecCondition, int),
    Fail,
> {
    match access(ts, p) {
        Access::Abort => Result::Err(Fail::Abort),
        Access::Tok(SpecToken::ConditionMarker) => spec_parse_condition(ts, p + 1),
        _ => Result::Ok((SpecCondition::Always, p)),
    }
}

/// One modifier, or nothing for a semicolon or the end of the input.
pub open spec fn spec_parse_single_mod(ts: SpecTokens, p: int, when: WhenMod) -> Result<
    (Option<SpecModifier>, int),
    Fail,
> {
    match access(ts, p) {
        Access::Eoi => Result::Ok((Option::None, p)),
        _ => match spec_ut(ts, p) {
            Result::Err(e) => Result::Err(e),
            Result::Ok((t, p1)) => if t is Semicolon {
                Result::Ok((Option::None, p1))
            } else {
                match spec_parse_target(ts, t, p1) {
                    Result::Err(e) => Result::Err(e),
                    Result::Ok((target, p2)) => match spec_parse_opt_condition(ts, p2) {
                        Result::Err(e) => Result::Err(e),
                        Result::Ok((condition, p3)) => Result::Ok(
                            (
                                Option::Some(
                                    SpecModifier { when, target, condition },
                                ),
                                p3,
                            ),
                        ),
                    },
                }
            },
        },
    }
}

pub open spec fn spec_parse_cast_time(ts: SpecTokens, p: int) -> Result<
    (Option<WhenDuration>, int),
    Fail,
> {
    match spec_ut(ts, p) {
        Result::Err(e) => Result::Err(e),
        Result::Ok((t, q)) => match t {
            SpecToken::EmptyCast => Result::Ok((Option::None, q)),
            SpecToken::EightHour => Result::Ok((Option::Some(WhenDuration::EightHours), q)),
            SpecToken::FourHour => Result::Ok((Option::Some(WhenDuration::FourHours), q)),
            SpecToken::OneDay => Result::Ok((Option::Some(WhenDuration::OneDay), q)),
            SpecToken::OneHour => Result::Ok((Option::Some(WhenDuration::OneHour), q)),
            SpecToken::OneMin => Result::Ok((Option::Some(WhenDuration::OneMinute), q)),
            SpecToken::Rest => Result::Ok((Option::Some(WhenDuration::Rest), q)),
            _ => Result::Err(
                Fail::Msg(token_msg("Unexpected token "@, t, " when parsing CAST"@)),
            ),
        },
    }
}

/// The leading marker of when the modifiers apply; `None` for `NONE`.
pub open spec fn spec_parse_casting(ts: SpecTokens, p: int) -> Result<
    (Option<WhenMod>, int),
    Fail,
> {
    match access(ts, p) {
        Access::Eoi => Result::Err(Fail::Msg(msg_end())),
        Access::Bad => Result::Err(Fail::Msg(msg_invalid())),
        Access::Abort => Result::Err(Fail::Abort),
        Access::Tok(t) => match t {
            SpecToken::NoneMarker => Result::Ok((Option::None, p + 1)),
            SpecToken::Apply => Result::Ok((Option::Some(WhenMod::CastOnce), p)),
            SpecToken::Cast => match spec_parse_cast_time(ts, p + 1) {
                Result::Ok((Option::Some(d), q)) => Result::Ok(
                    (Option::Some(WhenMod::CastTime(d)), q),
                ),
                Result::Ok((Option::None, q)) => Result::Ok((Option::Some(WhenMod::CastOnce), q)),
                Result::Err(e) => Result::Err(e),
            },
            SpecToken::CastDismiss => match spec_parse_cast_time(ts, p + 1) {
                Result::Ok((Option::Some(d), q)) => Result::Ok(
                    (Option::Some(WhenMod::CastTimeDismiss(d)), q),
                ),
                Result::Ok((Option::None, q)) => Result::Ok((Option::Some(WhenMod::CastOnce), q)),
                Result::Err(e) => Result::Err(e),
            },
            SpecToken::Perm => Result::Ok((Option::Some(WhenMod::Permanent), p + 1)),
            _ => Result::Err(
                Fail::Msg(token_msg("Did not expect to find token: '"@, t, "'"@)),
            ),
        },
    }
}

/// The modifiers from position `p` to the end of the input.
pub open spec fn spec_mods_from(ts: SpecTokens, p: int, when: WhenMod) -> Result<
    Seq<SpecModifier>,
    Fail,
>
    decreases ts.toks.len() - p,
{
    match access(ts, p) {
        Access::Eoi => Result::Ok(seq![]),
        Access::Abort => Result::Err(Fail::Abort),
        _ => match spec_parse_single_mod(ts, p, when) {
            Result::Err(e) => Result::Err(e),
            Result::Ok((m, q)) => {
                proof {
                    lemma_single_mod_advances(ts, p, when);
                }
                match spec_mods_from(ts, q, when) {
                    Result::Err(e) => Result::Err(e),
                    Result::Ok(rest) => Result::Ok(
                        match m {
                            Option::Some(x) => seq![x] + rest,
                            Option::None => rest,
                        },
                    ),
                }
            },
        },
    }
}

/// The modifiers of a token sequence.
pub open spec fn spec_parse_mods_tokens(ts: SpecTokens) -> Result<Seq<SpecModifier>, Fail> {
    match spec_parse_casting(ts, 0) {
        Result::Err(e) => Result::Err(e),
        Result::Ok((w, q)) => spec_mods_from(
            ts,
            q,
            match w {
                Option::Some(x) => x,
                Option::None => WhenMod::CastOnce,
            },
        ),
    }
}

/// The modifiers of a text.
pub open spec fn spec_parse_mods(s: Seq<char>) -> Result<Seq<SpecModifier>, Fail> {
    spec_parse_mods_tokens(lex_spec(s))
}


pub proof fn lemma_comma_rest_bounds(ts: SpecTokens, p: int, acc: Seq<Seq<char>>)
    requires
        0 <= p <= ts.toks.len(),
    ensures
        spec_comma_rest(ts, p, acc) matches Result::Ok((_, q)) ==> p <= q <= ts.toks.len(),
    decreases ts.toks.len() - p,
{
    if let Access::Tok(SpecToken::Comma) = access(ts, p) {
        if let Result::Ok((s, q)) = spec_parse_ident(ts, p + 1) {
            lemma_comma_rest_bounds(ts, q, acc.push(s));
        }
    }
}

pub proof fn lemma_expr_rest_bounds(ts: SpecTokens, p: int, tmp: TmpExpr)
    requires
        0 <= p <= ts.toks.len(),
    ensures
        spec_expr_rest(ts, p, tmp) matches Result::Ok((_, q)) ==> p < q <= ts.toks.len(),
    decreases ts.toks.len() - p,
{
    if let Result::Ok((t, q)) = spec_ut(ts, p) {
        match t {
            SpecToken::Identifier(text) => {
                if let Option::Some(v) = expr_ident_value(text) {
                    if let Result::Ok(tmp2) = spec_push_value(tmp, v) {
                        lemma_expr_rest_bounds(ts, q, tmp2);
                    }
                }
            },
            SpecToken::Number(n) => {
                if let Result::Ok(tmp2) = spec_push_value(tmp, ExprValue::Number(n)) {
                    lemma_expr_rest_bounds(ts, q, tmp2);
                }
            },
            SpecToken::CloseParen => {},
            _ => {
                if let Option::Some(op) = expr_op_of(t) {
                    if let Result::Ok(tmp2) = spec_push_op(tmp, op) {
                        lemma_expr_rest_bounds(ts, q, tmp2);
                    }
                }
            },
        }
    }
}

/// Positions only move forward, and never past the last token.
pub proof fn lemma_parse_bounds(ts: SpecTokens)
    ensures
        forall|p: int, acc: Seq<Seq<char>>|
            0 <= p <= ts.toks.len() ==> (#[trigger] spec_comma_rest(ts, p, acc) matches Result::Ok(
                (_, q),
            ) ==> p <= q <= ts.toks.len()),
        forall|p: int, tmp: TmpExpr|
            0 <= p <= ts.toks.len() ==> (#[trigger] spec_expr_rest(ts, p, tmp) matches Result::Ok(
                (_, q),
            ) ==> p < q <= ts.toks.len()),
{
    assert forall|p: int, acc: Seq<Seq<char>>|
        0 <= p <= ts.toks.len() implies (#[trigger] spec_comma_rest(ts, p, acc) matches Result::Ok(
        (_, q),
    ) ==> p <= q <= ts.toks.len()) by {
        lemma_comma_rest_bounds(ts, p, acc);
    }
    assert forall|p: int, tmp: TmpExpr|
        0 <= p <= ts.toks.len() implies (#[trigger] spec_expr_rest(ts, p, tmp) matches Result::Ok(
        (_, q),
    ) ==> p < q <= ts.toks.len()) by {
        lemma_expr_rest_bounds(ts, p, tmp);
    }
}

pub proof fn lemma_grant_bounds(ts: SpecTokens, p: int)
    requires
        0 <= p <= ts.toks.len(),
    ensures
        spec_parse_grant_target(ts, p) matches Result::Ok((_, q)) ==> p <= q <= ts.toks.len(),
{
    lemma_parse_bounds(ts);
}

pub proof fn lemma_choose_bounds(ts: SpecTokens, p: int)
    requires
        0 <= p <= ts.toks.len(),
    ensures
        spec_parse_choose_target(ts, p) matches Result::Ok((_, q)) ==> p <= q <= ts.toks.len(),
{
    lemma_parse_bounds(ts);
}

pub proof fn lemma_apply_bounds(ts: SpecTokens, p: int)
    requires
        0 <= p <= ts.toks.len(),
    ensures
        spec_parse_apply_target(ts, p) matches Result::Ok((_, q)) ==> p <= q <= ts.toks.len(),
{
    lemma_parse_bounds(ts);
}

pub proof fn lemma_target_bounds(ts: SpecTokens, t: SpecToken, p: int)
    requires
        0 <= p <= ts.toks.len(),
    ensures
        spec_parse_target(ts, t, p) matches Result::Ok((_, q)) ==> p <= q <= ts.toks.len(),
{
    lemma_grant_bounds(ts, p);
    lemma_choose_bounds(ts, p);
    lemma_apply_bounds(ts, p);
}

pub proof fn lemma_opt_condition_bounds(ts: SpecTokens, p: int)
    requires
        0 <= p <= ts.toks.len(),
    ensures
        spec_parse_opt_condition(ts, p) matches Result::Ok((_, q)) ==> p <= q <= ts.toks.len(),
{
    lemma_parse_bounds(ts);
}

/// A modifier that is read takes at least one token.
pub proof fn lemma_single_mod_advances(ts: SpecTokens, p: int, when: WhenMod)
    ensures
        !(access(ts, p) is Eoi) ==> (spec_parse_single_mod(ts, p, when) matches Result::Ok((_, q))
            ==> p < q <= ts.toks.len()),
{
    if 0 <= p < ts.toks.len() {
        let t = ts.toks[p];
        lemma_target_bounds(ts, t, p + 1);
        if let Result::Ok((target, p2)) = spec_parse_target(ts, t, p + 1) {
            lemma_opt_condition_bounds(ts, p2);
        }
    }
}


// The parser itself. Each function takes the tokens and a position, and returns what it read
// with the position after it, or the message of the failure.

/// The result of a parsing function agrees with its specification.
pub open spec fn agrees<X: DeepView>(r: Result<(X, usize), ParseFail>, s: Result<(X::V, int), Fail>) -> bool {
    match s {
        Result::Ok((v, q)) => r matches Result::Ok((x, k)) && x.deep_view() == v && k as int == q,
        Result::Err(Fail::Msg(m)) => r matches Result::Err(ParseFail::Msg(e)) && e@ == m,
        Result::Err(Fail::Abort) => r matches Result::Err(ParseFail::Stop),
    }
}

pub open spec fn moves_within<X>(r: Result<(X, usize), ParseFail>, p: usize, len: nat) -> bool {
    r matches Result::Ok((_, q)) ==> p <= q <= len
}

/// The token under a position, without taking it.
pub enum Peek<'a> {
    Tok(&'a Token),
    Bad,
    Eoi,
    Stop,
}

fn peek<'a>(ts: &'a Tokens, p: usize) -> (r: Peek<'a>)
    requires
        p <= ts.toks.len(),
    ensures
        match r {
            Peek::Tok(t) => access(ts.deep_view(), p as int) == Access::Tok(t.deep_view()),
            Peek::Bad => access(ts.deep_view(), p as int) is Bad,
            Peek::Eoi => access(ts.deep_view(), p as int) is Eoi,
            Peek::Stop => access(ts.deep_view(), p as int) is Abort,
        },
{
    if p < ts.toks.len() {
        Peek::Tok(&ts.toks[p])
    } else {
        match ts.end {
            LexEnd::Done => Peek::Eoi,
            LexEnd::Bad => Peek::Bad,
            LexEnd::Overflow => Peek::Stop,
        }
    }
}

/// Takes the token at a position. Positions past a number too large for an `i32` are left out
/// by the precondition.
pub fn ut(ts: &Tokens, p: usize) -> (r: Result<(Token, usize), String>)
    requires
        p <= ts.toks.len(),
        !aborts(spec_ut(ts.deep_view(), p as int)),
    ensures
        match spec_ut(ts.deep_view(), p as int) {
            Result::Ok((t, q)) => r matches Result::Ok((x, k)) && x.deep_view() == t && k as int
                == q,
            Result::Err(Fail::Msg(m)) => r matches Result::Err(e) && e@ == m,
            Result::Err(Fail::Abort) => true,
        },
{
    match take_token(ts, p) {
        Result::Ok(x) => Result::Ok(x),
        Result::Err(ParseFail::Msg(m)) => Result::Err(m),
        Result::Err(ParseFail::Stop) => Result::Err(String::new()),
    }
}

fn token_msg_string(prefix: &str, t: &Token, suffix: &str) -> (s: String)
    ensures
        s@ == token_msg(prefix@, t.deep_view(), suffix@),
{
    let mut s = String::from_str(prefix);
    let d = token_debug_string(t);
    s.append(d.as_str());
    s.append(suffix);
    s
}

fn take_token(ts: &Tokens, p: usize) -> (r: Result<(Token, usize), ParseFail>)
    requires
        p <= ts.toks.len(),
    ensures
        agrees(r, spec_ut(ts.deep_view(), p as int)),
        r matches Result::Ok((_, q)) ==> q == p + 1 && q <= ts.toks.len(),
{
    if p < ts.toks.len() {
        Result::Ok((clone_token(&ts.toks[p]), p + 1))
    } else {
        match ts.end {
            LexEnd::Done => Result::Err(ParseFail::Msg(String::from_str("Unexpected end of input"))),
            LexEnd::Bad => Result::Err(ParseFail::Msg(
                String::from_str("Unexpected issue parsing token, invalid grammar"),
            )),
            LexEnd::Overflow => Result::Err(ParseFail::Stop),
        }
    }
}

fn eat_dot(ts: &Tokens, p: usize) -> (r: Result<((), usize), ParseFail>)
    requires
        p <= ts.toks.len(),
    ensures
        agrees(r, spec_eat_dot(ts.deep_view(), p as int)),
        r matches Result::Ok((_, q)) ==> q == p + 1 && q <= ts.toks.len(),
{
    let (t, q) = take_token(ts, p)?;
    match t {
        Token::Dot => Result::Ok(((), q)),
        _ => Result::Err(ParseFail::Msg(token_msg_string("Expected a dot '.', instead found '", &t, "'"))),
    }
}

fn eat_close_paren(ts: &Tokens, p: usize) -> (r: Result<((), usize), ParseFail>)
    requires
        p <= ts.toks.len(),
    ensures
        agrees(r, spec_eat_close_paren(ts.deep_view(), p as int)),
        r matches Result::Ok((_, q)) ==> q == p + 1 && q <= ts.toks.len(),
{
    let (t, q) = take_token(ts, p)?;
    match t {
        Token::CloseParen => Result::Ok(((), q)),
        _ => Result::Err(ParseFail::Msg(
            token_msg_string("Expected a close paren ')', instead found '", &t, "'"),
        )),
    }
}

fn eat_open_paren(ts: &Tokens, p: usize) -> (r: Result<((), usize), ParseFail>)
    requires
        p <= ts.toks.len(),
    ensures
        agrees(r, spec_eat_open_paren(ts.deep_view(), p as int)),
        r matches Result::Ok((_, q)) ==> q == p + 1 && q <= ts.toks.len(),
{
    let (t, q) = take_token(ts, p)?;
    match t {
        Token::OpenParen => Result::Ok(((), q)),
        _ => Result::Err(ParseFail::Msg(
            token_msg_string("Expected an open paren '(', instead found '", &t, "'"),
        )),
    }
}

fn eat_equal_sign(ts: &Tokens, p: usize) -> (r: Result<((), usize), ParseFail>)
    requires
        p <= ts.toks.len(),
    ensures
        agrees(r, spec_eat_equal_sign(ts.deep_view(), p as int)),
        r matches Result::Ok((_, q)) ==> q == p + 1 && q <= ts.toks.len(),
{
    let (t, q) = take_token(ts, p)?;
    match t {
        Token::Equals => Result::Ok(((), q)),
        _ => Result::Err(ParseFail::Msg(
            token_msg_string("Expected an equal sign '=', instead found '", &t, "'"),
        )),
    }
}

fn parse_number(ts: &Tokens, p: usize) -> (r: Result<(i32, usize), ParseFail>)
    requires
        p <= ts.toks.len(),
    ensures
        agrees(r, spec_parse_number(ts.deep_view(), p as int)),
        r matches Result::Ok((_, q)) ==> q == p + 1 && q <= ts.toks.len(),
{
    let (t, q) = take_token(ts, p)?;
    match t {
        Token::Number(v) => Result::Ok((v, q)),
        _ => Result::Err(ParseFail::Msg(token_msg_string("Expected number, instead found '", &t, "'"))),
    }
}

fn parse_ident(ts: &Tokens, p: usize) -> (r: Result<(String, usize), ParseFail>)
    requires
        p <= ts.toks.len(),
    ensures
        agrees(r, spec_parse_ident(ts.deep_view(), p as int)),
        r matches Result::Ok((_, q)) ==> q == p + 1 && q <= ts.toks.len(),
{
    let (t, q) = take_token(ts, p)?;
    match t {
        Token::Identifier(s) => Result::Ok((s, q)),
        Token::String(s) => Result::Ok((s, q)),
        _ => Result::Err(ParseFail::Msg(token_msg_string("Expected identifier, instead found '", &t, "'"))),
    }
}

fn parse_string(ts: &Tokens, p: usize) -> (r: Result<(String, usize), ParseFail>)
    requires
        p <= ts.toks.len(),
    ensures
        agrees(r, spec_parse_string(ts.deep_view(), p as int)),
        r matches Result::Ok((_, q)) ==> q == p + 1 && q <= ts.toks.len(),
{
    let (t, q) = take_token(ts, p)?;
    match t {
        Token::String(s) => Result::Ok((s, q)),
        _ => Result::Err(ParseFail::Msg(token_msg_string("Expected string, instead found '", &t, "'"))),
    }
}

fn parse_comma_list(ts: &Tokens, p: usize) -> (r: Result<(Vec<String>, usize), ParseFail>)
    requires
        p <= ts.toks.len(),
    ensures
        agrees(r, spec_parse_comma_list(ts.deep_view(), p as int)),
        moves_within(r, p, ts.toks@.len()),
{
    let ghost tsv = ts.deep_view();
    let mut identifiers: Vec<String> = Vec::new();
    let (first, q0) = parse_ident(ts, p)?;
    identifiers.push(first);
    let mut q = q0;
    assert(identifiers.deep_view() =~= seq![first@]);
    loop
        invariant
            p <= q <= ts.toks.len(),
            tsv == ts.deep_view(),
            spec_parse_comma_list(tsv, p as int) == spec_comma_rest(
                tsv,
                q as int,
                identifiers.deep_view(),
            ),
        decreases ts.toks.len() - q,
    {
        match peek(ts, q) {
            Peek::Tok(Token::Comma) => {},
            Peek::Stop => {
                return Result::Err(ParseFail::Stop);
            },
            _ => {
                return Result::Ok((identifiers, q));
            },
        }
        let (s, q2) = parse_ident(ts, q + 1)?;
        let ghost before = identifiers.deep_view();
        identifiers.push(s);
        assert(identifiers.deep_view() =~= before.push(s@));
        q = q2;
    }
}

fn parse_multiplier(ts: &Tokens, p: usize) -> (r: Result<(i32, usize), ParseFail>)
    requires
        p <= ts.toks.len(),
    ensures
        agrees(r, spec_parse_multiplier(ts.deep_view(), p as int)),
        moves_within(r, p, ts.toks@.len()),
{
    match peek(ts, p) {
        Peek::Stop => Result::Err(ParseFail::Stop),
        Peek::Bad => Result::Err(ParseFail::Msg(
            String::from_str("Unexpected issue parsing token, invalid grammar"),
        )),
        Peek::Tok(Token::OpenParen) => {
            let (v, q) = parse_number(ts, p + 1)?;
            let (_, q2) = eat_close_paren(ts, q)?;
            Result::Ok((v, q2))
        },
        _ => Result::Ok((1, p)),
    }
}

fn multiplier_u32(ts: &Tokens, p: usize) -> (r: Result<(u32, usize), ParseFail>)
    requires
        p <= ts.toks.len(),
    ensures
        agrees(r, spec_multiplier_u32(ts.deep_view(), p as int)),
        moves_within(r, p, ts.toks@.len()),
{
    let (m, q) = parse_multiplier(ts, p)?;
    if m < 0 {
        Result::Err(ParseFail::Stop)
    } else {
        Result::Ok((m as u32, q))
    }
}

fn parse_choose_spell_subcategory(ts: &Tokens, p: usize) -> (r: Result<
    (Option<Vec<String>>, usize),
    ParseFail,
>)
    requires
        p <= ts.toks.len(),
    ensures
        agrees(r, spec_parse_choose_spell_subcategory(ts.deep_view(), p as int)),
        moves_within(r, p, ts.toks@.len()),
{
    match peek(ts, p) {
        Peek::Stop => Result::Err(ParseFail::Stop),
        Peek::Tok(Token::Dot) => {
            let (_, q) = eat_dot(ts, p)?;
            let (v, q2) = parse_comma_list(ts, q)?;
            Result::Ok((Option::Some(v), q2))
        },
        _ => Result::Ok((Option::None, p)),
    }
}

pub proof fn lemma_digit_run_digits(w: Seq<char>, j: int)
    requires
        0 <= j,
    ensures
        j + digit_run(w, j) <= w.len() || digit_run(w, j) == 0,
        forall|k: int| j <= k < j + digit_run(w, j) ==> is_digit(#[trigger] w[k]),
    decreases w.len() - j,
{
    if 0 <= j < w.len() && is_digit(w[j]) {
        lemma_digit_run_digits(w, j + 1);
    }
}

fn read_dice(roll: &String) -> (r: Result<Dice, ParseFail>)
    ensures
        match spec_parse_dice(roll@) {
            Result::Ok(d) => r matches Result::Ok(x) && x == d,
            Result::Err(Fail::Msg(m)) => r matches Result::Err(ParseFail::Msg(e)) && e@ == m,
            Result::Err(Fail::Abort) => r matches Result::Err(ParseFail::Stop),
        },
{
    let w = crate::text::chars_of(roll.as_str());
    let k = digit_run_exec(&w, 0);
    proof {
        lemma_digit_run_digits(w@, 0);
    }
    let count = digits_value_capped(&w, 0, k);
    let size = if k < w.len() {
        let m = digit_run_exec(&w, k + 1);
        proof {
            lemma_digit_run_digits(w@, (k + 1) as int);
        }
        digits_value_capped(&w, k + 1, k + 1 + m)
    } else {
        0
    };
    proof {
        crate::mod_dsl::lexer::lemma_digits_nonneg(dice_count_text(roll@));
        if k < w.len() {
            crate::mod_dsl::lexer::lemma_digits_nonneg(dice_size_text(roll@));
        }
    }
    if count >= 2147483648 || size >= 2147483648 {
        return Result::Err(ParseFail::Stop);
    }
    let die_count = count as i32;
    let die_size = size as i32;
    if die_count < 1 {
        Result::Err(ParseFail::Msg(String::from_str("Expected ROLL to have positive die count")))
    } else if die_size < 1 {
        Result::Err(ParseFail::Msg(String::from_str("Expected ROLL to have positive die size")))
    } else {
        Result::Ok(Dice { die_count, die_size })
    }
}


/// Reads a roll such as `3d6`. Counts too large for an `i32` are left out by the precondition.
pub fn parse_dice(roll: &String) -> (r: Result<Dice, String>)
    requires
        !aborts(spec_parse_dice(roll@)),
    ensures
        match spec_parse_dice(roll@) {
            Result::Ok(d) => r == Result::<Dice, String>::Ok(d),
            Result::Err(Fail::Msg(m)) => r matches Result::Err(e) && e@ == m,
            Result::Err(Fail::Abort) => true,
        },
{
    match read_dice(roll) {
        Result::Ok(d) => Result::Ok(d),
        Result::Err(ParseFail::Msg(m)) => Result::Err(m),
        Result::Err(ParseFail::Stop) => Result::Err(String::new()),
    }
}

impl TmpExpr {
    pub fn new() -> (t: Self)
        ensures
            t == empty_tmp(),
    {
        TmpExpr { left: Option::None, op: Option::None, right: Option::None }
    }

    pub fn push_value(&mut self, value: ExprValue) -> (r: Result<(), String>)
        ensures
            match spec_push_value(*old(self), value) {
                Result::Ok(t) => r is Ok && *final(self) == t,
                Result::Err(Fail::Msg(m)) => r matches Result::Err(e) && e@ == m,
                Result::Err(Fail::Abort) => false,
            },
            r is Err ==> *final(self) == *old(self),
    {
        if self.left.is_none() {
            self.left = Option::Some(value);
            Result::Ok(())
        } else if self.right.is_none() {
            if self.op.is_some() {
                self.right = Option::Some(value);
                Result::Ok(())
            } else {
                let mut m = String::from_str(
                    "Expected operator while parsing expression, received value '",
                );
                let v = value.to_str();
                m.append(v.as_str());
                m.append("'");
                Result::Err(m)
            }
        } else {
            let mut m = String::from_str(
                "Unexpected value while parsing expression, received value '",
            );
            let v = value.to_str();
            m.append(v.as_str());
            m.append("'");
            Result::Err(m)
        }
    }

    pub fn push_op(&mut self, op: ExprOp) -> (r: Result<(), String>)
        ensures
            match spec_push_op(*old(self), op) {
                Result::Ok(t) => r is Ok && *final(self) == t,
                Result::Err(Fail::Msg(m)) => r matches Result::Err(e) && e@ == m,
                Result::Err(Fail::Abort) => false,
            },
            r is Err ==> *final(self) == *old(self),
    {
        if self.left.is_some() && self.op.is_none() {
            self.op = Option::Some(op);
            Result::Ok(())
        } else {
            let mut m = String::from_str(
                "Expected value while parsing expression, received operator '",
            );
            let v = op.to_str();
            m.append(v.as_str());
            m.append("'");
            Result::Err(m)
        }
    }

    /// The finished expression; stops where a right value has no operator.
    fn finish(self) -> (r: Result<SimpleExpr, ParseFail>)
        ensures
            match spec_to_expr(self) {
                Result::Ok(e) => r matches Result::Ok(x) && x == e,
                Result::Err(Fail::Msg(m)) => r matches Result::Err(ParseFail::Msg(e)) && e@ == m,
                Result::Err(Fail::Abort) => r matches Result::Err(ParseFail::Stop),
            },
    {
        match self.left {
            Option::None => Result::Err(ParseFail::Msg(String::from_str("Empty expression, shame on you"))),
            Option::Some(left) => {
                if self.right.is_none() && self.op.is_some() {
                    Result::Err(ParseFail::Msg(
                        String::from_str(
                            "Unterminated expression, it shouldn't end with an operator",
                        ),
                    ))
                } else {
                    match self.right {
                        Option::Some(right) => match self.op {
                            Option::Some(op) => Result::Ok(
                                SimpleExpr { left, right: Option::Some((op, right)) },
                            ),
                            Option::None => Result::Err(ParseFail::Stop),
                        },
                        Option::None => Result::Ok(SimpleExpr { left, right: Option::None }),
                    }
                }
            },
        }
    }

    /// The finished expression: a single value, or `value op value`. An expression with a
    /// right value but no operator, which pushing values and operators never builds, is left
    /// out by the precondition.
    pub fn to_expr(self) -> (r: Result<SimpleExpr, String>)
        requires
            !aborts(spec_to_expr(self)),
        ensures
            match spec_to_expr(self) {
                Result::Ok(e) => r == Result::<SimpleExpr, String>::Ok(e),
                Result::Err(Fail::Msg(m)) => r matches Result::Err(e) && e@ == m,
                Result::Err(Fail::Abort) => true,
            },
    {
        match self.finish() {
            Result::Ok(e) => Result::Ok(e),
            Result::Err(ParseFail::Msg(m)) => Result::Err(m),
            Result::Err(ParseFail::Stop) => Result::Err(String::new()),
        }
    }
}

/// Whether the ASCII uppercase of `w` is `lit`.
fn upper_equals(w: &Vec<char>, lit: &[char]) -> (b: bool)
    ensures
        b <==> ascii_upper(w@) == lit@,
{
    if w.len() != lit.len() {
        assert(ascii_upper(w@).len() != lit@.len());
        return false;
    }
    let mut k: usize = 0;
    while k < w.len()
        invariant
            w.len() == lit@.len(),
            k <= w.len(),
            forall|j: int| 0 <= j < k ==> upper_char(w@[j]) == lit@[j],
        decreases w.len() - k,
    {
        if to_upper_char(w[k]) != lit[k] {
            assert(ascii_upper(w@)[k as int] != lit@[k as int]);
            return false;
        }
        k += 1;
    }
    assert(ascii_upper(w@) =~= lit@);
    true
}

fn expr_ident_value_of(text: &String) -> (r: Option<ExprValue>)
    ensures
        r == expr_ident_value(text@),
{
    let w = crate::text::chars_of(text.as_str());
    let def = ['D', 'E', 'F'];
    let dmg = ['D', 'M', 'G'];
    let level = ['L', 'E', 'V', 'E', 'L'];
    let health = ['H', 'E', 'A', 'L', 'T', 'H'];
    assert(def@ == seq!['D', 'E', 'F']);
    assert(dmg@ == seq!['D', 'M', 'G']);
    assert(level@ == seq!['L', 'E', 'V', 'E', 'L']);
    assert(health@ == seq!['H', 'E', 'A', 'L', 'T', 'H']);
    if upper_equals(&w, &def) {
        Option::Some(ExprValue::Defense)
    } else if upper_equals(&w, &dmg) {
        Option::Some(ExprValue::Dmg)
    } else if upper_equals(&w, &level) {
        Option::Some(ExprValue::Level)
    } else if upper_equals(&w, &health) {
        Option::Some(ExprValue::Health)
    } else {
        Option::None
    }
}

fn expr_op_of_token(t: &Token) -> (r: Option<ExprOp>)
    ensures
        r == expr_op_of(t.deep_view()),
{
    match t {
        Token::Equals => Option::Some(ExprOp::Eq),
        Token::Gt => Option::Some(ExprOp::Gt),
        Token::GtEq => Option::Some(ExprOp::GtEq),
        Token::Lt => Option::Some(ExprOp::Lt),
        Token::LtEq => Option::Some(ExprOp::LtEq),
        Token::Slash => Option::Some(ExprOp::Div),
        _ => Option::None,
    }
}

/// A calculation in parentheses. Values and operators come in order, with no precedence.
fn parse_simple_expression(ts: &Tokens, p: usize) -> (r: Result<(SimpleExpr, usize), ParseFail>)
    requires
        p <= ts.toks.len(),
    ensures
        agrees(r, spec_parse_simple_expression(ts.deep_view(), p as int)),
        moves_within(r, p, ts.toks@.len()),
{
    let ghost tsv = ts.deep_view();
    let (_, q0) = eat_open_paren(ts, p)?;
    let mut tmp = TmpExpr::new();
    let mut q = q0;
    loop
        invariant
            p <= q <= ts.toks.len(),
            tsv == ts.deep_view(),
            spec_parse_simple_expression(tsv, p as int) == spec_expr_rest(tsv, q as int, tmp),
        decreases ts.toks.len() - q,
    {
        let (t, q1) = take_token(ts, q)?;
        match t {
            Token::CloseParen => {
                let e = tmp.finish()?;
                return Result::Ok((e, q1));
            },
            Token::Identifier(text) => {
                match expr_ident_value_of(&text) {
                    Option::Some(v) => {
                        if let Result::Err(m) = tmp.push_value(v) {
                            return Result::Err(ParseFail::Msg(m));
                        }
                    },
                    Option::None => {
                        let mut m = String::from_str("Unknown identifier '");
                        crate::text::append_string(&mut m, &text);
                        m.append("' while parsing expression");
                        return Result::Err(ParseFail::Msg(m));
                    },
                }
            },
            Token::Number(n) => {
                if let Result::Err(m) = tmp.push_value(ExprValue::Number(n)) {
                    return Result::Err(ParseFail::Msg(m));
                }
            },
            _ => {
                match expr_op_of_token(&t) {
                    Option::Some(op) => {
                        if let Result::Err(m) = tmp.push_op(op) {
                            return Result::Err(ParseFail::Msg(m));
                        }
                    },
                    Option::None => {
                        return Result::Err(ParseFail::Msg(
                            token_msg_string("Unexpected token '", &t, "' while parsing expression"),
                        ));
                    },
                }
            },
        }
        q = q1;
    }
}

fn parse_apply_heal_info(ts: &Tokens, p: usize) -> (r: Result<(HealAmount, usize), ParseFail>)
    requires
        p <= ts.toks.len(),
    ensures
        agrees(r, spec_parse_apply_heal_info(ts.deep_view(), p as int)),
        moves_within(r, p, ts.toks@.len()),
{
    let (_, p1) = eat_dot(ts, p)?;
    let (t, p2) = take_token(ts, p1)?;
    match t {
        Token::Number(amount) => Result::Ok((HealAmount::Number(amount), p2)),
        Token::Dice(roll) => {
            let d = read_dice(&roll)?;
            Result::Ok((HealAmount::Roll(d), p2))
        },
        Token::Calc => {
            let (e, p3) = parse_simple_expression(ts, p2)?;
            Result::Ok((HealAmount::Expr(e), p3))
        },
        Token::Ask => {
            let (_, p3) = eat_open_paren(ts, p2)?;
            let (s, p4) = parse_string(ts, p3)?;
            let (_, p5) = eat_close_paren(ts, p4)?;
            Result::Ok((HealAmount::Ask(s), p5))
        },
        _ => Result::Err(ParseFail::Msg(
            token_msg_string("Expected APPLY HEAL/HEALTH target, instead found '", &t, "'"),
        )),
    }
}

fn is_any(text: &String) -> (b: bool)
    ensures
        b == (ascii_upper(text@) == seq!['A', 'N', 'Y']),
{
    let w = crate::text::chars_of(text.as_str());
    let any = ['A', 'N', 'Y'];
    assert(any@ == seq!['A', 'N', 'Y']);
    upper_equals(&w, &any)
}

fn parse_slot_target(ts: &Tokens, p: usize) -> (r: Result<(SlotsTarget, usize), ParseFail>)
    requires
        p <= ts.toks.len(),
    ensures
        agrees(r, spec_parse_slot_target(ts.deep_view(), p as int)),
        moves_within(r, p, ts.toks@.len()),
{
    let (_, p1) = eat_dot(ts, p)?;
    let (t, p2) = take_token(ts, p1)?;
    let (m, p3) = multiplier_u32(ts, p2)?;
    match t {
        Token::NoviceSpell => Result::Ok((SlotsTarget::NoviceSpell(m), p3)),
        Token::ExpertSpell => Result::Ok((SlotsTarget::ExpertSpell(m), p3)),
        Token::MasterSpell => Result::Ok((SlotsTarget::MasterSpell(m), p3)),
        Token::Identifier(trad) => {
            if is_any(&trad) {
                return Result::Ok((SlotsTarget::AnySpell(m), p3));
            }
            match peek(ts, p3) {
                Peek::Stop => Result::Err(ParseFail::Stop),
                Peek::Tok(Token::Dot) => {
                    let (_, p4) = eat_dot(ts, p3)?;
                    let (spell, p5) = parse_ident(ts, p4)?;
                    Result::Ok((SlotsTarget::SpecificSpell(m, trad, spell), p5))
                },
                _ => Result::Ok((SlotsTarget::Tradition(m, trad), p3)),
            }
        },
        _ => Result::Err(ParseFail::Msg(token_msg_string("Expected a SLOT target, instead found '", &t, "'"))),
    }
}

fn parse_has_case(ts: &Tokens, p: usize) -> (r: Result<(HasCategory, usize), ParseFail>)
    requires
        p <= ts.toks.len(),
    ensures
        agrees(r, spec_parse_has_case(ts.deep_view(), p as int)),
        moves_within(r, p, ts.toks@.len()),
{
    let (_, p1) = eat_dot(ts, p)?;
    let (t, p2) = take_token(ts, p1)?;
    match t {
        Token::Sense => {
            let (_, p3) = eat_dot(ts, p2)?;
            let (s, p4) = parse_ident(ts, p3)?;
            Result::Ok((HasCategory::Sense(s), p4))
        },
        Token::SpeedTrait => {
            let (_, p3) = eat_dot(ts, p2)?;
            let (s, p4) = parse_ident(ts, p3)?;
            Result::Ok((HasCategory::SpeedTrait(s), p4))
        },
        _ => Result::Err(ParseFail::Msg(
            token_msg_string("Expected a HAS condition target, instead found '", &t, "'"),
        )),
    }
}

fn parse_condition(ts: &Tokens, p: usize) -> (r: Result<(Condition, usize), ParseFail>)
    requires
        p <= ts.toks.len(),
    ensures
        agrees(r, spec_parse_condition(ts.deep_view(), p as int)),
        moves_within(r, p, ts.toks@.len()),
{
    let (t, p1) = take_token(ts, p)?;
    match t {
        Token::HasNotCase => Result::Ok((Condition::HasNot, p1)),
        Token::HasCase => {
            let (h, p2) = parse_has_case(ts, p1)?;
            Result::Ok((Condition::Has(h), p2))
        },
        Token::IfCase => {
            let (e, p2) = parse_simple_expression(ts, p1)?;
            Result::Ok((Condition::If(e), p2))
        },
        _ => Result::Err(ParseFail::Msg(
            token_msg_string("Expected a Condition type, instead found '", &t, "'"),
        )),
    }
}

fn dot_number(ts: &Tokens, p: usize) -> (r: Result<(i32, usize), ParseFail>)
    requires
        p <= ts.toks.len(),
    ensures
        agrees(r, spec_dot_number(ts.deep_view(), p as int)),
        moves_within(r, p, ts.toks@.len()),
{
    let (_, q) = eat_dot(ts, p)?;
    parse_number(ts, q)
}

fn dot_list(ts: &Tokens, p: usize) -> (r: Result<(Vec<String>, usize), ParseFail>)
    requires
        p <= ts.toks.len(),
    ensures
        agrees(r, spec_dot_list(ts.deep_view(), p as int)),
        moves_within(r, p, ts.toks@.len()),
{
    let (_, q) = eat_dot(ts, p)?;
    parse_comma_list(ts, q)
}

fn dot_ident(ts: &Tokens, p: usize) -> (r: Result<(String, usize), ParseFail>)
    requires
        p <= ts.toks.len(),
    ensures
        agrees(r, spec_dot_ident(ts.deep_view(), p as int)),
        moves_within(r, p, ts.toks@.len()),
{
    let (_, q) = eat_dot(ts, p)?;
    parse_ident(ts, q)
}

fn dot_pair(ts: &Tokens, p: usize) -> (r: Result<((String, String), usize), ParseFail>)
    requires
        p <= ts.toks.len(),
    ensures
        agrees(r, spec_dot_pair(ts.deep_view(), p as int)),
        moves_within(r, p, ts.toks@.len()),
{
    let (a, q) = dot_ident(ts, p)?;
    let (b, q2) = dot_ident(ts, q)?;
    Result::Ok(((a, b), q2))
}


fn parse_grant_target(ts: &Tokens, p: usize) -> (r: Result<(GrantTarget, usize), ParseFail>)
    requires
        p <= ts.toks.len(),
    ensures
        agrees(r, spec_parse_grant_target(ts.deep_view(), p as int)),
        moves_within(r, p, ts.toks@.len()),
{
    let (_, p1) = eat_dot(ts, p)?;
    let (t, p2) = take_token(ts, p1)?;
    match t {
        Token::Str | Token::Agl | Token::Int | Token::Will | Token::Speed | Token::Health
        | Token::Defense | Token::NatDef | Token::BonusDamage => {
            let (n, p3) = dot_number(ts, p2)?;
            let g = match t {
                Token::Str => GrantTarget::Str(n),
                Token::Agl => GrantTarget::Agl(n),
                Token::Int => GrantTarget::Int(n),
                Token::Will => GrantTarget::Will(n),
                Token::Speed => GrantTarget::Speed(n),
                Token::Health => GrantTarget::Health(n),
                Token::Defense => GrantTarget::Defense(n),
                Token::NatDef => GrantTarget::NatDef(n),
                _ => GrantTarget::BonusDamage(n),
            };
            Result::Ok((g, p3))
        },
        Token::Tradition | Token::Language | Token::Sense | Token::Immunity
        | Token::SpeedTrait => {
            let (v, p3) = dot_list(ts, p2)?;
            let g = match t {
                Token::Tradition => GrantTarget::Tradition(v),
                Token::Language => GrantTarget::Language(v),
                Token::Sense => GrantTarget::Sense(v),
                Token::Immunity => GrantTarget::Immunity(v),
                _ => GrantTarget::SpeedTrait(v),
            };
            Result::Ok((g, p3))
        },
        Token::Talent => {
            let ((a, b), p3) = dot_pair(ts, p2)?;
            Result::Ok((GrantTarget::Talent(a, b), p3))
        },
        Token::MagicTalent => {
            let ((a, b), p3) = dot_pair(ts, p2)?;
            Result::Ok((GrantTarget::MagicTalent(a, b), p3))
        },
        _ => Result::Err(ParseFail::Msg(token_msg_string("Expected a GRANT target, instead found '", &t, "'"))),
    }
}

fn parse_lose_target(ts: &Tokens, p: usize) -> (r: Result<(LoseTarget, usize), ParseFail>)
    requires
        p <= ts.toks.len(),
    ensures
        agrees(r, spec_parse_lose_target(ts.deep_view(), p as int)),
        moves_within(r, p, ts.toks@.len()),
{
    let (_, p1) = eat_dot(ts, p)?;
    let (t, p2) = take_token(ts, p1)?;
    match t {
        Token::Talent => {
            let ((a, b), p3) = dot_pair(ts, p2)?;
            Result::Ok((LoseTarget::Talent(a, b), p3))
        },
        Token::MagicTalent => {
            let ((a, b), p3) = dot_pair(ts, p2)?;
            Result::Ok((LoseTarget::MagicTalent(a, b), p3))
        },
        _ => Result::Err(ParseFail::Msg(token_msg_string("Expected a LOSE target, instead found '", &t, "'"))),
    }
}

fn parse_override_target(ts: &Tokens, p: usize) -> (r: Result<(OverrideTarget, usize), ParseFail>)
    requires
        p <= ts.toks.len(),
    ensures
        agrees(r, spec_parse_override_target(ts.deep_view(), p as int)),
        moves_within(r, p, ts.toks@.len()),
{
    let (_, p1) = eat_dot(ts, p)?;
    let (t, p2) = take_token(ts, p1)?;
    match t {
        Token::Speed => {
            let (n, p3) = dot_number(ts, p2)?;
            Result::Ok((OverrideTarget::Speed(n), p3))
        },
        Token::Defense => {
            let (n, p3) = dot_number(ts, p2)?;
            Result::Ok((OverrideTarget::Defense(n), p3))
        },
        Token::StatBlock => {
            let (s, p3) = dot_ident(ts, p2)?;
            Result::Ok((OverrideTarget::StatBlock(s), p3))
        },
        _ => Result::Err(ParseFail::Msg(
            token_msg_string("Expected an OVERRIDE target, instead found '", &t, "'"),
        )),
    }
}

fn parse_choose_target(ts: &Tokens, p: usize) -> (r: Result<(ChooseTarget, usize), ParseFail>)
    requires
        p <= ts.toks.len(),
    ensures
        agrees(r, spec_parse_choose_target(ts.deep_view(), p as int)),
        moves_within(r, p, ts.toks@.len()),
{
    let (_, p1) = eat_dot(ts, p)?;
    let (t, p2) = take_token(ts, p1)?;
    let (m, p3) = multiplier_u32(ts, p2)?;
    match t {
        Token::Language => Result::Ok((ChooseTarget::Language(m), p3)),
        Token::Profession => Result::Ok((ChooseTarget::Profession(m), p3)),
        Token::Tradition => Result::Ok((ChooseTarget::Tradition(m), p3)),
        Token::NoviceSpell | Token::ExpertSpell | Token::MasterSpell => {
            let (sub, p4) = parse_choose_spell_subcategory(ts, p3)?;
            let c = match (t, sub) {
                (Token::NoviceSpell, Option::Some(v)) => ChooseTarget::NoviceSpellFrom(m, v),
                (Token::NoviceSpell, Option::None) => ChooseTarget::NoviceSpell(m),
                (Token::ExpertSpell, Option::Some(v)) => ChooseTarget::ExpertSpellFrom(m, v),
                (Token::ExpertSpell, Option::None) => ChooseTarget::ExpertSpell(m),
                (_, Option::Some(v)) => ChooseTarget::MasterSpellFrom(m, v),
                (_, Option::None) => ChooseTarget::MasterSpell(m),
            };
            Result::Ok((c, p4))
        },
        Token::Select => {
            let (_, p4) = eat_equal_sign(ts, p3)?;
            let (s, p5) = parse_ident(ts, p4)?;
            Result::Ok((ChooseTarget::Select(m, s), p5))
        },
        Token::SelectAgain => {
            let (_, p4) = eat_equal_sign(ts, p3)?;
            let (s, p5) = parse_ident(ts, p4)?;
            Result::Ok((ChooseTarget::SelectAgain(m, s), p5))
        },
        Token::Score => Result::Ok((ChooseTarget::Score(m), p3)),
        _ => Result::Err(ParseFail::Msg(token_msg_string("Expected a CHOOSE target, instead found '", &t, "'"))),
    }
}

fn parse_apply_target(ts: &Tokens, p: usize) -> (r: Result<(ApplyTarget, usize), ParseFail>)
    requires
        p <= ts.toks.len(),
    ensures
        agrees(r, spec_parse_apply_target(ts.deep_view(), p as int)),
        moves_within(r, p, ts.toks@.len()),
{
    let (_, p1) = eat_dot(ts, p)?;
    let (t, p2) = take_token(ts, p1)?;
    match t {
        Token::Heal => {
            let (amt, p3) = parse_apply_heal_info(ts, p2)?;
            Result::Ok((ApplyTarget::Heal(amt), p3))
        },
        Token::Health => {
            let (amt, p3) = parse_apply_heal_info(ts, p2)?;
            Result::Ok((ApplyTarget::Health(amt), p3))
        },
        Token::Slot => {
            let (target, p3) = parse_slot_target(ts, p2)?;
            Result::Ok((ApplyTarget::Slots(target), p3))
        },
        _ => Result::Err(ParseFail::Msg(
            token_msg_string("Expected an APPLY target, instead found '", &t, "'"),
        )),
    }
}

fn parse_target(ts: &Tokens, t: &Token, p: usize) -> (r: Result<(Target, usize), ParseFail>)
    requires
        p <= ts.toks.len(),
    ensures
        agrees(r, spec_parse_target(ts.deep_view(), t.deep_view(), p as int)),
        moves_within(r, p, ts.toks@.len()),
{
    match t {
        Token::Grant => {
            let (g, q) = parse_grant_target(ts, p)?;
            Result::Ok((Target::Grant(g), q))
        },
        Token::Lose => {
            let (g, q) = parse_lose_target(ts, p)?;
            Result::Ok((Target::Lose(g), q))
        },
        Token::Override => {
            let (g, q) = parse_override_target(ts, p)?;
            Result::Ok((Target::Override(g), q))
        },
        Token::Choose => {
            let (g, q) = parse_choose_target(ts, p)?;
            Result::Ok((Target::Choose(g), q))
        },
        Token::Apply => {
            let (g, q) = parse_apply_target(ts, p)?;
            Result::Ok((Target::Apply(g), q))
        },
        _ => Result::Err(ParseFail::Msg(
            token_msg_string(
                "Unexpected token '",
                t,
                "', expected one of GRANT, LOSE, OVERRIDE, CHOOSE, or APPLY",
            ),
        )),
    }
}

fn parse_opt_condition(ts: &Tokens, p: usize) -> (r: Result<(Condition, usize), ParseFail>)
    requires
        p <= ts.toks.len(),
    ensures
        agrees(r, spec_parse_opt_condition(ts.deep_view(), p as int)),
        moves_within(r, p, ts.toks@.len()),
{
    match peek(ts, p) {
        Peek::Stop => Result::Err(ParseFail::Stop),
        Peek::Tok(Token::ConditionMarker) => parse_condition(ts, p + 1),
        _ => Result::Ok((Condition::Always, p)),
    }
}

fn parse_single_mod(ts: &Tokens, p: usize, when: WhenMod) -> (r: Result<
    (Option<Modifier>, usize),
    ParseFail,
>)
    requires
        p <= ts.toks.len(),
    ensures
        agrees(r, spec_parse_single_mod(ts.deep_view(), p as int, when)),
        moves_within(r, p, ts.toks@.len()),
{
    match peek(ts, p) {
        Peek::Eoi => {
            return Result::Ok((Option::None, p));
        },
        _ => {},
    }
    let (t, p1) = take_token(ts, p)?;
    if let Token::Semicolon = t {
        return Result::Ok((Option::None, p1));
    }
    let (target, p2) = parse_target(ts, &t, p1)?;
    let (condition, p3) = parse_opt_condition(ts, p2)?;
    Result::Ok((Option::Some(Modifier { when, target, condition }), p3))
}

fn parse_cast_time(ts: &Tokens, p: usize) -> (r: Result<(Option<WhenDuration>, usize), ParseFail>)
    requires
        p <= ts.toks.len(),
    ensures
        agrees(r, spec_parse_cast_time(ts.deep_view(), p as int)),
        moves_within(r, p, ts.toks@.len()),
{
    let (t, q) = take_token(ts, p)?;
    match t {
        Token::EmptyCast => Result::Ok((Option::None, q)),
        Token::EightHour => Result::Ok((Option::Some(WhenDuration::EightHours), q)),
        Token::FourHour => Result::Ok((Option::Some(WhenDuration::FourHours), q)),
        Token::OneDay => Result::Ok((Option::Some(WhenDuration::OneDay), q)),
        Token::OneHour => Result::Ok((Option::Some(WhenDuration::OneHour), q)),
        Token::OneMin => Result::Ok((Option::Some(WhenDuration::OneMinute), q)),
        Token::Rest => Result::Ok((Option::Some(WhenDuration::Rest), q)),
        _ => Result::Err(ParseFail::Msg(token_msg_string("Unexpected token ", &t, " when parsing CAST"))),
    }
}

fn parse_casting(ts: &Tokens, p: usize) -> (r: Result<(Option<WhenMod>, usize), ParseFail>)
    requires
        p <= ts.toks.len(),
    ensures
        agrees(r, spec_parse_casting(ts.deep_view(), p as int)),
        moves_within(r, p, ts.toks@.len()),
{
    match peek(ts, p) {
        Peek::Stop => Result::Err(ParseFail::Stop),
        Peek::Eoi => Result::Err(ParseFail::Msg(String::from_str("Unexpected end of input"))),
        Peek::Bad => Result::Err(ParseFail::Msg(
            String::from_str("Unexpected issue parsing token, invalid grammar"),
        )),
        Peek::Tok(t) => match t {
            Token::NoneMarker => Result::Ok((Option::None, p + 1)),
            Token::Apply => Result::Ok((Option::Some(WhenMod::CastOnce), p)),
            Token::Cast => {
                let (d, q) = parse_cast_time(ts, p + 1)?;
                match d {
                    Option::Some(dur) => Result::Ok((Option::Some(WhenMod::CastTime(dur)), q)),
                    Option::None => Result::Ok((Option::Some(WhenMod::CastOnce), q)),
                }
            },
            Token::CastDismiss => {
                let (d, q) = parse_cast_time(ts, p + 1)?;
                match d {
                    Option::Some(dur) => Result::Ok(
                        (Option::Some(WhenMod::CastTimeDismiss(dur)), q),
                    ),
                    Option::None => Result::Ok((Option::Some(WhenMod::CastOnce), q)),
                }
            },
            Token::Perm => Result::Ok((Option::Some(WhenMod::Permanent), p + 1)),
            _ => Result::Err(ParseFail::Msg(token_msg_string("Did not expect to find token: '", t, "'"))),
        },
    }
}

/// Parses a modifier text, telling apart the texts on which parsing stops.
fn parse_all(input: &str) -> (r: Result<Vec<Modifier>, ParseFail>)
    ensures
        match spec_parse_mods(input@) {
            Result::Ok(v) => r matches Result::Ok(x) && x.deep_view() == v,
            Result::Err(Fail::Msg(m)) => r matches Result::Err(ParseFail::Msg(e)) && e@ == m,
            Result::Err(Fail::Abort) => r matches Result::Err(ParseFail::Stop),
        },
{
    let chars = crate::text::chars_of(input);
    let ts = lex(&chars);
    let ghost tsv = ts.deep_view();
    let (w, q0) = parse_casting(&ts, 0)?;
    let when = match w {
        Option::Some(x) => x,
        Option::None => WhenMod::CastOnce,
    };
    let mut v: Vec<Modifier> = Vec::new();
    let mut q = q0;
    assert(v.deep_view() =~= Seq::<SpecModifier>::empty());
    loop
        invariant
            q <= ts.toks.len(),
            tsv == ts.deep_view(),
            spec_parse_mods(input@) == match spec_mods_from(tsv, q as int, when) {
                Result::Ok(rest) => Result::Ok(v.deep_view() + rest),
                Result::Err(e) => Result::Err(e),
            },
        decreases ts.toks.len() - q,
    {
        match peek(&ts, q) {
            Peek::Eoi => {
                assert(v.deep_view() + Seq::<SpecModifier>::empty() =~= v.deep_view());
                return Result::Ok(v);
            },
            Peek::Stop => {
                return Result::Err(ParseFail::Stop);
            },
            _ => {},
        }
        let (m, q2) = parse_single_mod(&ts, q, when)?;
        proof {
            lemma_single_mod_advances(tsv, q as int, when);
        }
        let ghost before = v.deep_view();
        match m {
            Option::Some(x) => {
                let ghost xv = x.deep_view();
                v.push(x);
                assert(v.deep_view() =~= before.push(xv));
                assert forall|rest: Seq<SpecModifier>| before + (seq![xv] + rest) =~= v.deep_view()
                    + rest by {}
            },
            Option::None => {},
        }
        q = q2;
    }
}


/// Parses a modifier text into its modifiers.
///
/// The text starts with when the modifiers apply: `NONE` and an immediate `APPLY` mean once when
/// cast, `[PERM]` permanently, `[CAST]` once when cast, `[CAST 1h]` or `[CAST! 1h]` for a time.
/// Modifiers follow, separated by semicolons. On the first error the message is returned.
/// Texts on which parsing stops without a result are left out by the precondition: a number
/// larger than an `i32`, and a negative count of choices.
pub fn parse_mods(input: &str) -> (r: Result<Vec<Modifier>, String>)
    requires
        !aborts(spec_parse_mods(input@)),
    ensures
        match spec_parse_mods(input@) {
            Result::Ok(v) => r matches Result::Ok(x) && x.deep_view() == v,
            Result::Err(Fail::Msg(m)) => r matches Result::Err(e) && e@ == m,
            Result::Err(Fail::Abort) => true,
        },
{
    match parse_all(input) {
        Result::Ok(v) => Result::Ok(v),
        Result::Err(ParseFail::Msg(m)) => Result::Err(m),
        Result::Err(ParseFail::Stop) => Result::Err(String::new()),
    }
}

/// Parses a modifier text, or gives `None` where parsing stops without a result (a number
/// larger than an `i32`, or a negative count of choices).
pub fn parse_mods_checked(input: &str) -> (r: Option<Result<Vec<Modifier>, String>>)
    ensures
        r is None <==> aborts(spec_parse_mods(input@)),
        match spec_parse_mods(input@) {
            Result::Ok(v) => r matches Option::Some(Result::Ok(x)) && x.deep_view() == v,
            Result::Err(Fail::Msg(m)) => r matches Option::Some(Result::Err(e)) && e@ == m,
            Result::Err(Fail::Abort) => r is None,
        },
{
    match parse_all(input) {
        Result::Ok(v) => Option::Some(Result::Ok(v)),
        Result::Err(ParseFail::Msg(m)) => Option::Some(Result::Err(m)),
        Result::Err(ParseFail::Stop) => Option::None,
    }
}

proof fn lemma_casting_bounds(ts: SpecTokens)
    ensures
        spec_parse_casting(ts, 0) matches Result::Ok((_, q)) ==> 0 <= q <= ts.toks.len(),
{
}

proof fn lemma_single_mod_when(ts: SpecTokens, p: int, when: WhenMod)
    ensures
        spec_parse_single_mod(ts, p, when) matches Result::Ok((Option::Some(m), _)) ==> m.when
            == when,
{
}

proof fn lemma_mods_from_when(ts: SpecTokens, p: int, when: WhenMod)
    requires
        0 <= p <= ts.toks.len(),
    ensures
        spec_mods_from(ts, p, when) matches Result::Ok(ms) ==> forall|i: int|
            0 <= i < ms.len() ==> (#[trigger] ms[i]).when == when,
    decreases ts.toks.len() - p,
{
    match access(ts, p) {
        Access::Eoi => {},
        Access::Abort => {},
        _ => {
            lemma_single_mod_when(ts, p, when);
            if let Result::Ok((m, q)) = spec_parse_single_mod(ts, p, when) {
                lemma_single_mod_advances(ts, p, when);
                lemma_mods_from_when(ts, q, when);
                if let Result::Ok(rest) = spec_mods_from(ts, q, when) {
                    if let Option::Some(x) = m {
                        assert forall|i: int| 0 <= i < (seq![x] + rest).len() implies (#[trigger] (
                        seq![x] + rest)[i]).when == when by {
                            if i > 0 {
                                assert((seq![x] + rest)[i] == rest[i - 1]);
                            }
                        }
                    }
                }
            }
        },
    }
}

/// The timing that the marker a token sequence starts with gives its modifiers: `NONE`, a
/// leading `APPLY`, and `[CAST]` or `[CAST!]` without a time cast once; `[PERM]` is permanent;
/// `[CAST d]` lasts the time `d`, and `[CAST! d]` lasts it unless dismissed. `None` where the
/// sequence does not start with a marker, or its time cannot be read.
pub open spec fn leading_when(ts: SpecTokens) -> Option<WhenMod> {
    match access(ts, 0) {
        Access::Tok(SpecToken::NoneMarker) => Option::Some(WhenMod::CastOnce),
        Access::Tok(SpecToken::Apply) => Option::Some(WhenMod::CastOnce),
        Access::Tok(SpecToken::Perm) => Option::Some(WhenMod::Permanent),
        Access::Tok(SpecToken::Cast) => match spec_parse_cast_time(ts, 1) {
            Result::Ok((Option::Some(d), _)) => Option::Some(WhenMod::CastTime(d)),
            Result::Ok((Option::None, _)) => Option::Some(WhenMod::CastOnce),
            Result::Err(_) => Option::None,
        },
        Access::Tok(SpecToken::CastDismiss) => match spec_parse_cast_time(ts, 1) {
            Result::Ok((Option::Some(d), _)) => Option::Some(WhenMod::CastTimeDismiss(d)),
            Result::Ok((Option::None, _)) => Option::Some(WhenMod::CastOnce),
            Result::Err(_) => Option::None,
        },
        _ => Option::None,
    }
}

/// A text that parses starts with a timing marker, and every one of its modifiers takes the
/// timing of that marker.
pub proof fn lemma_mods_take_leading_when(s: Seq<char>)
    ensures
        spec_parse_mods(s) matches Result::Ok(ms) ==> leading_when(lex_spec(s)) matches Option::Some(
            w,
        ) && forall|i: int| 0 <= i < ms.len() ==> (#[trigger] ms[i]).when == w,
{
    let ts = lex_spec(s);
    if let Result::Ok((w, q)) = spec_parse_casting(ts, 0) {
        lemma_casting_bounds(ts);
        let when = match w {
            Option::Some(x) => x,
            Option::None => WhenMod::CastOnce,
        };
        lemma_mods_from_when(ts, q, when);
    }
}

/// The text of each calculation operator lexes to exactly one token, which a calculation reads
/// back as the same operator.
pub proof fn lemma_op_text_lexes_back(op: ExprOp)
    ensures
        lex_spec(expr_op_text(op)).toks.len() == 1,
        lex_spec(expr_op_text(op)).end == LexEnd::Done,
        expr_op_of(lex_spec(expr_op_text(op)).toks[0]) == Option::Some(op),
{
    let s = expr_op_text(op);
    match op {
        ExprOp::Lt => {
            reveal_strlit("<");
        },
        ExprOp::Gt => {
            reveal_strlit(">");
        },
        ExprOp::LtEq => {
            reveal_strlit("<=");
        },
        ExprOp::GtEq => {
            reveal_strlit(">=");
        },
        ExprOp::Eq => {
            reveal_strlit("=");
        },
        ExprOp::Div => {
            reveal_strlit("/");
        },
    }
    assert(crate::mod_dsl::lexer::lex_from(s, s.len() as int) == SpecTokens { toks: seq![], end: LexEnd::Done });
    let first = crate::mod_dsl::lexer::lex_from(s, 0);
    assert(first.toks.len() == 1);
}

/// Every modifier of the list has the timing `w`.
pub open spec fn all_when(ms: Seq<SpecModifier>, w: WhenMod) -> bool {
    forall|i: int| 0 <= i < ms.len() ==> (#[trigger] ms[i]).when == w
}

/// A duration token is read as the duration it spells, and `]` as no duration: `1m]` one
/// minute, `1h]` one hour, `4h]` four hours, `8h]` eight hours, `1d]` one day, `REST]` until
/// the next rest. The token is taken.
pub proof fn lemma_cast_time_durations(ts: SpecTokens, p: int)
    requires
        0 <= p < ts.toks.len(),
    ensures
        ts.toks[p] == SpecToken::OneMin ==> spec_parse_cast_time(ts, p) == Result::<
            (Option<WhenDuration>, int),
            Fail,
        >::Ok((Option::Some(WhenDuration::OneMinute), p + 1)),
        ts.toks[p] == SpecToken::OneHour ==> spec_parse_cast_time(ts, p) == Result::<
            (Option<WhenDuration>, int),
            Fail,
        >::Ok((Option::Some(WhenDuration::OneHour), p + 1)),
        ts.toks[p] == SpecToken::FourHour ==> spec_parse_cast_time(ts, p) == Result::<
            (Option<WhenDuration>, int),
            Fail,
        >::Ok((Option::Some(WhenDuration::FourHours), p + 1)),
        ts.toks[p] == SpecToken::EightHour ==> spec_parse_cast_time(ts, p) == Result::<
            (Option<WhenDuration>, int),
            Fail,
        >::Ok((Option::Some(WhenDuration::EightHours), p + 1)),
        ts.toks[p] == SpecToken::OneDay ==> spec_parse_cast_time(ts, p) == Result::<
            (Option<WhenDuration>, int),
            Fail,
        >::Ok((Option::Some(WhenDuration::OneDay), p + 1)),
        ts.toks[p] == SpecToken::Rest ==> spec_parse_cast_time(ts, p) == Result::<
            (Option<WhenDuration>, int),
            Fail,
        >::Ok((Option::Some(WhenDuration::Rest), p + 1)),
        ts.toks[p] == SpecToken::EmptyCast ==> spec_parse_cast_time(ts, p) == Result::<
            (Option<WhenDuration>, int),
            Fail,
        >::Ok((Option::None, p + 1)),
{
}

/// A text that parses and starts with `[CAST` or `[CAST!` and a duration gives every one of
/// its modifiers that duration: lasting it after `[CAST`, lasting it unless dismissed after
/// `[CAST!`.
pub proof fn lemma_timed_texts(s: Seq<char>)
    ensures
        ({
            let ts = lex_spec(s);
            spec_parse_mods(s) matches Result::Ok(ms) ==> {
                &&& (ts.toks.len() >= 2 && ts.toks[0] == SpecToken::Cast && ts.toks[1] == SpecToken::OneMin) ==> all_when(ms, WhenMod::CastTime(WhenDuration::OneMinute))
                &&& (ts.toks.len() >= 2 && ts.toks[0] == SpecToken::Cast && ts.toks[1] == SpecToken::OneHour) ==> all_when(ms, WhenMod::CastTime(WhenDuration::OneHour))
                &&& (ts.toks.len() >= 2 && ts.toks[0] == SpecToken::Cast && ts.toks[1] == SpecToken::FourHour) ==> all_when(ms, WhenMod::CastTime(WhenDuration::FourHours))
                &&& (ts.toks.len() >= 2 && ts.toks[0] == SpecToken::Cast && ts.toks[1] == SpecToken::EightHour) ==> all_when(ms, WhenMod::CastTime(WhenDuration::EightHours))
                &&& (ts.toks.len() >= 2 && ts.toks[0] == SpecToken::Cast && ts.toks[1] == SpecToken::OneDay) ==> all_when(ms, WhenMod::CastTime(WhenDuration::OneDay))
                &&& (ts.toks.len() >= 2 && ts.toks[0] == SpecToken::Cast && ts.toks[1] == SpecToken::Rest) ==> all_when(ms, WhenMod::CastTime(WhenDuration::Rest))
                &&& (ts.toks.len() >= 2 && ts.toks[0] == SpecToken::Cast && ts.toks[1] == SpecToken::EmptyCast) ==> all_when(ms, WhenMod::CastOnce)
                &&& (ts.toks.len() >= 2 && ts.toks[0] == SpecToken::CastDismiss && ts.toks[1] == SpecToken::OneMin) ==> all_when(ms, WhenMod::CastTimeDismiss(WhenDuration::OneMinute))
                &&& (ts.toks.len() >= 2 && ts.toks[0] == SpecToken::CastDismiss && ts.toks[1] == SpecToken::OneHour) ==> all_when(ms, WhenMod::CastTimeDismiss(WhenDuration::OneHour))
                &&& (ts.toks.len() >= 2 && ts.toks[0] == SpecToken::CastDismiss && ts.toks[1] == SpecToken::FourHour) ==> all_when(ms, WhenMod::CastTimeDismiss(WhenDuration::FourHours))
                &&& (ts.toks.len() >= 2 && ts.toks[0] == SpecToken::CastDismiss && ts.toks[1] == SpecToken::EightHour) ==> all_when(ms, WhenMod::CastTimeDismiss(WhenDuration::EightHours))
                &&& (ts.toks.len() >= 2 && ts.toks[0] == SpecToken::CastDismiss && ts.toks[1] == SpecToken::OneDay) ==> all_when(ms, WhenMod::CastTimeDismiss(WhenDuration::OneDay))
                &&& (ts.toks.len() >= 2 && ts.toks[0] == SpecToken::CastDismiss && ts.toks[1] == SpecToken::Rest) ==> all_when(ms, WhenMod::CastTimeDismiss(WhenDuration::Rest))
                &&& (ts.toks.len() >= 2 && ts.toks[0] == SpecToken::CastDismiss && ts.toks[1] == SpecToken::EmptyCast) ==> all_when(ms, WhenMod::CastOnce)
                &&& (ts.toks.len() >= 1 && ts.toks[0] == SpecToken::Perm) ==> all_when(ms, WhenMod::Permanent)
                &&& (ts.toks.len() >= 1 && ts.toks[0] == SpecToken::NoneMarker) ==> all_when(ms, WhenMod::CastOnce)
                &&& (ts.toks.len() >= 1 && ts.toks[0] == SpecToken::Apply) ==> all_when(ms, WhenMod::CastOnce)
            }
        }),
{
    let ts = lex_spec(s);
    lemma_mods_take_leading_when(s);
    if ts.toks.len() >= 2 {
        lemma_cast_time_durations(ts, 1);
    }
}

/// After `GRANT.`, each keyword gives the target it names: `Str` the strength, `Agl` the
/// agility, `Int` the intellect, `Will` the will, `Speed`, `Health`, `Defense`, `NatDef` and
/// `BonusDamage` those statistics, and `Tradition`, `Language`, `Sense`, `Immunity`,
/// `SpeedTrait`, `Talent` and `MagicTalent` those kinds of name. After `LOSE.`, `Talent` and
/// `MagicTalent` lose those.
pub proof fn lemma_target_keywords(ts: SpecTokens, p: int)
    requires
        0 <= p,
        p + 1 < ts.toks.len(),
        ts.toks[p] == SpecToken::Dot,
    ensures
        ts.toks[p + 1] == SpecToken::Str ==> (spec_parse_grant_target(ts, p) matches Result::Ok(
            (g, _),
        ) ==> g is Str),
        ts.toks[p + 1] == SpecToken::Agl ==> (spec_parse_grant_target(ts, p) matches Result::Ok(
            (g, _),
        ) ==> g is Agl),
        ts.toks[p + 1] == SpecToken::Int ==> (spec_parse_grant_target(ts, p) matches Result::Ok(
            (g, _),
        ) ==> g is Int),
        ts.toks[p + 1] == SpecToken::Will ==> (spec_parse_grant_target(ts, p) matches Result::Ok(
            (g, _),
        ) ==> g is Will),
        ts.toks[p + 1] == SpecToken::Speed ==> (spec_parse_grant_target(ts, p) matches Result::Ok(
            (g, _),
        ) ==> g is Speed),
        ts.toks[p + 1] == SpecToken::Health ==> (spec_parse_grant_target(ts, p) matches Result::Ok(
            (g, _),
        ) ==> g is Health),
        ts.toks[p + 1] == SpecToken::Defense ==> (spec_parse_grant_target(ts, p) matches Result::Ok(
            (g, _),
        ) ==> g is Defense),
        ts.toks[p + 1] == SpecToken::NatDef ==> (spec_parse_grant_target(ts, p) matches Result::Ok(
            (g, _),
        ) ==> g is NatDef),
        ts.toks[p + 1] == SpecToken::BonusDamage ==> (spec_parse_grant_target(ts, p) matches Result::Ok(
            (g, _),
        ) ==> g is BonusDamage),
        ts.toks[p + 1] == SpecToken::Tradition ==> (spec_parse_grant_target(ts, p) matches Result::Ok(
            (g, _),
        ) ==> g is Tradition),
        ts.toks[p + 1] == SpecToken::Language ==> (spec_parse_grant_target(ts, p) matches Result::Ok(
            (g, _),
        ) ==> g is Language),
        ts.toks[p + 1] == SpecToken::Sense ==> (spec_parse_grant_target(ts, p) matches Result::Ok(
            (g, _),
        ) ==> g is Sense),
        ts.toks[p + 1] == SpecToken::Immunity ==> (spec_parse_grant_target(ts, p) matches Result::Ok(
            (g, _),
        ) ==> g is Immunity),
        ts.toks[p + 1] == SpecToken::SpeedTrait ==> (spec_parse_grant_target(ts, p) matches Result::Ok(
            (g, _),
        ) ==> g is SpeedTrait),
        ts.toks[p + 1] == SpecToken::Talent ==> (spec_parse_grant_target(ts, p) matches Result::Ok(
            (g, _),
        ) ==> g is Talent),
        ts.toks[p + 1] == SpecToken::MagicTalent ==> (spec_parse_grant_target(ts, p) matches Result::Ok(
            (g, _),
        ) ==> g is MagicTalent),
        ts.toks[p + 1] == SpecToken::Talent ==> (spec_parse_lose_target(ts, p) matches Result::Ok(
            (l, _),
        ) ==> l is Talent),
        ts.toks[p + 1] == SpecToken::MagicTalent ==> (spec_parse_lose_target(ts, p) matches Result::Ok(
            (l, _),
        ) ==> l is MagicTalent),
{
}

/// After `CHOOSE.`, each keyword asks for the choice it names: `Language`, `Profession`,
/// `Tradition` and `Score` those, `NoviceSpell`, `ExpertSpell` and `MasterSpell` a spell of that
/// tier (from any tradition or from the listed ones), `SELECT` and `SELECTAGAIN` an option.
pub proof fn lemma_choose_keywords(ts: SpecTokens, p: int)
    requires
        0 <= p,
        p + 1 < ts.toks.len(),
        ts.toks[p] == SpecToken::Dot,
    ensures
        ts.toks[p + 1] == SpecToken::Language ==> (spec_parse_choose_target(ts, p) matches Result::Ok(
            (c, _),
        ) ==> c is Language),
        ts.toks[p + 1] == SpecToken::Profession ==> (spec_parse_choose_target(ts, p) matches Result::Ok(
            (c, _),
        ) ==> c is Profession),
        ts.toks[p + 1] == SpecToken::Tradition ==> (spec_parse_choose_target(ts, p) matches Result::Ok(
            (c, _),
        ) ==> c is Tradition),
        ts.toks[p + 1] == SpecToken::NoviceSpell ==> (spec_parse_choose_target(ts, p) matches Result::Ok(
            (c, _),
        ) ==> (c is NoviceSpell || c is NoviceSpellFrom)),
        ts.toks[p + 1] == SpecToken::ExpertSpell ==> (spec_parse_choose_target(ts, p) matches Result::Ok(
            (c, _),
        ) ==> (c is ExpertSpell || c is ExpertSpellFrom)),
        ts.toks[p + 1] == SpecToken::MasterSpell ==> (spec_parse_choose_target(ts, p) matches Result::Ok(
            (c, _),
        ) ==> (c is MasterSpell || c is MasterSpellFrom)),
        ts.toks[p + 1] == SpecToken::Select ==> (spec_parse_choose_target(ts, p) matches Result::Ok(
            (c, _),
        ) ==> c is Select),
        ts.toks[p + 1] == SpecToken::SelectAgain ==> (spec_parse_choose_target(ts, p) matches Result::Ok(
            (c, _),
        ) ==> c is SelectAgain),
        ts.toks[p + 1] == SpecToken::Score ==> (spec_parse_choose_target(ts, p) matches Result::Ok(
            (c, _),
        ) ==> c is Score),
{
}

/// All the modifiers of one text apply at the same time: the casting that the text starts with
/// holds for each of them.
pub proof fn lemma_mods_share_when(s: Seq<char>)
    ensures
        spec_parse_mods(s) matches Result::Ok(ms) ==> forall|i: int, j: int|
            0 <= i < ms.len() && 0 <= j < ms.len() ==> (#[trigger] ms[i]).when == (
            #[trigger] ms[j]).when,
{
    let ts = lex_spec(s);
    if let Result::Ok((w, q)) = spec_parse_casting(ts, 0) {
        lemma_casting_bounds(ts);
        let when = match w {
            Option::Some(x) => x,
            Option::None => WhenMod::CastOnce,
        };
        lemma_mods_from_when(ts, q, when);
    }
}

} // verus!
