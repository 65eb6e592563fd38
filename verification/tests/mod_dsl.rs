use weird_wizard::mod_dsl::ast::{
    ApplyTarget, ChooseTarget, Condition, ExprOp, ExprValue, GrantTarget, HasCategory,
    HealAmount, LoseTarget, Target, WhenDuration, WhenMod,
};
use weird_wizard::mod_dsl::parser::{parse_dice, parse_mods, TmpExpr};
use weird_wizard::mod_dsl::validate_mod_str;

#[test]
fn permanent_grants_share_their_casting() {
    let mods = parse_mods("[PERM] GRANT.INT.1 ; GRANT.Language.Sylvan,Elvish").unwrap();
    assert_eq!(mods.len(), 2);
    for m in &mods {
        assert!(matches!(m.when, WhenMod::Permanent));
        assert!(matches!(m.condition, Condition::Always));
    }
    assert!(matches!(mods[0].target, Target::Grant(GrantTarget::Int(1))));
    match &mods[1].target {
        Target::Grant(GrantTarget::Language(names)) => {
            assert_eq!(names, &vec!["Sylvan".to_string(), "Elvish".to_string()]);
        }
        other => panic!("unexpected target {:?}", other),
    }
}

#[test]
fn none_marker_gives_no_modifiers() {
    assert_eq!(parse_mods("NONE").unwrap().len(), 0);
}

#[test]
fn empty_text_is_rejected() {
    assert_eq!(parse_mods("").unwrap_err(), "Unexpected end of input");
}

#[test]
fn text_must_start_with_when() {
    assert_eq!(
        parse_mods("GRANT.INT.1").unwrap_err(),
        "Did not expect to find token: 'Grant'"
    );
}

#[test]
fn unknown_grant_target_names_the_token() {
    assert_eq!(
        parse_mods("[PERM] GRANT.Foo").unwrap_err(),
        "Expected a GRANT target, instead found 'Identifier(\"Foo\")'"
    );
}

#[test]
fn cast_times_are_read() {
    let mods = parse_mods("[CAST 1h] GRANT.Defense.2").unwrap();
    assert!(matches!(mods[0].when, WhenMod::CastTime(WhenDuration::OneHour)));
    assert!(matches!(mods[0].target, Target::Grant(GrantTarget::Defense(2))));
    let mods = parse_mods("[CAST! 8h] CHOOSE.NoviceSpell").unwrap();
    assert!(matches!(
        mods[0].when,
        WhenMod::CastTimeDismiss(WhenDuration::EightHours)
    ));
    assert!(matches!(mods[0].target, Target::Choose(ChooseTarget::NoviceSpell(1))));
    let mods = parse_mods("[CAST] GRANT.STR.1").unwrap();
    assert!(matches!(mods[0].when, WhenMod::CastOnce));
}

#[test]
fn choose_with_multiplier_and_traditions() {
    let mods = parse_mods("[PERM] CHOOSE.NoviceSpell(2).Aeromancy,Geomancy").unwrap();
    match &mods[0].target {
        Target::Choose(ChooseTarget::NoviceSpellFrom(2, trads)) => {
            assert_eq!(trads, &vec!["Aeromancy".to_string(), "Geomancy".to_string()]);
        }
        other => panic!("unexpected target {:?}", other),
    }
}

#[test]
fn apply_heal_roll_casts_once() {
    let mods = parse_mods("APPLY.Heal.3d6").unwrap();
    assert!(matches!(mods[0].when, WhenMod::CastOnce));
    match &mods[0].target {
        Target::Apply(ApplyTarget::Heal(HealAmount::Roll(d))) => {
            assert_eq!(d.die_count, 3);
            assert_eq!(d.die_size, 6);
        }
        other => panic!("unexpected target {:?}", other),
    }
}

#[test]
fn complete_calculation_keeps_operator_and_right_value() {
    let mods = parse_mods("APPLY.Heal.Calc(DMG / 2) ;").unwrap();
    assert_eq!(mods.len(), 1);
    assert!(matches!(mods[0].when, WhenMod::CastOnce));
    match &mods[0].target {
        Target::Apply(ApplyTarget::Heal(HealAmount::Expr(e))) => {
            assert!(matches!(e.left, ExprValue::Dmg));
            assert!(matches!(e.right, Some((ExprOp::Div, ExprValue::Number(2)))));
        }
        other => panic!("unexpected target {:?}", other),
    }
}

#[test]
fn single_value_calculation_stands_alone() {
    let mods = parse_mods("APPLY.Heal.Calc(LEVEL)").unwrap();
    match &mods[0].target {
        Target::Apply(ApplyTarget::Heal(HealAmount::Expr(e))) => {
            assert!(matches!(e.left, ExprValue::Level));
            assert!(e.right.is_none());
        }
        other => panic!("unexpected target {:?}", other),
    }
}

#[test]
fn conditions_attach_to_their_modifier() {
    let mods = parse_mods(
        "[PERM] GRANT.SpeedTrait.Slippery@HASNOT ; GRANT.Speed.2@HAS.SpeedTrait.Slippery",
    )
    .unwrap();
    assert!(matches!(mods[0].condition, Condition::HasNot));
    match &mods[1].condition {
        Condition::Has(HasCategory::SpeedTrait(s)) => assert_eq!(s, "Slippery"),
        other => panic!("unexpected condition {:?}", other),
    }
}

#[test]
fn lose_with_quoted_names() {
    let mods = parse_mods("[PERM] LOSE.Talent.Fighter.'Fighting Style'").unwrap();
    match &mods[0].target {
        Target::Lose(LoseTarget::Talent(source, name)) => {
            assert_eq!(source, "Fighter");
            assert_eq!(name, "Fighting Style");
        }
        other => panic!("unexpected target {:?}", other),
    }
}

#[test]
fn validate_reports_only_rejections() {
    assert_eq!(validate_mod_str(None), None);
    assert_eq!(validate_mod_str(Some("[PERM] GRANT.INT.1")), None);
    assert_eq!(
        validate_mod_str(Some("")),
        Some("Unexpected end of input".to_string())
    );
}

#[test]
fn dice_must_be_positive() {
    assert_eq!(
        parse_dice(&"0d6".to_string()).unwrap_err(),
        "Expected ROLL to have positive die count"
    );
    assert_eq!(
        parse_dice(&"2d0".to_string()).unwrap_err(),
        "Expected ROLL to have positive die size"
    );
    let d = parse_dice(&"12d4".to_string()).unwrap();
    assert_eq!((d.die_count, d.die_size), (12, 4));
}

#[test]
fn expression_builder_orders_values_and_operators() {
    let mut t = TmpExpr::new();
    assert_eq!(
        t.push_op(ExprOp::Div).unwrap_err(),
        "Expected value while parsing expression, received operator '/'"
    );
    t.push_value(ExprValue::Level).unwrap();
    assert_eq!(
        t.push_value(ExprValue::Number(3)).unwrap_err(),
        "Expected operator while parsing expression, received value '3'"
    );
    let single = t.to_expr().unwrap();
    assert!(matches!(single.left, ExprValue::Level));
    assert!(single.right.is_none());
    t.push_op(ExprOp::GtEq).unwrap();
    assert_eq!(
        t.push_op(ExprOp::Div).unwrap_err(),
        "Expected value while parsing expression, received operator '/'"
    );
    assert!(matches!(t.op, Some(ExprOp::GtEq)));
    assert_eq!(
        t.to_expr().unwrap_err(),
        "Unterminated expression, it shouldn't end with an operator"
    );
    t.push_value(ExprValue::Number(4)).unwrap();
    assert_eq!(
        t.push_value(ExprValue::Dmg).unwrap_err(),
        "Unexpected value while parsing expression, received value 'Dmg'"
    );
    let full = t.to_expr().unwrap();
    assert!(matches!(full.left, ExprValue::Level));
    assert!(matches!(full.right, Some((ExprOp::GtEq, ExprValue::Number(4)))));
    assert_eq!(
        TmpExpr::new().to_expr().unwrap_err(),
        "Empty expression, shame on you"
    );
}

#[test]
fn expression_texts() {
    assert_eq!(ExprValue::Number(-12).to_str(), "-12");
    assert_eq!(ExprValue::Defense.to_str(), "Defense");
    assert_eq!(ExprOp::LtEq.to_str(), "<=");
}

#[test]
fn dismissable_cast_without_time_is_a_plain_cast() {
    let mods = parse_mods("[CAST!] GRANT.STR.1").unwrap();
    assert!(matches!(mods[0].when, WhenMod::CastOnce));
}

#[test]
fn semicolons_only_separate() {
    let mods = parse_mods("[PERM] GRANT.INT.1 GRANT.STR.1 ; ; GRANT.WILL.1 ;").unwrap();
    assert_eq!(mods.len(), 3);
    assert!(matches!(mods[2].target, Target::Grant(GrantTarget::Will(1))));
}

#[test]
fn checked_parse_tells_where_parsing_stops() {
    let stop = weird_wizard::mod_dsl::parser::parse_mods_checked("[PERM] GRANT.INT.99999999999");
    assert!(stop.is_none());
    let single = weird_wizard::mod_dsl::parser::parse_mods_checked("APPLY.Heal.Calc(DMG)");
    assert!(single.unwrap().is_ok());
    let fine = weird_wizard::mod_dsl::parser::parse_mods_checked("[PERM] GRANT.INT.2").unwrap();
    assert_eq!(fine.unwrap().len(), 1);
    let err = weird_wizard::mod_dsl::parser::parse_mods_checked("").unwrap();
    assert_eq!(err.unwrap_err(), "Unexpected end of input");
}

#[test]
fn every_modifier_takes_the_leading_timing() {
    let perm = parse_mods("[PERM] GRANT.INT.1 ; GRANT.STR.2 ; LOSE.Talent.Fighter.Grit").unwrap();
    assert_eq!(perm.len(), 3);
    assert!(perm.iter().all(|m| matches!(m.when, WhenMod::Permanent)));
    let none = parse_mods("NONE GRANT.INT.1 ; GRANT.STR.2").unwrap();
    assert!(none.iter().all(|m| matches!(m.when, WhenMod::CastOnce)));
    let timed = parse_mods("[CAST 1h] GRANT.INT.1 ; GRANT.STR.2").unwrap();
    assert!(timed
        .iter()
        .all(|m| matches!(m.when, WhenMod::CastTime(WhenDuration::OneHour))));
}

#[test]
fn a_text_must_start_with_its_timing() {
    assert_eq!(parse_mods("").unwrap_err(), "Unexpected end of input");
    assert_eq!(
        parse_mods("GRANT.INT.1").unwrap_err(),
        "Did not expect to find token: 'Grant'"
    );
}
