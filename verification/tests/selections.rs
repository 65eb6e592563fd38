use weird_wizard::db::character_choices::{
    handle_grant_target, handle_lose_target, handle_override_target, override_key, parse_id_choice, parse_score_choice, parse_slots_choice,
    parse_twin_id_choice, Losses, ModifierSelections, SlotMod,
};
use weird_wizard::db::etc::TalentRestore;
use weird_wizard::db::magic_talents::{FullMagicTalent, MagicTalentCharges};
use weird_wizard::db::path_talents::FullPathTalent;
use weird_wizard::mod_dsl::ast::{
    ChooseTarget, Condition, GrantTarget, LoseTarget, Modifier, OverrideTarget, Target, WhenMod,
};
use weird_wizard::modifiers::FullModifier;
use weird_wizard::result::WWError;

const DISCLAIMER: &str =
    "If you're getting this error, this is a bug with the system. You did nothing wrong (probably).";

fn talent(source: &str, name: &str) -> FullPathTalent {
    FullPathTalent {
        id: 1,
        name: name.to_string(),
        source: source.to_string(),
        magical: false,
        charges: None,
        restore: TalentRestore::Never,
        activate: None,
        description: String::new(),
        info_table_id: None,
        option_block_id: None,
        mod_str: None,
        cluster: None,
    }
}

fn magic_talent(tradition: &str, name: &str) -> FullMagicTalent {
    FullMagicTalent {
        id: 2,
        tradition_id: 3,
        tradition_name: tradition.to_string(),
        name: name.to_string(),
        description: String::new(),
        charges: MagicTalentCharges::NoCharges,
        restore: TalentRestore::Never,
        activate: String::new(),
        info_table: None,
        option_block: None,
    }
}

fn message(e: WWError) -> String {
    e.message()
}

#[test]
fn merge_adds_numbers_and_appends_lists() {
    let mut a = ModifierSelections::new();
    a.strength = 2;
    a.gained_languages.push("Common".to_string());
    let mut b = ModifierSelections::new();
    b.strength = 3;
    b.speed = -1;
    b.gained_languages.push("Elvish".to_string());
    b.gained_spell_ids.push(7);
    a.merge(b);
    assert_eq!(a.strength, 5);
    assert_eq!(a.speed, -1);
    assert_eq!(a.gained_languages, vec!["Common".to_string(), "Elvish".to_string()]);
    assert_eq!(a.gained_spell_ids, vec![7]);
}

#[test]
fn merge_into_new_gives_the_other() {
    let mut a = ModifierSelections::new();
    let mut b = ModifierSelections::new();
    b.will = 4;
    b.gained_senses.push("Dark Sight".to_string());
    a.merge(b);
    assert_eq!(a.will, 4);
    assert_eq!(a.gained_senses, vec!["Dark Sight".to_string()]);
}

#[test]
fn losses_are_gathered_from_the_whole_tree() {
    let mut leaf = ModifierSelections::new();
    leaf.lost_talents.push(("Fighter".to_string(), "Brute".to_string()));
    let mut magic_leaf = ModifierSelections::new();
    magic_leaf
        .lost_magic_talents
        .push(("Chaos".to_string(), "Spark".to_string()));
    let mut root = ModifierSelections::new();
    root.lost_talents.push(("Rogue".to_string(), "Sneak".to_string()));
    root.gained_talents.push((talent("Fighter", "Grit"), vec![leaf]));
    root.gained_magic_talents
        .push((magic_talent("Chaos", "Storm"), vec![magic_leaf]));
    let losses = root.collect_losses();
    assert!(losses.has_path_talent(&"Fighter".to_string(), &"Brute".to_string()));
    assert!(losses.has_path_talent(&"Rogue".to_string(), &"Sneak".to_string()));
    assert!(!losses.has_path_talent(&"Fighter".to_string(), &"Grit".to_string()));
    assert!(losses.has_magic_talent(&"Chaos".to_string(), &"Spark".to_string()));
    assert!(!losses.has_magic_talent(&"Fighter".to_string(), &"Brute".to_string()));
}

#[test]
fn losses_merge_is_a_union() {
    let mut a = ModifierSelections::new();
    a.lost_talents.push(("A".to_string(), "x".to_string()));
    let mut b = ModifierSelections::new();
    b.lost_talents.push(("B".to_string(), "y".to_string()));
    b.lost_talents.push(("A".to_string(), "x".to_string()));
    let mut la = a.collect_losses();
    la.merge(b.collect_losses());
    assert!(la.has_path_talent(&"A".to_string(), &"x".to_string()));
    assert!(la.has_path_talent(&"B".to_string(), &"y".to_string()));
    let none = Losses::new();
    assert!(!none.has_path_talent(&"A".to_string(), &"x".to_string()));
}

#[test]
fn collect_flattens_and_prunes() {
    // A kept talent brings +1 strength and a nested talent; a lost one brings +10.
    let mut kept_sub = ModifierSelections::new();
    kept_sub.strength = 1;
    kept_sub.gained_talents.push((talent("Deep", "Nested"), Vec::new()));
    let mut lost_sub = ModifierSelections::new();
    lost_sub.strength = 10;
    let mut root = ModifierSelections::new();
    root.lost_talents.push(("Fighter".to_string(), "Brute".to_string()));
    root.gained_talents.push((talent("Fighter", "Grit"), vec![kept_sub]));
    root.gained_talents.push((talent("Fighter", "Brute"), vec![lost_sub]));
    let mut magic_sub = ModifierSelections::new();
    magic_sub.agility = 2;
    root.gained_magic_talents
        .push((magic_talent("Chaos", "Storm"), vec![magic_sub]));
    let losses = root.collect_losses();
    let flat = root.collect(&losses);
    assert_eq!(flat.strength, 1);
    assert_eq!(flat.agility, 2);
    assert_eq!(flat.gained_talents.len(), 2);
    assert_eq!(flat.gained_talents[0].0.name, "Grit");
    assert!(flat.gained_talents[0].1.is_empty());
    assert_eq!(flat.gained_talents[1].0.name, "Nested");
    assert!(flat.gained_talents[1].1.is_empty());
    assert_eq!(flat.gained_magic_talents.len(), 1);
    assert!(flat.gained_magic_talents[0].1.is_empty());
}

#[test]
fn collect_keeps_talents_from_every_depth() {
    // Magic under magic, a path talent under a magic talent, and a lost talent two levels down.
    let mut deepest = ModifierSelections::new();
    deepest.will = 5;
    deepest.gained_talents.push((talent("Deep", "Gone"), Vec::new()));
    let mut inner = ModifierSelections::new();
    inner.lost_talents.push(("Deep".to_string(), "Gone".to_string()));
    inner.gained_magic_talents.push((magic_talent("Fire", "Spark"), vec![deepest]));
    inner.gained_talents.push((talent("Path", "Keen"), Vec::new()));
    let mut root = ModifierSelections::new();
    root.gained_magic_talents.push((magic_talent("Fire", "Blaze"), vec![inner]));
    let losses = root.collect_losses();
    let flat = root.collect(&losses);
    assert_eq!(flat.will, 5);
    let magic: Vec<&str> = flat.gained_magic_talents.iter().map(|(t, _)| t.name.as_str()).collect();
    assert_eq!(magic, vec!["Blaze", "Spark"]);
    let paths: Vec<&str> = flat.gained_talents.iter().map(|(t, _)| t.name.as_str()).collect();
    assert_eq!(paths, vec!["Keen"]);
    assert!(flat.gained_talents.iter().all(|(_, subs)| subs.is_empty()));
    assert!(flat.gained_magic_talents.iter().all(|(_, subs)| subs.is_empty()));
}

#[test]
fn collecting_twice_changes_nothing() {
    let mut sub = ModifierSelections::new();
    sub.health = 3;
    let mut root = ModifierSelections::new();
    root.gained_talents.push((talent("Path", "Tough"), vec![sub]));
    let losses = root.collect_losses();
    let once = root.collect(&losses);
    let losses_again = once.collect_losses();
    let twice = once.collect(&losses_again);
    assert_eq!(twice.health, 3);
    assert_eq!(twice.gained_talents.len(), 1);
}

#[test]
fn grants_go_into_the_selections() {
    let modifier = FullModifier {
        path_str: "PathTalent;Seer;Oracle;0".to_string(),
        mod_details: Modifier {
            when: WhenMod::Permanent,
            target: Target::Grant(GrantTarget::Int(1)),
            condition: Condition::Always,
        },
    };
    let mut sel = ModifierSelections::new();
    let mut choices = Vec::new();
    let mut paths = Vec::new();
    let mut magics = Vec::new();
    handle_grant_target(
        GrantTarget::Int(2),
        &modifier,
        &mut sel,
        &mut choices,
        &mut paths,
        &mut magics,
    );
    assert_eq!(sel.intellect, 2);
    handle_grant_target(
        GrantTarget::Tradition(vec!["Chaos".to_string(), "Order".to_string()]),
        &modifier,
        &mut sel,
        &mut choices,
        &mut paths,
        &mut magics,
    );
    assert_eq!(sel.gained_traditions, vec!["Chaos".to_string(), "Order".to_string()]);
    assert_eq!(choices.len(), 2);
    assert_eq!(choices[1].path_str, modifier.path_str);
    assert!(matches!(choices[1].mod_details.when, WhenMod::Permanent));
    match &choices[1].mod_details.target {
        Target::Choose(ChooseTarget::MagicTalent(1, t)) => assert_eq!(t, "Order"),
        other => panic!("unexpected target {:?}", other),
    }
    handle_grant_target(
        GrantTarget::Talent("Fighter".to_string(), "Brute".to_string()),
        &modifier,
        &mut sel,
        &mut choices,
        &mut paths,
        &mut magics,
    );
    assert_eq!(paths, vec![("Fighter".to_string(), "Brute".to_string())]);
    assert!(magics.is_empty());
}

#[test]
fn score_choice_raises_one_score() {
    let mut sel = ModifierSelections::new();
    parse_score_choice("Agility", &mut sel).unwrap();
    assert_eq!(sel.agility, 1);
    assert_eq!(sel.strength, 0);
    let err = parse_score_choice("Luck", &mut sel).unwrap_err();
    assert_eq!(message(err), "Failed to parse Score choice selection 'Luck'");
}

#[test]
fn id_choices_are_integers() {
    assert_eq!(parse_id_choice("42").unwrap(), 42);
    assert_eq!(parse_id_choice("-7").unwrap(), -7);
    let err = parse_id_choice("4x").unwrap_err();
    assert_eq!(
        message(err),
        format!("Failed to parse ID value '4x'. {}", DISCLAIMER)
    );
}

#[test]
fn twin_id_choices() {
    assert_eq!(parse_twin_id_choice("3|9").unwrap(), (3, 9));
    assert_eq!(parse_twin_id_choice("3|9|12").unwrap(), (3, 9));
    assert_eq!(
        message(parse_twin_id_choice("3").unwrap_err()),
        format!("Failed to parse twin ID value '3'. {}", DISCLAIMER)
    );
    assert_eq!(
        message(parse_twin_id_choice("a|9").unwrap_err()),
        format!("Failed to parse ID value 'a|9'. {}", DISCLAIMER)
    );
}

#[test]
fn slots_choices() {
    assert!(matches!(
        parse_slots_choice("plus|2|15").unwrap(),
        SlotMod::Plus { amount: 2, spell_id: 15 }
    ));
    assert!(matches!(
        parse_slots_choice("times|3|4").unwrap(),
        SlotMod::Times { amount: 3, spell_id: 4 }
    ));
    assert_eq!(
        message(parse_slots_choice("minus|2|15").unwrap_err()),
        format!("Failed to parse slots decision 'minus|2|15'. {}", DISCLAIMER)
    );
    assert!(parse_slots_choice("plus|2").is_err());
}

#[test]
fn losses_are_recorded_for_pruning() {
    let mut s = ModifierSelections::new();
    handle_lose_target(LoseTarget::Talent("Fighter".to_string(), "Grit".to_string()), &mut s);
    handle_lose_target(
        LoseTarget::MagicTalent("Fire".to_string(), "Spark".to_string()),
        &mut s,
    );
    assert_eq!(s.lost_talents, vec![("Fighter".to_string(), "Grit".to_string())]);
    assert_eq!(s.lost_magic_talents, vec![("Fire".to_string(), "Spark".to_string())]);
    assert_eq!(s.strength, 0);
}

#[test]
fn stat_block_overrides_need_a_saved_choice() {
    assert_eq!(override_key(&"Wolf".to_string()), "Override;Wolf");
    let mut s = ModifierSelections::new();
    handle_override_target(OverrideTarget::StatBlock("Wolf".to_string()), None, &mut s);
    assert!(s.statblock_overrides.is_empty());
    let saved = "3".to_string();
    handle_override_target(OverrideTarget::StatBlock("Wolf".to_string()), Some(&saved), &mut s);
    let junk = "three".to_string();
    handle_override_target(OverrideTarget::StatBlock("Bear".to_string()), Some(&junk), &mut s);
    handle_override_target(OverrideTarget::Speed(4), Some(&saved), &mut s);
    assert_eq!(
        s.statblock_overrides,
        vec![(3, "Wolf".to_string()), (-1, "Bear".to_string())]
    );
}

#[test]
fn score_choice_near_the_limit_of_another_score() {
    let mut s = ModifierSelections::new();
    s.strength = i64::MAX;
    parse_score_choice("Will", &mut s).unwrap();
    assert_eq!(s.will, 1);
    assert_eq!(s.strength, i64::MAX);
}
