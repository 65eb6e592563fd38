use weird_wizard::db::character_choices::{CharacterChoice, ModifierSelections};
use weird_wizard::db::characters::{health_and_damage, initial_health};
use weird_wizard::db::choice_tree::{choice_key, collect_node, saved_key};
use weird_wizard::mod_dsl::ast::{ChooseTarget, Target};
use weird_wizard::mod_dsl::parser::parse_mods;
use weird_wizard::modifiers::FullModifier;
use weird_wizard::result::WWError;

fn modifier(path: &str, text: &str) -> FullModifier {
    let mut mods = parse_mods(text).unwrap();
    FullModifier {
        path_str: path.to_string(),
        mod_details: mods.remove(0),
    }
}

fn saved(selection: &str) -> CharacterChoice {
    CharacterChoice {
        id: 1,
        selection: selection.to_string(),
        dismissable: None,
        duration: "Permanent".to_string(),
    }
}

fn message(e: WWError) -> String {
    match e {
        WWError::Generic(m) => m,
    }
}

#[test]
fn choice_keys_name_the_path_and_the_choice() {
    assert_eq!(
        choice_key(&"Talent;X;Y;0".to_string(), &ChooseTarget::Score(1)),
        "Talent;X;Y;0;;Score"
    );
    assert_eq!(
        choice_key(
            &"P".to_string(),
            &ChooseTarget::MagicTalent(1, "Chaos".to_string())
        ),
        "P;;MagicTalent;Chaos"
    );
    let m = modifier("Talent;X;Y;0", "[PERM] CHOOSE.Language");
    assert_eq!(saved_key(&m), Some("Talent;X;Y;0;;Language".to_string()));
    let g = modifier("Talent;X;Y;0", "[PERM] GRANT.INT.1");
    assert_eq!(saved_key(&g), None);
}

#[test]
fn a_saved_score_choice_raises_the_score_once() {
    let m = modifier("Lvl", "[PERM] CHOOSE.Score");
    let choice = saved("Agility");
    let mut processed = Vec::new();
    let mut s = ModifierSelections::new();
    let work = collect_node(&m, Some(&choice), &mut processed, &mut s).unwrap();
    assert_eq!(s.agility, 1);
    assert!(work.path_talents.is_empty() && work.new_choice_mods.is_empty());
    assert_eq!(processed, vec!["Lvl;;Score".to_string()]);
    // The same key again changes nothing.
    collect_node(&m, Some(&choice), &mut processed, &mut s).unwrap();
    assert_eq!(s.agility, 1);
    assert_eq!(processed.len(), 1);
}

#[test]
fn saved_ids_are_listed_or_left_to_look_up() {
    let mut processed = Vec::new();
    let mut s = ModifierSelections::new();
    let lang = modifier("A", "[PERM] CHOOSE.Language");
    collect_node(&lang, Some(&saved("12")), &mut processed, &mut s).unwrap();
    assert_eq!(s.gained_language_ids, vec![12]);
    let pick = modifier("B", "[PERM] CHOOSE.SELECT=Upgrades");
    let work = collect_node(&pick, Some(&saved("7")), &mut processed, &mut s).unwrap();
    assert_eq!(work.choice_selection_ids, vec![7]);
    let trad = modifier("C", "[PERM] CHOOSE.Tradition");
    let work = collect_node(&trad, Some(&saved("3|9")), &mut processed, &mut s).unwrap();
    assert_eq!(s.gained_tradition_ids, vec![3]);
    assert_eq!(work.magic_talent_ids, vec![9]);
}

#[test]
fn an_unreadable_selection_is_reported() {
    let m = modifier("A", "[PERM] CHOOSE.Language");
    let mut processed = Vec::new();
    let mut s = ModifierSelections::new();
    let e = collect_node(&m, Some(&saved("elvish")), &mut processed, &mut s).unwrap_err();
    assert_eq!(
        message(e),
        "Failed to parse ID value 'elvish'. If you're getting this error, this is a bug with the system. You did nothing wrong (probably)."
    );
    assert!(s.gained_language_ids.is_empty());
}

#[test]
fn an_unsaved_permanent_choice_is_required() {
    let m = modifier("A", "[PERM] CHOOSE.Profession");
    let mut processed = Vec::new();
    let mut s = ModifierSelections::new();
    collect_node(&m, None, &mut processed, &mut s).unwrap();
    assert_eq!(s.required_choices.len(), 1);
    assert_eq!(s.required_choices[0].path_str, "A");
    let cast = modifier("B", "[CAST] CHOOSE.Profession");
    collect_node(&cast, None, &mut processed, &mut s).unwrap();
    assert_eq!(s.required_choices.len(), 1);
}

#[test]
fn grants_losses_and_overrides_as_nodes() {
    let mut processed = Vec::new();
    let mut s = ModifierSelections::new();
    let g = modifier("T", "[PERM] GRANT.Tradition.Chaos,Fire");
    let work = collect_node(&g, None, &mut processed, &mut s).unwrap();
    assert_eq!(s.gained_traditions, vec!["Chaos".to_string(), "Fire".to_string()]);
    assert_eq!(work.new_choice_mods.len(), 2);
    assert!(matches!(
        &work.new_choice_mods[1].mod_details.target,
        Target::Choose(ChooseTarget::MagicTalent(1, t)) if t == "Fire"
    ));
    let t = modifier("T", "[PERM] GRANT.Talent.Fighter.Grit");
    let work = collect_node(&t, None, &mut processed, &mut s).unwrap();
    assert_eq!(work.path_talents, vec![("Fighter".to_string(), "Grit".to_string())]);
    let l = modifier("L", "[PERM] LOSE.Talent.Fighter.Grit");
    collect_node(&l, None, &mut processed, &mut s).unwrap();
    assert_eq!(s.lost_talents, vec![("Fighter".to_string(), "Grit".to_string())]);
    assert!(processed.is_empty());
}

#[test]
fn health_and_damage_stay_in_range() {
    assert_eq!(health_and_damage(30, 40, 20), (20, 20));
    assert_eq!(health_and_damage(-5, 3, 20), (0, 0));
    assert_eq!(health_and_damage(12, 4, 20), (12, 4));
    assert_eq!(health_and_damage(12, -4, 20), (12, 0));
}

#[test]
fn initial_health_adds_the_ancestry() {
    assert_eq!(initial_health(Some(10), 6), 16);
    assert_eq!(initial_health(None, 6), 6);
}
