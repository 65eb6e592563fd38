use weird_wizard::db::ancestries::{AncestrySense, FullAncestry};
use weird_wizard::db::characters::{clamp, level_choice, CumulativeFields};
use weird_wizard::db::choice_selections::{convert_choice, RawChoice};
use weird_wizard::db::etc::{PathKind, Size, TalentRestore};
use weird_wizard::db::info_tables::TableKind;
use weird_wizard::db::languages::{convert_languages, RawLanguage};
use weird_wizard::db::levels::FullLevel;
use weird_wizard::db::magic_talents::MagicTalentCharges;
use weird_wizard::db::path_talents::FullPathTalent;
use weird_wizard::db::paths::{split_lvl_1_scores, FullPath};
use weird_wizard::db::speed_traits::SpeedTrait;
use weird_wizard::ipc::{EmitChannel, IpcError};
use weird_wizard::mod_dsl::ast::{ChooseTarget, GrantTarget, Target, WhenMod};
use weird_wizard::modifiers::{FullModifier, HasModifiers};
use weird_wizard::result::WWError;
use weird_wizard::util::db_boolean;

fn path_talent(name: &str, source: &str, mod_str: Option<&str>) -> FullPathTalent {
    FullPathTalent {
        id: 9,
        name: name.to_string(),
        source: source.to_string(),
        magical: false,
        charges: None,
        restore: TalentRestore::Never,
        activate: None,
        description: String::new(),
        info_table_id: None,
        option_block_id: None,
        mod_str: mod_str.map(|s| s.to_string()),
        cluster: None,
    }
}

fn ancestry(talents: Vec<FullPathTalent>) -> FullAncestry {
    FullAncestry {
        id: 1,
        name: "Human".to_string(),
        descriptor: None,
        size: Size::Md,
        speed: 5,
        add_health: Some(10),
        add_nat_def: None,
        languages: Vec::new(),
        immunities: Vec::new(),
        speed_traits: vec![SpeedTrait {
            id: 4,
            name: "Climber".to_string(),
            description: "Climbs".to_string(),
            unit: None,
        }],
        senses: vec![AncestrySense {
            id: 2,
            name: "Keen Sight".to_string(),
            description: "Sees far".to_string(),
            unit: None,
            amount: Some("1".to_string()),
        }],
        talents,
    }
}

fn level(n: i64) -> FullLevel {
    FullLevel {
        id: 1,
        path_id: 1,
        level: n,
        add_health: 4,
        add_nat_def: 1,
        add_arm_def: 0,
        add_bonus_dmg: 1,
        add_speed: 0,
        trad_choices: 2,
        lang_choices: 1,
        novice_spells: 1,
        expert_spells: 0,
        master_spells: 0,
        size: Some(Size::Lg),
        languages: Vec::new(),
        path_talents: Vec::new(),
        speed_traits: Vec::new(),
        traditions: Vec::new(),
    }
}

#[test]
fn flags_read_as_true_in_any_case() {
    assert!(db_boolean(Some("true".to_string())));
    assert!(db_boolean(Some("TrUe".to_string())));
    assert!(!db_boolean(Some("yes".to_string())));
    assert!(!db_boolean(None));
}

#[test]
fn names_are_read_case_insensitively() {
    assert!(matches!(Size::from("LG".to_string()), Size::Lg));
    assert!(matches!(Size::from("huge".to_string()), Size::Md));
    assert!(matches!(PathKind::from("Expert".to_string()), PathKind::Expert));
    assert!(matches!(PathKind::from("other".to_string()), PathKind::Novice));
}

#[test]
fn capitalised_names_never_match_after_lowercasing() {
    assert!(matches!(TalentRestore::from("Rest".to_string()), TalentRestore::Never));
    assert!(matches!(TalentRestore::from("rest".to_string()), TalentRestore::Never));
    assert!(matches!(TableKind::from("ROLL".to_string()), TableKind::TABLE));
}

#[test]
fn magic_charges_from_text() {
    assert!(matches!(
        MagicTalentCharges::of_text(&Some("1".to_string())),
        MagicTalentCharges::One
    ));
    assert!(matches!(
        MagicTalentCharges::of_text(&Some("123".to_string())),
        MagicTalentCharges::OneTwoThree
    ));
    assert!(matches!(
        MagicTalentCharges::of_text(&Some("2".to_string())),
        MagicTalentCharges::NoCharges
    ));
    assert!(matches!(MagicTalentCharges::of_text(&None), MagicTalentCharges::NoCharges));
}

#[test]
fn languages_read_their_secret_flag() {
    let raw = vec![
        RawLanguage {
            id: 1,
            name: "Common".to_string(),
            description: "Spoken".to_string(),
            secret: None,
        },
        RawLanguage {
            id: 2,
            name: "Cant".to_string(),
            description: "Hidden".to_string(),
            secret: Some("true".to_string()),
        },
    ];
    let langs = convert_languages(raw);
    assert_eq!(langs.len(), 2);
    assert!(!langs[0].secret);
    assert!(langs[1].secret);
    assert_eq!(langs[1].name, "Cant");
}

#[test]
fn novice_scores() {
    assert_eq!(split_lvl_1_scores("10|11|9|-1").unwrap(), (10, 11, 9, -1));
    assert_eq!(split_lvl_1_scores("10|11|9").unwrap_err().message(), "");
    assert_eq!(
        split_lvl_1_scores("10|11|9|x").unwrap_err().message(),
        "Failed to parse novice init scores '10|11|9|x'"
    );
    assert_eq!(
        split_lvl_1_scores("10| 11|9|8").unwrap_err().message(),
        "Failed to parse novice init scores '10| 11|9|8'"
    );
}

#[test]
fn clamp_keeps_values_in_range() {
    assert_eq!(clamp(5, 0, 10), 5);
    assert_eq!(clamp(-3, 0, 10), 0);
    assert_eq!(clamp(12, 0, 10), 10);
}

#[test]
fn talent_modifiers_get_their_path_strings() {
    let mods = FullModifier::from_path_talent(
        "Brute",
        "Fighter",
        &Some("[PERM] GRANT.STR.1 ; GRANT.Health.5".to_string()),
    )
    .unwrap();
    assert_eq!(mods.len(), 2);
    assert_eq!(mods[0].path_str, "PathTalent;Brute;Fighter;0");
    assert_eq!(mods[1].path_str, "PathTalent;Brute;Fighter;1");
    assert!(mods[0].required());
    let none = FullModifier::from_magic_talent("Spark", "Chaos", &None).unwrap();
    assert!(none.is_empty());
    let magic =
        FullModifier::from_magic_talent("Spark", "Chaos", &Some("[CAST] GRANT.AGL.1".to_string()))
            .unwrap();
    assert_eq!(magic[0].path_str, "MagicTalent;Spark;Chaos;0");
    assert!(!magic[0].required());
    let err = FullModifier::from_path_talent("X", "Y", &Some("".to_string())).unwrap_err();
    assert_eq!(err.message(), "Unexpected end of input");
}

#[test]
fn choices_take_their_label_or_id() {
    let labelled = convert_choice(RawChoice {
        id: 5,
        label: Some("Upgrade".to_string()),
        description: "d".to_string(),
        mod_str: Some("[PERM] GRANT.INT.1".to_string()),
    })
    .unwrap();
    assert_eq!(labelled.modifiers.len(), 1);
    assert_eq!(labelled.modifiers[0].path_str, "Choice;Upgrade");
    let unlabelled = convert_choice(RawChoice {
        id: 17,
        label: None,
        description: "d".to_string(),
        mod_str: Some("[PERM] GRANT.INT.1 ; GRANT.WILL.1".to_string()),
    })
    .unwrap();
    assert_eq!(unlabelled.modifiers[1].path_str, "Choice;17");
    let bad = convert_choice(RawChoice {
        id: 1,
        label: None,
        description: "d".to_string(),
        mod_str: Some("GRANT".to_string()),
    });
    assert!(matches!(bad, Err(WWError::Generic(_))));
}

#[test]
fn level_choices_are_permanent() {
    let c = level_choice("Language;Mage;lvl1;".to_string(), ChooseTarget::Language(2));
    assert!(matches!(c.mod_details.when, WhenMod::Permanent));
    assert!(matches!(c.mod_details.target, Target::Choose(ChooseTarget::Language(2))));
}

#[test]
fn ancestry_starts_the_fields() {
    let a = ancestry(vec![path_talent("Tough", "Human", Some("[PERM] GRANT.Health.2"))]);
    let f = CumulativeFields::from_ancestry(&a).unwrap();
    assert_eq!(f.max_health, 10);
    assert_eq!(f.nat_def, 0);
    assert_eq!(f.speed, 5);
    assert_eq!(f.speed_traits.len(), 1);
    assert_eq!(f.senses[0].name, "Keen Sight");
    assert_eq!(f.choices.len(), 1);
    assert_eq!(f.choices[0].path_str, "PathTalent;Tough;Human;0");
    let bad = ancestry(vec![path_talent("Odd", "Human", Some("GRANT.INT.1"))]);
    assert_eq!(
        CumulativeFields::from_ancestry(&bad).unwrap_err().message(),
        "Did not expect to find token: 'Grant'"
    );
}

#[test]
fn levels_add_numbers_and_choices() {
    let a = ancestry(Vec::new());
    let mut f = CumulativeFields::from_ancestry(&a).unwrap();
    let mut l = level(2);
    l.path_talents.push(path_talent("Blast", "Mage", Some("[PERM] GRANT.INT.1")));
    f.process_level(&l, "Mage").unwrap();
    assert_eq!(f.max_health, 14);
    assert_eq!(f.nat_def, 1);
    assert_eq!(f.bonus_dmg, 1);
    assert!(matches!(f.size, Size::Lg));
    let paths: Vec<&str> = f.choices.iter().map(|c| c.path_str.as_str()).collect();
    assert_eq!(
        paths,
        vec![
            "Language;Mage;lvl2;",
            "Tradition;Mage;lvl2;",
            "NoviceSpell;Mage;lvl2;",
            "PathTalent;Blast;Mage;0",
        ]
    );
    // The novice spell choice counts the level's tradition choices.
    assert!(matches!(
        f.choices[2].mod_details.target,
        Target::Choose(ChooseTarget::NoviceSpell(2))
    ));
    assert!(matches!(
        f.choices[3].mod_details.target,
        Target::Grant(GrantTarget::Int(1))
    ));
}

fn path_of(levels: Vec<FullLevel>) -> FullPath {
    FullPath {
        id: 3,
        name: "Mage".to_string(),
        path_kind: PathKind::Novice,
        category: String::new(),
        description: String::new(),
        levels,
    }
}

#[test]
fn a_path_adds_only_the_levels_reached() {
    let a = ancestry(Vec::new());
    let mut f = CumulativeFields::from_ancestry(&a).unwrap();
    let p = path_of(vec![level(1), level(2), level(5), level(3)]);
    f.process_path(&p, 3).unwrap();
    // Levels 1, 2 and 3 are reached: three times 4 health on top of the ancestry's 10.
    assert_eq!(f.max_health, 22);
    assert_eq!(f.nat_def, 3);
    assert_eq!(f.bonus_dmg, 3);
    let paths: Vec<&str> = f.choices.iter().map(|c| c.path_str.as_str()).collect();
    assert_eq!(
        paths,
        vec![
            "Language;Mage;lvl1;",
            "Tradition;Mage;lvl1;",
            "NoviceSpell;Mage;lvl1;",
            "Language;Mage;lvl2;",
            "Tradition;Mage;lvl2;",
            "NoviceSpell;Mage;lvl2;",
            "Language;Mage;lvl3;",
            "Tradition;Mage;lvl3;",
            "NoviceSpell;Mage;lvl3;",
        ]
    );
}

#[test]
fn a_path_stops_at_the_first_rejected_talent() {
    let a = ancestry(Vec::new());
    let mut f = CumulativeFields::from_ancestry(&a).unwrap();
    let mut bad = level(2);
    bad.path_talents.push(path_talent("Oops", "Mage", Some("GRANT.INT.1")));
    let p = path_of(vec![level(1), bad, level(3)]);
    let e = f.process_path(&p, 3).unwrap_err();
    assert_eq!(e.message(), "Did not expect to find token: 'Grant'");
    // Levels 1 and 2 were added before the run stopped; level 3 was not.
    assert_eq!(f.max_health, 18);
}

#[test]
fn errors_reach_the_interface_with_their_message() {
    let e: IpcError = IpcError::from(WWError::Generic("boom".to_string()));
    assert_eq!(e.message, "boom");
    let channel: &'static str = EmitChannel::IMPORT.into();
    assert_eq!(channel, "IMPORT");
}

#[test]
fn an_option_hands_out_copies_of_its_modifiers() {
    let choice = convert_choice(RawChoice {
        id: 3,
        label: Some("Pick".to_string()),
        description: "d".to_string(),
        mod_str: Some("[PERM] GRANT.Language.Elvish ; CHOOSE.SELECT=Upgrades".to_string()),
    })
    .unwrap();
    let mods = choice.modifiers();
    assert_eq!(mods.len(), 2);
    assert_eq!(mods[0].path_str, "Choice;Pick");
    match &mods[0].mod_details.target {
        Target::Grant(GrantTarget::Language(names)) => assert_eq!(names, &vec!["Elvish".to_string()]),
        other => panic!("unexpected target {:?}", other),
    }
    match &mods[1].mod_details.target {
        Target::Choose(ChooseTarget::Select(1, name)) => assert_eq!(name, "Upgrades"),
        other => panic!("unexpected target {:?}", other),
    }
    assert_eq!(choice.modifiers.len(), 2);
}
