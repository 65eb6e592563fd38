use weird_wizard::import::{
    is_affirmative, name_and_amount, pipe_separate, progress_after, ImportData, ImportStep, ImportSummary,
    OptionRow, TableRow,
};
use weird_wizard::text::{i64_to_string, parse_i64};

fn empty_data() -> ImportData {
    ImportData {
        ancestries: Vec::new(),
        languages: Vec::new(),
        speed_traits: Vec::new(),
        senses: Vec::new(),
        profession_categories: Vec::new(),
        professions: Vec::new(),
        traditions: Vec::new(),
        magic_talents: Vec::new(),
        magic_spells: Vec::new(),
        novice_paths: Vec::new(),
        novice_levels: Vec::new(),
        expert_paths: Vec::new(),
        expert_levels: Vec::new(),
        master_paths: Vec::new(),
        master_levels: Vec::new(),
        path_talents: Vec::new(),
        options: Vec::new(),
        tables: Vec::new(),
    }
}

#[test]
fn cells_split_on_pipes_and_trim() {
    assert_eq!(
        pipe_separate(&Some(" Common | Elvish|Dwarvish ".to_string())),
        vec!["Common".to_string(), "Elvish".to_string(), "Dwarvish".to_string()]
    );
    assert_eq!(pipe_separate(&Some("a||b".to_string())), vec!["a", "", "b"]);
    assert_eq!(pipe_separate(&Some(String::new())), vec![String::new()]);
    assert!(pipe_separate(&None).is_empty());
}

#[test]
fn affirmative_cells() {
    assert!(is_affirmative(Some("y")));
    assert!(is_affirmative(Some("Yes")));
    assert!(is_affirmative(Some("TRUE")));
    assert!(!is_affirmative(Some("no")));
    assert!(!is_affirmative(Some(" yes")));
    assert!(!is_affirmative(None));
}

#[test]
fn summary_counts_rows() {
    let mut data = empty_data();
    data.options.push(OptionRow {
        options_id: "o".to_string(),
        description: "d".to_string(),
    });
    for k in 0..3 {
        data.tables.push(TableRow {
            table_id: "t".to_string(),
            key: k.to_string(),
            value: "v".to_string(),
            table_type: None,
        });
    }
    let s = data.summary();
    assert_eq!(s.options, 1);
    assert_eq!(s.tables, 3);
    assert_eq!(s.total_records(), 4);
}

#[test]
fn progress_reaches_the_total_at_the_last_step() {
    let mut s: ImportSummary = empty_data().summary();
    s.languages = 2;
    s.ancestries = 3;
    s.master_levels = 5;
    let mut step = ImportStep::first();
    let mut processed = 0usize;
    let mut reports = 0;
    loop {
        let p = progress_after(step, processed, &s);
        processed = p.0;
        assert_eq!(p.1, 10);
        if step.reports_progress() {
            reports += 1;
        }
        match step.next() {
            Some(n) => step = n,
            None => break,
        }
    }
    assert_eq!(processed, 10);
    assert_eq!(reports, 18);
}

#[test]
fn integers_read_back_their_decimal_form() {
    for n in [0i64, 7, -7, 1234567, i64::MAX, i64::MIN] {
        assert_eq!(parse_i64(&i64_to_string(n)), Some(n));
    }
    assert_eq!(parse_i64("+12"), Some(12));
    assert_eq!(parse_i64("-"), None);
    assert_eq!(parse_i64("9223372036854775808"), None);
    assert_eq!(parse_i64(" 1"), None);
    assert_eq!(parse_i64(""), None);
}

#[test]
fn listed_values_carry_an_optional_amount() {
    assert_eq!(name_and_amount(&"Darksight".to_string()), ("Darksight".to_string(), None));
    assert_eq!(
        name_and_amount(&"Climber=5".to_string()),
        ("Climber".to_string(), Some("5".to_string()))
    );
    assert_eq!(
        name_and_amount(&"Fly=10=extra".to_string()),
        ("Fly".to_string(), Some("10".to_string()))
    );
    assert_eq!(
        name_and_amount(&"Swim=".to_string()),
        ("Swim".to_string(), Some(String::new()))
    );
}
