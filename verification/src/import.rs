//! The game data that an import brings, as read from the rows of its tables, and the rules
//! that read the cells of those rows.
use vstd::prelude::*;
use crate::text::{chars_of, push_char, split_on, split_pieces, split_trimmed, to_upper_char, trimmed, ascii_upper};

verus! {

/// A row of the Ancestry table of an import.
#[derive(Debug)]
pub struct AncestryRow {
    pub ancestry: String,
    pub base_size: String,
    pub base_speed: u32,
    pub add_health: Option<u32>,
    pub add_nat_def: Option<u32>,
    pub languages: Option<String>,
    pub speed_traits: Option<String>,
    pub senses: Option<String>,
    pub immunities: Option<String>,
    pub descriptor: Option<String>,
    pub traits: Option<String>,
}

/// A row of the Language table of an import.
#[derive(Debug)]
pub struct LanguageRow {
    pub languages: String,
    pub description: String,
    pub secret: Option<String>,
}

/// A row of the SpeedTrait table of an import.
#[derive(Debug)]
pub struct SpeedTraitRow {
    pub name: String,
    pub unit: Option<String>,
    pub description: String,
}

/// A row of the Sense table of an import.
#[derive(Debug)]
pub struct SenseRow {
    pub name: String,
    pub unit: Option<String>,
    pub description: String,
}

/// A row of the ProfessionCategory table of an import.
#[derive(Debug)]
pub struct ProfessionCategoryRow {
    pub name: String,
    pub description: String,
}

/// A row of the Profession table of an import.
#[derive(Debug)]
pub struct ProfessionRow {
    pub name: String,
    pub category: String,
    pub description: String,
}

/// A row of the Tradition table of an import.
#[derive(Debug)]
pub struct TraditionRow {
    pub name: String,
    pub table: Option<String>,
    pub blurb: String,
    pub special_info: Option<String>,
    pub description: String,
}

/// A row of the MagicTalent table of an import.
#[derive(Debug)]
pub struct MagicTalentRow {
    pub tradition: String,
    pub talent_name: String,
    pub charges: Option<String>,
    pub restore: String,
    pub activate: String,
    pub table: Option<String>,
    pub options: Option<String>,
    pub description: String,
}

/// A row of the MagicSpell table of an import.
#[derive(Debug)]
pub struct MagicSpellRow {
    pub name: String,
    pub tradition: String,
    pub path_type: String,
    pub castings: u32,
    pub duration: String,
    pub target: String,
    pub condition: Option<String>,
    pub ritual: String,
    pub table: Option<String>,
    pub options: Option<String>,
    pub description: String,
}

/// A row of the NovicePath table of an import.
#[derive(Debug)]
pub struct NovicePathRow {
    pub name: String,
    pub description: String,
    pub init_scores_lvl_1: String,
    pub origin_locked: Option<String>,
}

/// A row of the NoviceLevel table of an import.
#[derive(Debug)]
pub struct NoviceLevelRow {
    pub path: String,
    pub level: u32,
    pub health: u32,
    pub nat_def: Option<u32>,
    pub armed_def: Option<u32>,
    pub speed: Option<u32>,
    pub bonus_dmg: Option<u32>,
    pub trad_choices: Option<u32>,
    pub novice_spells: Option<u32>,
    pub expert_spells: Option<u32>,
    pub master_spells: Option<u32>,
    pub lang_choices: Option<u32>,
    pub languages: Option<String>,
    pub speed_traits: Option<String>,
    pub size: Option<String>,
    pub talents: String,
}

/// A row of the ExpertPath table of an import.
#[derive(Debug)]
pub struct ExpertPathRow {
    pub name: String,
    pub sub_path: String,
    pub description: String,
}

/// A row of the ExpertLevel table of an import.
#[derive(Debug)]
pub struct ExpertLevelRow {
    pub path: String,
    pub level: u32,
    pub health: u32,
    pub nat_def: Option<u32>,
    pub armed_def: Option<u32>,
    pub speed: Option<u32>,
    pub bonus_dmg: Option<u32>,
    pub trad_choices: Option<u32>,
    pub novice_spells: Option<u32>,
    pub expert_spells: Option<u32>,
    pub master_spells: Option<u32>,
    pub lang_choices: Option<u32>,
    pub languages: Option<String>,
    pub speed_traits: Option<String>,
    pub size: Option<String>,
    pub talents: String,
}

/// A row of the MasterPath table of an import.
#[derive(Debug)]
pub struct MasterPathRow {
    pub name: String,
    pub sub_path: String,
    pub description: String,
}

/// A row of the MasterLevel table of an import.
#[derive(Debug)]
pub struct MasterLevelRow {
    pub path: String,
    pub level: u32,
    pub health: u32,
    pub nat_def: Option<u32>,
    pub armed_def: Option<u32>,
    pub speed: Option<u32>,
    pub bonus_dmg: Option<u32>,
    pub trad_choices: Option<u32>,
    pub traditions: Option<String>,
    pub novice_spells: Option<u32>,
    pub expert_spells: Option<u32>,
    pub master_spells: Option<u32>,
    pub lang_choices: Option<u32>,
    pub languages: Option<String>,
    pub speed_traits: Option<String>,
    pub size: Option<String>,
    pub talents: String,
}

/// A row of the PathTalent table of an import.
#[derive(Debug)]
pub struct PathTalentRow {
    pub name: String,
    pub source: String,
    pub magical: Option<String>,
    pub charges: Option<String>,
    pub restore: String,
    pub activate: String,
    pub table: Option<String>,
    pub options: Option<String>,
    pub description: Option<String>,
}

/// A row of the Option table of an import.
#[derive(Debug)]
pub struct OptionRow {
    pub options_id: String,
    pub description: String,
}

/// A row of the Table table of an import.
#[derive(Debug)]
pub struct TableRow {
    pub table_id: String,
    pub key: String,
    pub value: String,
    pub table_type: Option<String>,
}

/// Everything an import brings, table by table.
pub struct ImportData {
    pub ancestries: Vec<AncestryRow>,
    pub languages: Vec<LanguageRow>,
    pub speed_traits: Vec<SpeedTraitRow>,
    pub senses: Vec<SenseRow>,
    pub profession_categories: Vec<ProfessionCategoryRow>,
    pub professions: Vec<ProfessionRow>,
    pub traditions: Vec<TraditionRow>,
    pub magic_talents: Vec<MagicTalentRow>,
    pub magic_spells: Vec<MagicSpellRow>,
    pub novice_paths: Vec<NovicePathRow>,
    pub novice_levels: Vec<NoviceLevelRow>,
    pub expert_paths: Vec<ExpertPathRow>,
    pub expert_levels: Vec<ExpertLevelRow>,
    pub master_paths: Vec<MasterPathRow>,
    pub master_levels: Vec<MasterLevelRow>,
    pub path_talents: Vec<PathTalentRow>,
    pub options: Vec<OptionRow>,
    pub tables: Vec<TableRow>,
}

/// How many rows each table of an import holds.
#[derive(Debug, Clone, Copy)]
pub struct ImportSummary {
    pub ancestries: usize,
    pub languages: usize,
    pub speed_traits: usize,
    pub senses: usize,
    pub profession_categories: usize,
    pub professions: usize,
    pub traditions: usize,
    pub magic_talents: usize,
    pub magic_spells: usize,
    pub novice_paths: usize,
    pub novice_levels: usize,
    pub expert_paths: usize,
    pub expert_levels: usize,
    pub master_paths: usize,
    pub master_levels: usize,
    pub path_talents: usize,
    pub options: usize,
    pub tables: usize,
}

/// The number of rows of all tables of an import.
pub open spec fn summary_total(s: ImportSummary) -> int {
    s.ancestries
        + s.languages
        + s.speed_traits
        + s.senses
        + s.profession_categories
        + s.professions
        + s.traditions
        + s.magic_talents
        + s.magic_spells
        + s.novice_paths
        + s.novice_levels
        + s.expert_paths
        + s.expert_levels
        + s.master_paths
        + s.master_levels
        + s.path_talents
        + s.options
        + s.tables
}

impl ImportData {
    /// The number of rows of each table.
    pub fn summary(&self) -> (r: ImportSummary)
        ensures
            r.ancestries == self.ancestries.len(),
            r.languages == self.languages.len(),
            r.speed_traits == self.speed_traits.len(),
            r.senses == self.senses.len(),
            r.profession_categories == self.profession_categories.len(),
            r.professions == self.professions.len(),
            r.traditions == self.traditions.len(),
            r.magic_talents == self.magic_talents.len(),
            r.magic_spells == self.magic_spells.len(),
            r.novice_paths == self.novice_paths.len(),
            r.novice_levels == self.novice_levels.len(),
            r.expert_paths == self.expert_paths.len(),
            r.expert_levels == self.expert_levels.len(),
            r.master_paths == self.master_paths.len(),
            r.master_levels == self.master_levels.len(),
            r.path_talents == self.path_talents.len(),
            r.options == self.options.len(),
            r.tables == self.tables.len(),
    {
        ImportSummary {
            ancestries: self.ancestries.len(),
            languages: self.languages.len(),
            speed_traits: self.speed_traits.len(),
            senses: self.senses.len(),
            profession_categories: self.profession_categories.len(),
            professions: self.professions.len(),
            traditions: self.traditions.len(),
            magic_talents: self.magic_talents.len(),
            magic_spells: self.magic_spells.len(),
            novice_paths: self.novice_paths.len(),
            novice_levels: self.novice_levels.len(),
            expert_paths: self.expert_paths.len(),
            expert_levels: self.expert_levels.len(),
            master_paths: self.master_paths.len(),
            master_levels: self.master_levels.len(),
            path_talents: self.path_talents.len(),
            options: self.options.len(),
            tables: self.tables.len(),
        }
    }
}

impl ImportSummary {
    /// The number of rows of all tables.
    pub fn total_records(&self) -> (r: usize)
        requires
            summary_total(*self) <= usize::MAX,
        ensures
            r == summary_total(*self),
    {
        self.ancestries
            + self.languages
            + self.speed_traits
            + self.senses
            + self.profession_categories
            + self.professions
            + self.traditions
            + self.magic_talents
            + self.magic_spells
            + self.novice_paths
            + self.novice_levels
            + self.expert_paths
            + self.expert_levels
            + self.master_paths
            + self.master_levels
            + self.path_talents
            + self.options
            + self.tables
    }
}

/// How far an import has come: rows written, of all rows.
#[derive(Debug, Clone, Copy)]
pub struct ProgressPayload(pub usize, pub usize);

/// What the import reports to the user interface.
#[derive(Debug)]
pub enum ImportEvent {
    Ready(ImportSummary),
    Progress(ProgressPayload),
    Done,
}

/// The values of a cell that lists several, separated by `|`, each without surrounding white
/// space; none where the cell is empty.
pub fn pipe_separate(column: &Option<String>) -> (r: Vec<String>)
    ensures
        r.deep_view() == match column {
            Option::Some(s) => split_on(s@, '|').map_values(|p: Seq<char>| trimmed(p)),
            Option::None => Seq::<Seq<char>>::empty(),
        },
{
    match column {
        Option::Some(s) => {
            let chars = chars_of(s.as_str());
            split_trimmed(&chars, '|')
        },
        Option::None => {
            let r: Vec<String> = Vec::new();
            assert(r.deep_view() =~= Seq::<Seq<char>>::empty());
            r
        },
    }
}

/// A listed value written `name=amount`: the text before the first `=`, and the text after it
/// up to any further `=`; no amount where the value has no `=`.
pub fn name_and_amount(entry: &String) -> (r: (String, Option<String>))
    ensures
        r.0@ == split_on(entry@, '=')[0],
        r.1 is Some <==> split_on(entry@, '=').len() > 1,
        r.1 matches Option::Some(a) ==> a@ == split_on(entry@, '=')[1],
{
    let chars = chars_of(entry.as_str());
    let mut pieces = split_pieces(&chars, '=');
    let ghost all = pieces.deep_view();
    proof {
        crate::text::lemma_split_nonempty(entry@, '=');
        assert(all[0] == pieces@[0]@);
    }
    let name = pieces.remove(0);
    if pieces.len() > 0 {
        proof {
            assert(all[1] == pieces@[0]@);
        }
        let amount = pieces.remove(0);
        (name, Option::Some(amount))
    } else {
        (name, Option::None)
    }
}

/// The words that mark a cell as yes: `Y`, `YES` and `TRUE`, in any ASCII case.
pub open spec fn affirmative_word(s: Seq<char>) -> bool {
    let u = ascii_upper(s);
    u == "Y"@ || u == "YES"@ || u == "TRUE"@
}

/// Whether a cell says yes; an empty cell says no.
pub fn is_affirmative(value: Option<&str>) -> (r: bool)
    ensures
        r == (value matches Option::Some(s) && affirmative_word(s@)),
{
    match value {
        Option::None => false,
        Option::Some(s) => {
            let chars = chars_of(s);
            let mut upper = String::new();
            let mut k: usize = 0;
            while k < chars.len()
                invariant
                    k <= chars.len(),
                    chars@ == s@,
                    upper@ == ascii_upper(s@.take(k as int)),
                decreases chars.len() - k,
            {
                push_char(&mut upper, to_upper_char(chars[k]));
                proof {
                    assert(ascii_upper(s@.take(k + 1)) =~= ascii_upper(s@.take(k as int)).push(
                        crate::text::upper_char(s@[k as int]),
                    ));
                }
                k += 1;
            }
            proof {
                assert(s@.take(k as int) =~= s@);
            }
            let y = String::from_str("Y");
            let yes = String::from_str("YES");
            let t = String::from_str("TRUE");
            upper == y || upper == yes || upper == t
        },
    }
}

/// The steps of writing an import to the database, in the order they run: each table's rows
/// can only be written once the tables they refer to are in. Immunities are gathered from the
/// ancestries' rows and are not counted as rows of their own.
#[derive(Debug, Clone, Copy, PartialEq, Eq, Structural)]
pub enum ImportStep {
    Languages,
    SpeedTraits,
    Senses,
    Options,
    Tables,
    PathTalents,
    Immunities,
    Ancestries,
    Professions,
    ProfessionCategories,
    Traditions,
    MagicSpells,
    MagicTalents,
    NovicePaths,
    ExpertPaths,
    MasterPaths,
    NoviceLevels,
    ExpertLevels,
    MasterLevels,
}

/// The position of a step in the run.
pub open spec fn step_index(s: ImportStep) -> int {
    match s {
        ImportStep::Languages => 0,
        ImportStep::SpeedTraits => 1,
        ImportStep::Senses => 2,
        ImportStep::Options => 3,
        ImportStep::Tables => 4,
        ImportStep::PathTalents => 5,
        ImportStep::Immunities => 6,
        ImportStep::Ancestries => 7,
        ImportStep::Professions => 8,
        ImportStep::ProfessionCategories => 9,
        ImportStep::Traditions => 10,
        ImportStep::MagicSpells => 11,
        ImportStep::MagicTalents => 12,
        ImportStep::NovicePaths => 13,
        ImportStep::ExpertPaths => 14,
        ImportStep::MasterPaths => 15,
        ImportStep::NoviceLevels => 16,
        ImportStep::ExpertLevels => 17,
        ImportStep::MasterLevels => 18,
    }
}

/// The step at a position of the run.
pub open spec fn step_at(i: int) -> ImportStep {
    if i == 0 {
        ImportStep::Languages
    } else if i == 1 {
        ImportStep::SpeedTraits
    } else if i == 2 {
        ImportStep::Senses
    } else if i == 3 {
        ImportStep::Options
    } else if i == 4 {
        ImportStep::Tables
    } else if i == 5 {
        ImportStep::PathTalents
    } else if i == 6 {
        ImportStep::Immunities
    } else if i == 7 {
        ImportStep::Ancestries
    } else if i == 8 {
        ImportStep::Professions
    } else if i == 9 {
        ImportStep::ProfessionCategories
    } else if i == 10 {
        ImportStep::Traditions
    } else if i == 11 {
        ImportStep::MagicSpells
    } else if i == 12 {
        ImportStep::MagicTalents
    } else if i == 13 {
        ImportStep::NovicePaths
    } else if i == 14 {
        ImportStep::ExpertPaths
    } else if i == 15 {
        ImportStep::MasterPaths
    } else if i == 16 {
        ImportStep::NoviceLevels
    } else if i == 17 {
        ImportStep::ExpertLevels
    } else {
        ImportStep::MasterLevels
    }
}

/// The rows a step writes, as counted for progress.
pub open spec fn step_rows(s: ImportStep, summary: ImportSummary) -> int {
    match s {
        ImportStep::Languages => summary.languages as int,
        ImportStep::SpeedTraits => summary.speed_traits as int,
        ImportStep::Senses => summary.senses as int,
        ImportStep::Options => summary.options as int,
        ImportStep::Tables => summary.tables as int,
        ImportStep::PathTalents => summary.path_talents as int,
        ImportStep::Immunities => 0,
        ImportStep::Ancestries => summary.ancestries as int,
        ImportStep::Professions => summary.professions as int,
        ImportStep::ProfessionCategories => summary.profession_categories as int,
        ImportStep::Traditions => summary.traditions as int,
        ImportStep::MagicSpells => summary.magic_spells as int,
        ImportStep::MagicTalents => summary.magic_talents as int,
        ImportStep::NovicePaths => summary.novice_paths as int,
        ImportStep::ExpertPaths => summary.expert_paths as int,
        ImportStep::MasterPaths => summary.master_paths as int,
        ImportStep::NoviceLevels => summary.novice_levels as int,
        ImportStep::ExpertLevels => summary.expert_levels as int,
        ImportStep::MasterLevels => summary.master_levels as int,
    }
}

/// The rows written once the steps before position `k` are done.
pub open spec fn rows_before(k: int, summary: ImportSummary) -> int
    decreases k,
{
    if k <= 0 {
        0
    } else {
        rows_before(k - 1, summary) + step_rows(step_at(k - 1), summary)
    }
}

impl ImportStep {
    /// The step the run starts with.
    pub fn first() -> (r: Self)
        ensures
            step_index(r) == 0,
    {
        ImportStep::Languages
    }

    /// The step after this one; none after the last.
    pub fn next(&self) -> (r: Option<Self>)
        ensures
            match r {
                Option::Some(n) => step_index(*self) < 18 && step_index(n) == step_index(*self) + 1,
                Option::None => step_index(*self) == 18,
            },
    {
        match self {
            ImportStep::Languages => Option::Some(ImportStep::SpeedTraits),
            ImportStep::SpeedTraits => Option::Some(ImportStep::Senses),
            ImportStep::Senses => Option::Some(ImportStep::Options),
            ImportStep::Options => Option::Some(ImportStep::Tables),
            ImportStep::Tables => Option::Some(ImportStep::PathTalents),
            ImportStep::PathTalents => Option::Some(ImportStep::Immunities),
            ImportStep::Immunities => Option::Some(ImportStep::Ancestries),
            ImportStep::Ancestries => Option::Some(ImportStep::Professions),
            ImportStep::Professions => Option::Some(ImportStep::ProfessionCategories),
            ImportStep::ProfessionCategories => Option::Some(ImportStep::Traditions),
            ImportStep::Traditions => Option::Some(ImportStep::MagicSpells),
            ImportStep::MagicSpells => Option::Some(ImportStep::MagicTalents),
            ImportStep::MagicTalents => Option::Some(ImportStep::NovicePaths),
            ImportStep::NovicePaths => Option::Some(ImportStep::ExpertPaths),
            ImportStep::ExpertPaths => Option::Some(ImportStep::MasterPaths),
            ImportStep::MasterPaths => Option::Some(ImportStep::NoviceLevels),
            ImportStep::NoviceLevels => Option::Some(ImportStep::ExpertLevels),
            ImportStep::ExpertLevels => Option::Some(ImportStep::MasterLevels),
            ImportStep::MasterLevels => Option::None,
        }
    }

    /// Whether the run reports its progress after this step.
    pub fn reports_progress(&self) -> (r: bool)
        ensures
            r == !(*self is Immunities),
    {
        !matches!(self, ImportStep::Immunities)
    }

    /// The rows this step writes, as counted for progress.
    pub fn rows(&self, summary: &ImportSummary) -> (r: usize)
        ensures
            r == step_rows(*self, *summary),
    {
        match self {
            ImportStep::Languages => summary.languages,
            ImportStep::SpeedTraits => summary.speed_traits,
            ImportStep::Senses => summary.senses,
            ImportStep::Options => summary.options,
            ImportStep::Tables => summary.tables,
            ImportStep::PathTalents => summary.path_talents,
            ImportStep::Immunities => 0,
            ImportStep::Ancestries => summary.ancestries,
            ImportStep::Professions => summary.professions,
            ImportStep::ProfessionCategories => summary.profession_categories,
            ImportStep::Traditions => summary.traditions,
            ImportStep::MagicSpells => summary.magic_spells,
            ImportStep::MagicTalents => summary.magic_talents,
            ImportStep::NovicePaths => summary.novice_paths,
            ImportStep::ExpertPaths => summary.expert_paths,
            ImportStep::MasterPaths => summary.master_paths,
            ImportStep::NoviceLevels => summary.novice_levels,
            ImportStep::ExpertLevels => summary.expert_levels,
            ImportStep::MasterLevels => summary.master_levels,
        }
    }
}

proof fn lemma_step_at_index(s: ImportStep)
    ensures
        step_at(step_index(s)) == s,
        0 <= step_index(s) < 19,
{
}

/// The progress after a step: the rows written before it and by it, of all rows.
pub fn progress_after(step: ImportStep, processed: usize, summary: &ImportSummary) -> (r: ProgressPayload)
    requires
        processed == rows_before(step_index(step), *summary),
        summary_total(*summary) <= usize::MAX,
    ensures
        r.0 == rows_before(step_index(step) + 1, *summary),
        r.1 == summary_total(*summary),
{
    proof {
        lemma_step_at_index(step);
        lemma_rows_before_bounded(step_index(step) + 1, *summary);
        lemma_progress_completes(*summary);
        assert(rows_before(step_index(step) + 1, *summary) == processed + step_rows(step, *summary));
    }
    let rows = step.rows(summary);
    ProgressPayload(processed + rows, summary.total_records())
}

proof fn lemma_rows_before_bounded(k: int, summary: ImportSummary)
    requires
        0 <= k <= 19,
    ensures
        0 <= rows_before(k, summary) <= rows_before(19, summary),
    decreases 19 - k,
{
    if k < 19 {
        lemma_rows_before_bounded(k + 1, summary);
    }
    lemma_rows_before_nonneg(k, summary);
}

proof fn lemma_rows_before_nonneg(k: int, summary: ImportSummary)
    ensures
        rows_before(k, summary) >= 0,
    decreases k,
{
    if k > 0 {
        lemma_rows_before_nonneg(k - 1, summary);
    }
}

/// Once the last step is done, the progress has counted every row of the import.
pub proof fn lemma_progress_completes(summary: ImportSummary)
    ensures
        rows_before(19, summary) == summary_total(summary),
{
    reveal_with_fuel(rows_before, 20);
}

} // verus!
