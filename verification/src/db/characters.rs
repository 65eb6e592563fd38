//! Characters, and the statistics and choices their ancestry and path levels give them.
use vstd::prelude::*;
use crate::db::ancestries::{AncestrySense, FullAncestry};
use crate::db::character_choices::in_i64;
use crate::db::etc::Size;
use crate::db::immunities::Immunity;
use crate::db::languages::Language;
use crate::db::levels::FullLevel;
use crate::db::path_talents::FullPathTalent;
use crate::db::paths::FullPath;
use crate::db::professions::Profession;
use crate::db::speed_traits::SpeedTrait;
use crate::mod_dsl::ast::{
    ChooseTarget, Condition, Modifier, SpecChooseTarget, SpecCondition, SpecModifier, SpecTarget,
    Target, WhenMod,
};
use crate::mod_dsl::parser::{aborts, spec_parse_mods};
use crate::modifiers::{full_mod_view, mods_view, opt_view, talent_mod_views, FullModifier};
use crate::result::WWError;
use crate::text::{append_string, i64_to_string, int_decimal, push_char};

verus! {

/// What the user interface sends to create a character.
#[derive(Debug)]
pub struct CreateCharacter {
    pub name: String,
    pub profession_id: i64,
    pub ancestry_id: i64,
    pub novice_path_id: i64,
    pub strength: i64,
    pub agility: i64,
    pub intellect: i64,
    pub will: i64,
}

/// A character with everything its ancestry, paths and choices give it.
#[derive(Debug)]
pub struct FullCharacter {
    pub id: i64,
    pub name: String,
    pub level: i64,
    pub health: i64,
    pub damage: i64,
    pub strength: i64,
    pub agility: i64,
    pub intellect: i64,
    pub will: i64,
    pub profession: Profession,
    pub ancestry: FullAncestry,
    pub novice_path: FullPath,
    pub expert_path: Option<FullPath>,
    pub master_path: Option<FullPath>,
    pub created_at: String,
    pub max_health: i64,
    pub nat_def: i64,
    pub arm_def: i64,
    pub speed: i64,
    pub bonus_dmg: i64,
    pub speed_traits: Vec<SpeedTrait>,
    pub senses: Vec<AncestrySense>,
    pub immunities: Vec<Immunity>,
    pub languages: Vec<Language>,
    pub size: Size,
}

/// A character as listed in the index.
#[derive(Debug)]
pub struct CharacterIndexItem {
    pub id: i64,
    pub name: String,
    pub level: i64,
    pub ancestry: String,
    pub novice_path: String,
    pub expert_path: Option<String>,
    pub master_path: Option<String>,
}

/// The statistics that accumulate from a character's ancestry and the levels of its paths, and
/// the modifiers those bring.
#[derive(Debug)]
pub struct CumulativeFields {
    pub max_health: i64,
    pub nat_def: i64,
    pub arm_def: i64,
    pub speed: i64,
    pub bonus_dmg: i64,
    pub speed_traits: Vec<SpeedTrait>,
    pub senses: Vec<AncestrySense>,
    pub immunities: Vec<Immunity>,
    pub languages: Vec<Language>,
    pub size: Size,
    pub choices: Vec<FullModifier>,
}

/// No talent's modifier text makes the parser stop without a result.
pub open spec fn talents_parse(ts: Seq<FullPathTalent>) -> bool {
    forall|i: int|
        0 <= i < ts.len() ==> ((#[trigger] ts[i]).mod_str matches Option::Some(m) ==> !aborts(
            spec_parse_mods(m@),
        ))
}

/// The modifiers of a list of talents, in order, up to the first text that is rejected, and
/// that text's message.
pub open spec fn gather_talent_mods(ts: Seq<FullPathTalent>) -> (
    Seq<(Seq<char>, SpecModifier)>,
    Option<Seq<char>>,
)
    decreases ts.len(),
{
    if ts.len() == 0 {
        (seq![], Option::None)
    } else {
        let prev = gather_talent_mods(ts.drop_last());
        if prev.1 is Some {
            prev
        } else {
            let t = ts.last();
            match talent_mod_views("PathTalent;"@, t.name@, t.source@, opt_view(t.mod_str)) {
                Result::Ok(cur) => (prev.0 + cur, Option::None),
                Result::Err(e) => (prev.0, Option::Some(e)),
            }
        }
    }
}

/// Appends the modifiers of each talent, in order, stopping at the first text that is rejected.
fn append_talent_mods(choices: &mut Vec<FullModifier>, talents: &Vec<FullPathTalent>) -> (r: Result<
    (),
    WWError,
>)
    requires
        talents_parse(talents@),
    ensures
        mods_view(final(choices)@) == mods_view(old(choices)@) + gather_talent_mods(talents@).0,
        match gather_talent_mods(talents@).1 {
            Option::None => r is Ok,
            Option::Some(e) => r matches Result::Err(WWError::Generic(x)) && x@ == e,
        },
{
    let ghost c0 = mods_view(choices@);
    let ghost ts = talents@;
    let mut k: usize = 0;
    proof {
        assert(ts.take(0) =~= Seq::<FullPathTalent>::empty());
        assert(c0 + seq![] =~= c0);
    }
    while k < talents.len()
        invariant
            k <= talents.len(),
            ts == talents@,
            c0 == mods_view(old(choices)@),
            talents_parse(ts),
            gather_talent_mods(ts.take(k as int)).1 is None,
            mods_view(choices@) == c0 + gather_talent_mods(ts.take(k as int)).0,
        decreases talents.len() - k,
    {
        let t = &talents[k];
        let ghost prev = gather_talent_mods(ts.take(k as int)).0;
        proof {
            lemma_gather_step(ts, k as int);
        }
        let ghost before = choices@;
        match FullModifier::from_path_talent(t.name.as_str(), t.source.as_str(), &t.mod_str) {
            Result::Ok(mods) => {
                let mut mods = mods;
                let ghost mv = mods@;
                choices.append(&mut mods);
                proof {
                    assert(mods_view(choices@) =~= mods_view(before) + mods_view(mv));
                    assert(c0 + prev + mods_view(mv) =~= c0 + (prev + mods_view(mv)));
                }
            },
            Result::Err(e) => {
                proof {
                    let tv = talent_mod_views(
                        "PathTalent;"@,
                        ts[k as int].name@,
                        ts[k as int].source@,
                        opt_view(ts[k as int].mod_str),
                    );
                    assert(tv is Err);
                    assert(gather_talent_mods(ts.take(k + 1)).0 == prev);
                    assert(gather_talent_mods(ts.take(k + 1)).1 is Some);
                    lemma_gather_stops(ts, k as int + 1);
                    assert(gather_talent_mods(ts).0 == prev);
                }
                return Result::Err(e);
            },
        }
        k += 1;
    }
    proof {
        assert(ts.take(talents.len() as int) =~= ts);
    }
    Result::Ok(())
}

/// One more talent: its modifiers are added, or its message stops the gathering.
proof fn lemma_gather_step(ts: Seq<FullPathTalent>, k: int)
    requires
        0 <= k < ts.len(),
        talents_parse(ts),
        gather_talent_mods(ts.take(k)).1 is None,
    ensures
        ts[k].mod_str matches Option::Some(m) ==> !aborts(spec_parse_mods(m@)),
        gather_talent_mods(ts.take(k + 1)) == match talent_mod_views(
            "PathTalent;"@,
            ts[k].name@,
            ts[k].source@,
            opt_view(ts[k].mod_str),
        ) {
            Result::Ok(cur) => (gather_talent_mods(ts.take(k)).0 + cur, Option::None),
            Result::Err(e) => (gather_talent_mods(ts.take(k)).0, Option::Some(e)),
        },
{
    assert(ts.take(k + 1).drop_last() =~= ts.take(k));
    assert(ts.take(k + 1).last() == ts[k]);
}

/// Once a text is rejected, the talents after it change nothing.
proof fn lemma_gather_stops(ts: Seq<FullPathTalent>, k: int)
    requires
        0 <= k <= ts.len(),
        gather_talent_mods(ts.take(k)).1 is Some,
    ensures
        gather_talent_mods(ts) == gather_talent_mods(ts.take(k)),
    decreases ts.len() - k,
{
    if k < ts.len() {
        assert(ts.take(k + 1).drop_last() =~= ts.take(k));
        lemma_gather_stops(ts, k + 1);
    } else {
        assert(ts.take(k) =~= ts);
    }
}

/// `value` held between `min` and `max`: `min` where it is at most `min`, else `max` where it
/// is at least `max`.
pub open spec fn clamped(value: i64, min: i64, max: i64) -> i64 {
    if value <= min {
        min
    } else if value >= max {
        max
    } else {
        value
    }
}

/// Where `min` is at most `max`, the clamped value lies between them, and a value strictly
/// between them is kept.
pub proof fn lemma_clamp_within(value: i64, min: i64, max: i64)
    requires
        min <= max,
    ensures
        min <= clamped(value, min, max) <= max,
        min < value < max ==> clamped(value, min, max) == value,
{
}

pub fn clamp(value: i64, min: i64, max: i64) -> (r: i64)
    ensures
        r == clamped(value, min, max),
{
    if value <= min {
        min
    } else if value >= max {
        max
    } else {
        value
    }
}

/// A character's health and damage as shown: health between zero and the maximum health, and
/// damage between zero and that health.
pub fn health_and_damage(health: i64, damage: i64, max_health: i64) -> (r: (i64, i64))
    ensures
        r.0 == clamped(health, 0, max_health),
        r.1 == clamped(damage, 0, r.0),
        max_health >= 0 ==> 0 <= r.1 <= r.0 <= max_health,
{
    let h = clamp(health, 0, max_health);
    let d = clamp(damage, 0, h);
    proof {
        if max_health >= 0 {
            lemma_clamp_within(health, 0, max_health);
            lemma_clamp_within(damage, 0, h);
        }
    }
    (h, d)
}

/// A new character's health: the health of the first level of its novice path, plus its
/// ancestry's, where the ancestry adds any.
pub fn initial_health(ancestry_health: Option<i64>, level_one_health: i64) -> (r: i64)
    requires
        in_i64(level_one_health + match ancestry_health {
            Option::Some(h) => h as int,
            Option::None => 0int,
        }),
    ensures
        r == level_one_health + match ancestry_health {
            Option::Some(h) => h as int,
            Option::None => 0int,
        },
{
    let extra: i64 = match ancestry_health {
        Option::Some(h) => h,
        Option::None => 0,
    };
    level_one_health + extra
}

/// The permanent, unconditional choice of `target`.
pub open spec fn level_choice_view(path_str: Seq<char>, target: SpecChooseTarget) -> (
    Seq<char>,
    SpecModifier,
) {
    (
        path_str,
        SpecModifier {
            when: WhenMod::Permanent,
            target: SpecTarget::Choose(target),
            condition: SpecCondition::Always,
        },
    )
}

/// The choice a path level asks for, made permanently and without a condition.
pub fn level_choice(path_str: String, choose_target: ChooseTarget) -> (r: FullModifier)
    ensures
        full_mod_view(r) == level_choice_view(path_str@, choose_target.deep_view()),
{
    FullModifier {
        path_str,
        mod_details: Modifier {
            when: WhenMod::Permanent,
            target: Target::Choose(choose_target),
            condition: Condition::Always,
        },
    }
}

/// The path string of a level's choice: `{kind};{path};lvl{level};`.
pub open spec fn level_path(kind: Seq<char>, path_name: Seq<char>, level: i64) -> Seq<char> {
    kind + path_name + ";lvl"@ + int_decimal(level as int) + seq![';']
}

pub open spec fn if_then(c: bool, x: (Seq<char>, SpecModifier)) -> Seq<(Seq<char>, SpecModifier)> {
    if c {
        seq![x]
    } else {
        seq![]
    }
}

/// The choices a level asks for: languages, traditions, and novice, expert and master spells,
/// each where the level gives at least one. The spell choices take their number from the
/// level's tradition choices.
pub open spec fn level_choices(level: FullLevel, path_name: Seq<char>) -> Seq<
    (Seq<char>, SpecModifier),
> {
    if_then(
        level.lang_choices > 0,
        level_choice_view(
            level_path("Language;"@, path_name, level.level),
            SpecChooseTarget::Language(level.lang_choices as u32),
        ),
    ) + if_then(
        level.trad_choices > 0,
        level_choice_view(
            level_path("Tradition;"@, path_name, level.level),
            SpecChooseTarget::Tradition(level.trad_choices as u32),
        ),
    ) + if_then(
        level.novice_spells > 0,
        level_choice_view(
            level_path("NoviceSpell;"@, path_name, level.level),
            SpecChooseTarget::NoviceSpell(level.trad_choices as u32),
        ),
    ) + if_then(
        level.expert_spells > 0,
        level_choice_view(
            level_path("ExpertSpell;"@, path_name, level.level),
            SpecChooseTarget::ExpertSpell(level.trad_choices as u32),
        ),
    ) + if_then(
        level.master_spells > 0,
        level_choice_view(
            level_path("MasterSpell;"@, path_name, level.level),
            SpecChooseTarget::MasterSpell(level.trad_choices as u32),
        ),
    )
}

/// What a level asks its character to choose, each permanently and without a condition, under
/// the path string of its kind: languages where it gives language choices, traditions where it
/// gives tradition choices, and a novice, expert or master spell where it gives spells of that
/// tier; the spell choices count the level's tradition choices. Nothing else is asked.
pub proof fn lemma_level_choice_kinds(level: FullLevel, path_name: Seq<char>)
    ensures
        level_choices(level, path_name).len() == (if level.lang_choices > 0 { 1int } else { 0 })
            + (if level.trad_choices > 0 { 1int } else { 0 }) + (if level.novice_spells > 0 {
            1int
        } else {
            0
        }) + (if level.expert_spells > 0 { 1int } else { 0 }) + (if level.master_spells > 0 {
            1int
        } else {
            0
        }),
        forall|k: int|
            0 <= k < level_choices(level, path_name).len() ==> (#[trigger] level_choices(
                level,
                path_name,
            )[k]).1.when == WhenMod::Permanent && level_choices(level, path_name)[k].1.condition
                == SpecCondition::Always,
        level.lang_choices > 0 ==> level_choices(level, path_name).contains(
            (
                level_path("Language;"@, path_name, level.level),
                (SpecModifier {
                    when: WhenMod::Permanent,
                    target: SpecTarget::Choose(SpecChooseTarget::Language(level.lang_choices as u32)),
                    condition: SpecCondition::Always,
                }),
            ),
        ),
        level.trad_choices > 0 ==> level_choices(level, path_name).contains(
            (
                level_path("Tradition;"@, path_name, level.level),
                (SpecModifier {
                    when: WhenMod::Permanent,
                    target: SpecTarget::Choose(SpecChooseTarget::Tradition(level.trad_choices as u32)),
                    condition: SpecCondition::Always,
                }),
            ),
        ),
        level.novice_spells > 0 ==> level_choices(level, path_name).contains(
            (
                level_path("NoviceSpell;"@, path_name, level.level),
                (SpecModifier {
                    when: WhenMod::Permanent,
                    target: SpecTarget::Choose(
                        SpecChooseTarget::NoviceSpell(level.trad_choices as u32),
                    ),
                    condition: SpecCondition::Always,
                }),
            ),
        ),
        level.expert_spells > 0 ==> level_choices(level, path_name).contains(
            (
                level_path("ExpertSpell;"@, path_name, level.level),
                (SpecModifier {
                    when: WhenMod::Permanent,
                    target: SpecTarget::Choose(
                        SpecChooseTarget::ExpertSpell(level.trad_choices as u32),
                    ),
                    condition: SpecCondition::Always,
                }),
            ),
        ),
        level.master_spells > 0 ==> level_choices(level, path_name).contains(
            (
                level_path("MasterSpell;"@, path_name, level.level),
                (SpecModifier {
                    when: WhenMod::Permanent,
                    target: SpecTarget::Choose(
                        SpecChooseTarget::MasterSpell(level.trad_choices as u32),
                    ),
                    condition: SpecCondition::Always,
                }),
            ),
        ),
{
    let a = if_then(
        level.lang_choices > 0,
        level_choice_view(
            level_path("Language;"@, path_name, level.level),
            SpecChooseTarget::Language(level.lang_choices as u32),
        ),
    );
    let b = if_then(
        level.trad_choices > 0,
        level_choice_view(
            level_path("Tradition;"@, path_name, level.level),
            SpecChooseTarget::Tradition(level.trad_choices as u32),
        ),
    );
    let c = if_then(
        level.novice_spells > 0,
        level_choice_view(
            level_path("NoviceSpell;"@, path_name, level.level),
            SpecChooseTarget::NoviceSpell(level.trad_choices as u32),
        ),
    );
    let d = if_then(
        level.expert_spells > 0,
        level_choice_view(
            level_path("ExpertSpell;"@, path_name, level.level),
            SpecChooseTarget::ExpertSpell(level.trad_choices as u32),
        ),
    );
    let e = if_then(
        level.master_spells > 0,
        level_choice_view(
            level_path("MasterSpell;"@, path_name, level.level),
            SpecChooseTarget::MasterSpell(level.trad_choices as u32),
        ),
    );
    let all = level_choices(level, path_name);
    assert(all == a + b + c + d + e);
    let ab = a + b;
    let abc = ab + c;
    let abcd = abc + d;
    if level.lang_choices > 0 {
        assert(all[0] == a[0]);
    }
    if level.trad_choices > 0 {
        assert(all[a.len() as int] == b[0]);
    }
    if level.novice_spells > 0 {
        assert(all[ab.len() as int] == c[0]);
    }
    if level.expert_spells > 0 {
        assert(all[abc.len() as int] == d[0]);
    }
    if level.master_spells > 0 {
        assert(all[abcd.len() as int] == e[0]);
    }
    assert forall|k: int| 0 <= k < all.len() implies (#[trigger] all[k]).1.when
        == WhenMod::Permanent && all[k].1.condition == SpecCondition::Always by {
        if k < a.len() {
            assert(all[k] == a[k]);
        } else if k < ab.len() {
            assert(all[k] == b[k - a.len()]);
        } else if k < abc.len() {
            assert(all[k] == c[k - ab.len()]);
        } else if k < abcd.len() {
            assert(all[k] == d[k - abc.len()]);
        } else {
            assert(all[k] == e[k - abcd.len()]);
        }
    }
}

/// Builds `{kind}{path_name};lvl{level};`.
fn level_path_string(kind: &str, path_name: &str, level: i64) -> (r: String)
    ensures
        r@ == level_path(kind@, path_name@, level),
{
    let mut s = kind.to_string();
    append_string(&mut s, &path_name.to_string());
    append_string(&mut s, &String::from_str(";lvl"));
    append_string(&mut s, &i64_to_string(level));
    push_char(&mut s, ';');
    proof {
        assert(s@ =~= level_path(kind@, path_name@, level));
    }
    s
}

impl CumulativeFields {
    /// The fields an ancestry starts a character with: its health, natural defense, speed,
    /// traits, senses, immunities, languages and size, and the modifiers of its talents.
    pub fn from_ancestry(ancestry: &FullAncestry) -> (r: Result<Self, WWError>)
        requires
            talents_parse(ancestry.talents@),
        ensures
            match gather_talent_mods(ancestry.talents@).1 {
                Option::Some(e) => r matches Result::Err(WWError::Generic(x)) && x@ == e,
                Option::None => r matches Result::Ok(f) && {
                    &&& f.max_health == match ancestry.add_health {
                        Option::Some(h) => h,
                        Option::None => 0,
                    }
                    &&& f.nat_def == match ancestry.add_nat_def {
                        Option::Some(d) => d,
                        Option::None => 0,
                    }
                    &&& f.speed == ancestry.speed
                    &&& f.arm_def == 0
                    &&& f.bonus_dmg == 0
                    &&& f.speed_traits@ == ancestry.speed_traits@
                    &&& f.senses@ == ancestry.senses@
                    &&& f.immunities@ == ancestry.immunities@
                    &&& f.languages@ == ancestry.languages@
                    &&& f.size == ancestry.size
                    &&& mods_view(f.choices@) == gather_talent_mods(ancestry.talents@).0
                },
            },
    {
        let mut choices: Vec<FullModifier> = Vec::new();
        proof {
            assert(mods_view(choices@) =~= seq![]);
        }
        append_talent_mods(&mut choices, &ancestry.talents)?;
        proof {
            assert(seq![] + gather_talent_mods(ancestry.talents@).0 =~= gather_talent_mods(
                ancestry.talents@,
            ).0);
        }
        let speed_traits = ancestry.speed_traits.clone();
        let senses = ancestry.senses.clone();
        let immunities = ancestry.immunities.clone();
        let languages = ancestry.languages.clone();
        proof {
            assert(speed_traits@ =~= ancestry.speed_traits@);
            assert(senses@ =~= ancestry.senses@);
            assert(immunities@ =~= ancestry.immunities@);
            assert(languages@ =~= ancestry.languages@);
        }
        Result::Ok(
            CumulativeFields {
                max_health: match ancestry.add_health {
                    Option::Some(h) => h,
                    Option::None => 0,
                },
                nat_def: match ancestry.add_nat_def {
                    Option::Some(d) => d,
                    Option::None => 0,
                },
                speed: ancestry.speed,
                speed_traits,
                senses,
                immunities,
                languages,
                size: ancestry.size,
                arm_def: 0,
                bonus_dmg: 0,
                choices,
            },
        )
    }
}


/// Appends the choice of `target` for a level where `wanted` holds.
fn push_level_choice(
    choices: &mut Vec<FullModifier>,
    wanted: bool,
    kind: &str,
    path_name: &str,
    level: i64,
    target: ChooseTarget,
)
    ensures
        mods_view(final(choices)@) == mods_view(old(choices)@) + if_then(
            wanted,
            level_choice_view(level_path(kind@, path_name@, level), target.deep_view()),
        ),
{
    if wanted {
        let ghost before = choices@;
        let c = level_choice(level_path_string(kind, path_name, level), target);
        choices.push(c);
        proof {
            assert(mods_view(choices@) =~= mods_view(before).push(full_mod_view(c)));
        }
    } else {
        assert(mods_view(choices@) =~= mods_view(choices@) + seq![]);
    }
}

/// The parts of the cumulative fields that levels change.
pub struct FieldsView {
    pub max_health: int,
    pub nat_def: int,
    pub arm_def: int,
    pub speed: int,
    pub bonus_dmg: int,
    pub speed_traits: Seq<SpeedTrait>,
    pub size: Size,
    pub choices: Seq<(Seq<char>, SpecModifier)>,
}

pub open spec fn fields_view(f: CumulativeFields) -> FieldsView {
    FieldsView {
        max_health: f.max_health as int,
        nat_def: f.nat_def as int,
        arm_def: f.arm_def as int,
        speed: f.speed as int,
        bonus_dmg: f.bonus_dmg as int,
        speed_traits: f.speed_traits@,
        size: f.size,
        choices: mods_view(f.choices@),
    }
}

/// The fields once a level of the named path is added (see `process_level`).
pub open spec fn level_step(f: FieldsView, level: FullLevel, path_name: Seq<char>) -> FieldsView {
    FieldsView {
        max_health: f.max_health + level.add_health,
        nat_def: f.nat_def + level.add_nat_def,
        arm_def: f.arm_def + level.add_arm_def,
        speed: f.speed + level.add_speed,
        bonus_dmg: f.bonus_dmg + level.add_bonus_dmg,
        speed_traits: f.speed_traits + level.speed_traits@,
        size: match level.size {
            Option::Some(s) => s,
            Option::None => f.size,
        },
        choices: f.choices + level_choices(level, path_name) + gather_talent_mods(
            level.path_talents@,
        ).0,
    }
}

/// The sums of adding a level fit in an `i64`.
pub open spec fn level_fits(f: FieldsView, level: FullLevel) -> bool {
    &&& in_i64(f.max_health + level.add_health)
    &&& in_i64(f.nat_def + level.add_nat_def)
    &&& in_i64(f.arm_def + level.add_arm_def)
    &&& in_i64(f.speed + level.add_speed)
    &&& in_i64(f.bonus_dmg + level.add_bonus_dmg)
}

/// Adds, in order, the levels of a path up to the character's level: each level at or below it
/// is added, and the first one whose talent texts are rejected stops the run with its message.
/// The fields as they stand then, and the message if any.
pub open spec fn path_fields(
    f: FieldsView,
    levels: Seq<FullLevel>,
    character_level: i64,
    path_name: Seq<char>,
) -> (FieldsView, Option<Seq<char>>)
    decreases levels.len(),
{
    if levels.len() == 0 {
        (f, Option::None)
    } else if levels[0].level > character_level {
        path_fields(f, levels.skip(1), character_level, path_name)
    } else {
        let f2 = level_step(f, levels[0], path_name);
        match gather_talent_mods(levels[0].path_talents@).1 {
            Option::Some(e) => (f2, Option::Some(e)),
            Option::None => path_fields(f2, levels.skip(1), character_level, path_name),
        }
    }
}

/// Every level that the run of `path_fields` reaches has sums that fit and talent texts on
/// which the parser does not stop without a result.
pub open spec fn path_runs(
    f: FieldsView,
    levels: Seq<FullLevel>,
    character_level: i64,
    path_name: Seq<char>,
) -> bool
    decreases levels.len(),
{
    if levels.len() == 0 {
        true
    } else if levels[0].level > character_level {
        path_runs(f, levels.skip(1), character_level, path_name)
    } else {
        &&& level_fits(f, levels[0])
        &&& talents_parse(levels[0].path_talents@)
        &&& (gather_talent_mods(levels[0].path_talents@).1 is Some || path_runs(
            level_step(f, levels[0], path_name),
            levels.skip(1),
            character_level,
            path_name,
        ))
    }
}

impl CumulativeFields {
    /// Adds what a level of a path gives: its numbers, its speed traits, its size where it sets
    /// one, the choices it asks for, and the modifiers of its talents. Stops at the first talent
    /// whose text is rejected.
    #[verifier::rlimit(30)]
    pub fn process_level(&mut self, level: &FullLevel, path_name: &str) -> (r: Result<(), WWError>)
        requires
            in_i64(old(self).max_health + level.add_health),
            in_i64(old(self).nat_def + level.add_nat_def),
            in_i64(old(self).arm_def + level.add_arm_def),
            in_i64(old(self).speed + level.add_speed),
            in_i64(old(self).bonus_dmg + level.add_bonus_dmg),
            talents_parse(level.path_talents@),
        ensures
            final(self).max_health == old(self).max_health + level.add_health,
            final(self).nat_def == old(self).nat_def + level.add_nat_def,
            final(self).arm_def == old(self).arm_def + level.add_arm_def,
            final(self).speed == old(self).speed + level.add_speed,
            final(self).bonus_dmg == old(self).bonus_dmg + level.add_bonus_dmg,
            final(self).speed_traits@ == old(self).speed_traits@ + level.speed_traits@,
            final(self).size == match level.size {
                Option::Some(s) => s,
                Option::None => old(self).size,
            },
            final(self).senses == old(self).senses,
            final(self).immunities == old(self).immunities,
            final(self).languages == old(self).languages,
            mods_view(final(self).choices@) == mods_view(old(self).choices@) + level_choices(
                *level,
                path_name@,
            ) + gather_talent_mods(level.path_talents@).0,
            match gather_talent_mods(level.path_talents@).1 {
                Option::None => r is Ok,
                Option::Some(e) => r matches Result::Err(WWError::Generic(x)) && x@ == e,
            },
    {
        self.max_health += level.add_health;
        self.nat_def += level.add_nat_def;
        self.arm_def += level.add_arm_def;
        self.speed += level.add_speed;
        self.bonus_dmg += level.add_bonus_dmg;
        let mut traits = level.speed_traits.clone();
        proof {
            assert(traits@ =~= level.speed_traits@);
        }
        self.speed_traits.append(&mut traits);
        match level.size {
            Option::Some(size) => {
                self.size = size;
            },
            Option::None => {},
        }
        let ghost c_before = mods_view(self.choices@);
        push_level_choice(&mut self.choices, level.lang_choices > 0, "Language;", path_name, level.level,
            ChooseTarget::Language(level.lang_choices as u32));
        push_level_choice(&mut self.choices, level.trad_choices > 0, "Tradition;", path_name, level.level,
            ChooseTarget::Tradition(level.trad_choices as u32));
        push_level_choice(&mut self.choices, level.novice_spells > 0, "NoviceSpell;", path_name,
            level.level, ChooseTarget::NoviceSpell(level.trad_choices as u32));
        push_level_choice(&mut self.choices, level.expert_spells > 0, "ExpertSpell;", path_name,
            level.level, ChooseTarget::ExpertSpell(level.trad_choices as u32));
        push_level_choice(&mut self.choices, level.master_spells > 0, "MasterSpell;", path_name,
            level.level, ChooseTarget::MasterSpell(level.trad_choices as u32));
        proof {
            let l = level_choices(*level, path_name@);
            assert(mods_view(self.choices@) =~= c_before + l);
        }
        append_talent_mods(&mut self.choices, &level.path_talents)
    }

    /// Adds the levels of a path that a character of the given level has reached, in the path's
    /// order, stopping at the first level whose talent texts are rejected.
    pub fn process_path(&mut self, path: &FullPath, character_level: i64) -> (r: Result<(), WWError>)
        requires
            path_runs(fields_view(*old(self)), path.levels@, character_level, path.name@),
        ensures
            fields_view(*final(self)) == path_fields(
                fields_view(*old(self)),
                path.levels@,
                character_level,
                path.name@,
            ).0,
            final(self).senses == old(self).senses,
            final(self).immunities == old(self).immunities,
            final(self).languages == old(self).languages,
            match path_fields(
                fields_view(*old(self)),
                path.levels@,
                character_level,
                path.name@,
            ).1 {
                Option::None => r is Ok,
                Option::Some(e) => r matches Result::Err(WWError::Generic(x)) && x@ == e,
            },
    {
        let ghost ls = path.levels@;
        let ghost name = path.name@;
        let ghost f0 = fields_view(*self);
        let ghost senses0 = self.senses;
        let ghost immunities0 = self.immunities;
        let ghost languages0 = self.languages;
        let n = path.levels.len();
        let mut i: usize = 0;
        proof {
            assert(ls.skip(0) =~= ls);
        }
        while i < n
            invariant
                n == ls.len(),
                ls == path.levels@,
                name == path.name@,
                i <= n,
                path_fields(f0, ls, character_level, name) == path_fields(
                    fields_view(*self),
                    ls.skip(i as int),
                    character_level,
                    name,
                ),
                path_runs(fields_view(*self), ls.skip(i as int), character_level, name),
                self.senses == senses0,
                self.immunities == immunities0,
                self.languages == languages0,
                f0 == fields_view(*old(self)),
                senses0 == old(self).senses,
                immunities0 == old(self).immunities,
                languages0 == old(self).languages,
            decreases n - i,
        {
            let level = &path.levels[i];
            let ghost rest = ls.skip(i as int);
            proof {
                assert(rest[0] == ls[i as int]);
                assert(rest.skip(1) =~= ls.skip(i + 1));
            }
            if level.level <= character_level {
                let ghost before = fields_view(*self);
                let res = self.process_level(level, &path.name);
                proof {
                    assert(fields_view(*self) =~= level_step(before, *level, name));
                    assert(path_fields(before, rest, character_level, name) == match gather_talent_mods(
                        level.path_talents@,
                    ).1 {
                        Option::Some(e) => (level_step(before, *level, name), Option::Some(e)),
                        Option::None => path_fields(
                            level_step(before, *level, name),
                            ls.skip(i + 1),
                            character_level,
                            name,
                        ),
                    });
                }
                if let Result::Err(e) = res {
                    return Result::Err(e);
                }
            }
            i += 1;
        }
        proof {
            assert(ls.skip(n as int) =~= Seq::<FullLevel>::empty());
        }
        Result::Ok(())
    }
}

} // verus!
