//! One step of resolving a character's modifier tree: what a single modifier adds to the
//! selections, given the choice saved for it, and what must be looked up to go deeper.
//!
//! The walk itself alternates between this step and the database: the caller looks up the
//! saved choice that a modifier reads (`saved_key`), runs `collect_node`, fetches the talents
//! and choice options that the returned `NodeWork` names, and repeats for their modifiers.
use vstd::prelude::*;
use crate::db::character_choices::{
    grant_fits, grant_view, granted_traditions, handle_grant_target, handle_lose_target,
    handle_override_target, id_error, lose_view, override_key, override_key_view, override_view,
    parse_id_choice, parse_score_choice, parse_twin_id_choice, score_of, sel_view,
    tradition_talent_choice, twin_ids, CharacterChoice, ModifierSelections, SelView,
};
use crate::mod_dsl::ast::{
    ChooseTarget, SpecChooseTarget, SpecGrantTarget, SpecModifier, SpecTarget, Target, WhenMod,
};
use crate::modifiers::{full_mod_view, mods_view, FullModifier};
use crate::result::WWError;
use crate::text::{append_string, spec_parse_i64};

verus! {

/// What a resolved modifier asks the caller to look up: path talents by (source, name), magic
/// talents by (tradition, name) and by id, choice options by id, and further modifiers to
/// resolve in turn.
#[derive(Debug)]
pub struct NodeWork {
    pub path_talents: Vec<(String, String)>,
    pub magic_talents: Vec<(String, String)>,
    pub magic_talent_ids: Vec<i64>,
    pub choice_selection_ids: Vec<i64>,
    pub new_choice_mods: Vec<FullModifier>,
}

pub struct WorkView {
    pub path_talents: Seq<(Seq<char>, Seq<char>)>,
    pub magic_talents: Seq<(Seq<char>, Seq<char>)>,
    pub magic_talent_ids: Seq<i64>,
    pub choice_selection_ids: Seq<i64>,
    pub new_choice_mods: Seq<(Seq<char>, SpecModifier)>,
}

pub open spec fn work_view(w: NodeWork) -> WorkView {
    WorkView {
        path_talents: w.path_talents.deep_view(),
        magic_talents: w.magic_talents.deep_view(),
        magic_talent_ids: w.magic_talent_ids@,
        choice_selection_ids: w.choice_selection_ids@,
        new_choice_mods: mods_view(w.new_choice_mods@),
    }
}

pub open spec fn no_work() -> WorkView {
    WorkView {
        path_talents: seq![],
        magic_talents: seq![],
        magic_talent_ids: seq![],
        choice_selection_ids: seq![],
        new_choice_mods: seq![],
    }
}

/// What a GRANT leaves to look up: the granted talent or magic talent, and for each granted
/// tradition the choice of one of its talents.
pub open spec fn grant_work(m: FullModifier, g: SpecGrantTarget) -> WorkView {
    WorkView {
        path_talents: match g {
            SpecGrantTarget::Talent(source, name) => seq![(source, name)],
            _ => seq![],
        },
        magic_talents: match g {
            SpecGrantTarget::MagicTalent(tradition, name) => seq![(tradition, name)],
            _ => seq![],
        },
        magic_talent_ids: seq![],
        choice_selection_ids: seq![],
        new_choice_mods: granted_traditions(g).map_values(
            |t: Seq<char>| (m.path_str@, tradition_talent_choice(m.mod_details, t)),
        ),
    }
}

/// The name that tells a choice apart among those of one modifier.
pub open spec fn choice_label(t: SpecChooseTarget) -> Seq<char> {
    match t {
        SpecChooseTarget::Language(_) => "Language"@,
        SpecChooseTarget::Profession(_) => "Profession"@,
        SpecChooseTarget::Tradition(_) => "Tradition"@,
        SpecChooseTarget::NoviceSpell(_) => "NoviceSpell"@,
        SpecChooseTarget::NoviceSpellFrom(_, _) => "NoviceSpellFrom"@,
        SpecChooseTarget::ExpertSpell(_) => "ExpertSpell"@,
        SpecChooseTarget::ExpertSpellFrom(_, _) => "ExpertSpellFrom"@,
        SpecChooseTarget::MasterSpell(_) => "MasterSpell"@,
        SpecChooseTarget::MasterSpellFrom(_, _) => "MasterSpellFrom"@,
        SpecChooseTarget::Select(_, name) => "Select;"@ + name,
        SpecChooseTarget::SelectAgain(_, name) => "SelectAgain;"@ + name,
        SpecChooseTarget::Score(_) => "Score"@,
        SpecChooseTarget::MagicTalent(_, tradition) => "MagicTalent;"@ + tradition,
    }
}

/// The key under which a choice is saved and marked as resolved: `{path};;{label}`.
pub open spec fn choice_key_view(path: Seq<char>, t: SpecChooseTarget) -> Seq<char> {
    path + ";;"@ + choice_label(t)
}

/// The saved choice that a modifier reads: its own for a CHOOSE, the stat block's override
/// choice for an OVERRIDE of a stat block, none otherwise.
pub open spec fn read_key(m: FullModifier) -> Option<Seq<char>> {
    match m.mod_details.target.deep_view() {
        SpecTarget::Choose(t) => Option::Some(choice_key_view(m.path_str@, t)),
        SpecTarget::Override(
            crate::mod_dsl::ast::SpecOverrideTarget::StatBlock(block),
        ) => Option::Some(override_key_view(block)),
        _ => Option::None,
    }
}

/// What a saved selection gives a choice.
pub enum ChoiceEffect {
    Score(int),
    Language(i64),
    Spell(i64),
    Profession(i64),
    Selection(i64),
    Tradition(i64, i64),
    MagicTalent(i64),
}

/// Reads a saved selection for a choice: a score's name, an id, or a tradition and talent id
/// pair; the message of the reader that rejects it otherwise.
pub open spec fn choice_effect(t: SpecChooseTarget, s: Seq<char>) -> Result<ChoiceEffect, Seq<char>> {
    match t {
        SpecChooseTarget::Score(_) => match score_of(s) {
            Option::Some(k) => Result::Ok(ChoiceEffect::Score(k)),
            Option::None => Result::Err("Failed to parse Score choice selection '"@ + s + "'"@),
        },
        SpecChooseTarget::Tradition(_) => match twin_ids(s) {
            Result::Ok((a, b)) => Result::Ok(ChoiceEffect::Tradition(a, b)),
            Result::Err(e) => Result::Err(e),
        },
        _ => match spec_parse_i64(s) {
            Option::None => Result::Err(id_error(s)),
            Option::Some(id) => Result::Ok(
                match t {
                    SpecChooseTarget::Language(_) => ChoiceEffect::Language(id),
                    SpecChooseTarget::Profession(_) => ChoiceEffect::Profession(id),
                    SpecChooseTarget::Select(_, _) => ChoiceEffect::Selection(id),
                    SpecChooseTarget::SelectAgain(_, _) => ChoiceEffect::Selection(id),
                    SpecChooseTarget::MagicTalent(_, _) => ChoiceEffect::MagicTalent(id),
                    _ => ChoiceEffect::Spell(id),
                },
            ),
        },
    }
}

/// The selections once a choice's effect is added: a score goes up by one, an id is listed.
/// Chosen options and magic talents go to the work instead.
pub open spec fn effect_view(v: SelView, e: ChoiceEffect) -> SelView {
    match e {
        ChoiceEffect::Score(k) => SelView {
            strength: v.strength + if k == 0 { 1int } else { 0 },
            agility: v.agility + if k == 1 { 1int } else { 0 },
            intellect: v.intellect + if k == 2 { 1int } else { 0 },
            will: v.will + if k == 3 { 1int } else { 0 },
            ..v
        },
        ChoiceEffect::Language(id) => SelView {
            gained_language_ids: v.gained_language_ids.push(id),
            ..v
        },
        ChoiceEffect::Spell(id) => SelView { gained_spell_ids: v.gained_spell_ids.push(id), ..v },
        ChoiceEffect::Profession(id) => SelView {
            gained_profession_ids: v.gained_profession_ids.push(id),
            ..v
        },
        ChoiceEffect::Tradition(trad, _) => SelView {
            gained_tradition_ids: v.gained_tradition_ids.push(trad),
            ..v
        },
        ChoiceEffect::Selection(_) => v,
        ChoiceEffect::MagicTalent(_) => v,
    }
}

/// What a choice's effect leaves to look up: the chosen option, or the chosen magic talent.
pub open spec fn effect_work(e: ChoiceEffect) -> WorkView {
    WorkView {
        choice_selection_ids: match e {
            ChoiceEffect::Selection(id) => seq![id],
            _ => seq![],
        },
        magic_talent_ids: match e {
            ChoiceEffect::Tradition(_, talent) => seq![talent],
            ChoiceEffect::MagicTalent(id) => seq![id],
            _ => seq![],
        },
        ..no_work()
    }
}

/// The score that a choice raises has room to grow.
pub open spec fn effect_fits(v: SelView, e: ChoiceEffect) -> bool {
    match e {
        ChoiceEffect::Score(k) => {
            &&& k == 0 ==> v.strength < i64::MAX
            &&& k == 1 ==> v.agility < i64::MAX
            &&& k == 2 ==> v.intellect < i64::MAX
            &&& k == 3 ==> v.will < i64::MAX
        },
        _ => true,
    }
}

pub open spec fn saved_selection(saved: Option<&CharacterChoice>) -> Option<Seq<char>> {
    match saved {
        Option::Some(c) => Option::Some(c.selection@),
        Option::None => Option::None,
    }
}

/// The sums that resolving the modifier makes fit in an `i64`.
pub open spec fn node_fits(
    v: SelView,
    m: FullModifier,
    saved: Option<Seq<char>>,
    processed: Seq<Seq<char>>,
) -> bool {
    match m.mod_details.target.deep_view() {
        SpecTarget::Grant(g) => grant_fits(v, g),
        SpecTarget::Choose(t) => !processed.contains(choice_key_view(m.path_str@, t)) ==> match saved {
            Option::Some(s) => match choice_effect(t, s) {
                Result::Ok(e) => effect_fits(v, e),
                Result::Err(_) => true,
            },
            Option::None => true,
        },
        _ => true,
    }
}

/// The selection `s` for the choice `t` reads, and gives exactly the selections `expected`
/// from `v` and the work `work`.
pub open spec fn resolves_to(
    t: SpecChooseTarget,
    s: Seq<char>,
    v: SelView,
    expected: SelView,
    work: WorkView,
) -> bool {
    match choice_effect(t, s) {
        Result::Ok(e) => effect_view(v, e) == expected && effect_work(e) == work,
        Result::Err(_) => false,
    }
}

/// Where each kind of saved selection lands: a language id in the language ids, a profession id
/// in the profession ids, a spell id of any tier in the spell ids, a tradition pair's tradition
/// in the tradition ids and its talent among the magic talents to look up, a chosen option
/// among the options to look up, a chosen magic talent among the magic talents to look up, and
/// a score's name raises that score by one. Nothing else changes. An id kind whose selection is
/// not a number is rejected with the id message.
pub proof fn lemma_choice_destinations(v: SelView, t: SpecChooseTarget, s: Seq<char>, id: i64)
    ensures
        spec_parse_i64(s) == Option::Some(id) && t is Language ==> resolves_to(
            t,
            s,
            v,
            (SelView { gained_language_ids: v.gained_language_ids.push(id), ..v }),
            no_work(),
        ),
        spec_parse_i64(s) == Option::Some(id) && t is Profession ==> resolves_to(
            t,
            s,
            v,
            (SelView { gained_profession_ids: v.gained_profession_ids.push(id), ..v }),
            no_work(),
        ),
        spec_parse_i64(s) == Option::Some(id) && (t is NoviceSpell || t is NoviceSpellFrom
            || t is ExpertSpell || t is ExpertSpellFrom || t is MasterSpell || t is MasterSpellFrom)
            ==> resolves_to(
            t,
            s,
            v,
            (SelView { gained_spell_ids: v.gained_spell_ids.push(id), ..v }),
            no_work(),
        ),
        spec_parse_i64(s) == Option::Some(id) && (t is Select || t is SelectAgain) ==> resolves_to(
            t,
            s,
            v,
            v,
            (WorkView { choice_selection_ids: seq![id], ..no_work() }),
        ),
        spec_parse_i64(s) == Option::Some(id) && t is MagicTalent ==> resolves_to(
            t,
            s,
            v,
            v,
            (WorkView { magic_talent_ids: seq![id], ..no_work() }),
        ),
        spec_parse_i64(s) is None && !(t is Score) && !(t is Tradition) ==> choice_effect(t, s)
            == Result::<ChoiceEffect, Seq<char>>::Err(id_error(s)),
        t is Tradition ==> (twin_ids(s) matches Result::Ok((trad, talent)) ==> resolves_to(
            t,
            s,
            v,
            (SelView { gained_tradition_ids: v.gained_tradition_ids.push(trad), ..v }),
            (WorkView { magic_talent_ids: seq![talent], ..no_work() }),
        )),
        t is Tradition ==> (twin_ids(s) matches Result::Err(m) ==> choice_effect(t, s)
            == Result::<ChoiceEffect, Seq<char>>::Err(m)),
        t is Score && s == "Strength"@ ==> resolves_to(
            t,
            s,
            v,
            (SelView { strength: v.strength + 1, ..v }),
            no_work(),
        ),
        t is Score && s == "Agility"@ ==> resolves_to(
            t,
            s,
            v,
            (SelView { agility: v.agility + 1, ..v }),
            no_work(),
        ),
        t is Score && s == "Intellect"@ ==> resolves_to(
            t,
            s,
            v,
            (SelView { intellect: v.intellect + 1, ..v }),
            no_work(),
        ),
        t is Score && s == "Will"@ ==> resolves_to(t, s, v, (SelView { will: v.will + 1, ..v }), no_work()),
{
    reveal_strlit("Strength");
    reveal_strlit("Agility");
    reveal_strlit("Intellect");
    reveal_strlit("Will");
    if t is Score {
        if s == "Agility"@ {
            assert(s != "Strength"@) by {
                assert(s[0] != "Strength"@[0]);
            }
        }
        if s == "Intellect"@ {
            assert(s != "Strength"@) by {
                assert(s[0] != "Strength"@[0]);
            }
            assert(s != "Agility"@) by {
                assert(s[0] != "Agility"@[0]);
            }
        }
        if s == "Will"@ {
            assert(s != "Strength"@) by {
                assert(s[0] != "Strength"@[0]);
            }
            assert(s != "Agility"@) by {
                assert(s[0] != "Agility"@[0]);
            }
            assert(s != "Intellect"@) by {
                assert(s[0] != "Intellect"@[0]);
            }
        }
    }
    assert(effect_work(ChoiceEffect::Spell(id)) =~= no_work());
}

/// The label of a choice (see `choice_label`).
fn choice_label_of(t: &ChooseTarget) -> (r: String)
    ensures
        r@ == choice_label(t.deep_view()),
{
    match t {
        ChooseTarget::Language(_) => String::from_str("Language"),
        ChooseTarget::Profession(_) => String::from_str("Profession"),
        ChooseTarget::Tradition(_) => String::from_str("Tradition"),
        ChooseTarget::NoviceSpell(_) => String::from_str("NoviceSpell"),
        ChooseTarget::NoviceSpellFrom(_, _) => String::from_str("NoviceSpellFrom"),
        ChooseTarget::ExpertSpell(_) => String::from_str("ExpertSpell"),
        ChooseTarget::ExpertSpellFrom(_, _) => String::from_str("ExpertSpellFrom"),
        ChooseTarget::MasterSpell(_) => String::from_str("MasterSpell"),
        ChooseTarget::MasterSpellFrom(_, _) => String::from_str("MasterSpellFrom"),
        ChooseTarget::Select(_, name) => {
            let mut r = String::from_str("Select;");
            append_string(&mut r, name);
            r
        },
        ChooseTarget::SelectAgain(_, name) => {
            let mut r = String::from_str("SelectAgain;");
            append_string(&mut r, name);
            r
        },
        ChooseTarget::Score(_) => String::from_str("Score"),
        ChooseTarget::MagicTalent(_, tradition) => {
            let mut r = String::from_str("MagicTalent;");
            append_string(&mut r, tradition);
            r
        },
    }
}

/// The key under which the choice of a modifier's path is saved and marked as resolved.
pub fn choice_key(path: &String, t: &ChooseTarget) -> (r: String)
    ensures
        r@ == choice_key_view(path@, t.deep_view()),
{
    let mut key = String::new();
    append_string(&mut key, path);
    key.append(";;");
    let label = choice_label_of(t);
    append_string(&mut key, &label);
    key
}

/// The key of the saved choice that a modifier reads, if it reads one.
pub fn saved_key(m: &FullModifier) -> (r: Option<String>)
    ensures
        match read_key(*m) {
            Option::Some(k) => r matches Option::Some(x) && x@ == k,
            Option::None => r is None,
        },
{
    match &m.mod_details.target {
        Target::Choose(t) => Option::Some(choice_key(&m.path_str, t)),
        Target::Override(crate::mod_dsl::ast::OverrideTarget::StatBlock(block)) => Option::Some(
            override_key(block),
        ),
        _ => Option::None,
    }
}

fn key_listed(list: &Vec<String>, key: &String) -> (r: bool)
    ensures
        r == list.deep_view().contains(key@),
{
    let mut i: usize = 0;
    while i < list.len()
        invariant
            i <= list.len(),
            forall|k: int| 0 <= k < i ==> list.deep_view()[k] != key@,
        decreases list.len() - i,
    {
        if list[i] == *key {
            assert(list.deep_view()[i as int] == key@);
            return true;
        }
        i += 1;
    }
    false
}

impl NodeWork {
    pub fn new() -> (r: Self)
        ensures
            work_view(r) == no_work(),
    {
        let r = NodeWork {
            path_talents: Vec::new(),
            magic_talents: Vec::new(),
            magic_talent_ids: Vec::new(),
            choice_selection_ids: Vec::new(),
            new_choice_mods: Vec::new(),
        };
        assert(work_view(r) =~= no_work()) by {
            assert(r.path_talents.deep_view() =~= seq![]);
            assert(r.magic_talents.deep_view() =~= seq![]);
            assert(mods_view(r.new_choice_mods@) =~= seq![]);
        }
        r
    }
}

/// Resolves one modifier of a character's tree into the selections.
///
/// `saved` is the choice saved under the modifier's `saved_key`, if any, and `processed` lists
/// the keys of the choices already resolved. A GRANT adds its numbers and names and leaves the
/// granted talents and the talent choices of granted traditions to look up; a LOSE records the
/// lost talent; an OVERRIDE of a stat block records the saved index, or -1 where the selection
/// is not a number; an APPLY changes nothing. A CHOOSE whose key was already resolved changes
/// nothing; otherwise its key is marked, and its saved selection is read: a score goes up by
/// one, an id is listed, a chosen option or magic talent is left to look up. A choice made
/// permanently with nothing saved is listed as required. A selection that cannot be read is
/// reported with its message, and the selections stay as they were.
pub fn collect_node(
    modifier: &FullModifier,
    saved: Option<&CharacterChoice>,
    processed: &mut Vec<String>,
    selections: &mut ModifierSelections,
) -> (r: Result<NodeWork, WWError>)
    requires
        node_fits(
            sel_view(*old(selections)),
            *modifier,
            saved_selection(saved),
            old(processed).deep_view(),
        ),
    ensures
        match modifier.mod_details.target.deep_view() {
            SpecTarget::Grant(g) => {
                &&& r matches Result::Ok(w) && work_view(w) == grant_work(*modifier, g)
                &&& sel_view(*final(selections)) == grant_view(sel_view(*old(selections)), g)
                &&& final(processed)@ == old(processed)@
            },
            SpecTarget::Lose(l) => {
                &&& r matches Result::Ok(w) && work_view(w) == no_work()
                &&& sel_view(*final(selections)) == lose_view(sel_view(*old(selections)), l)
                &&& final(processed)@ == old(processed)@
            },
            SpecTarget::Override(o) => {
                &&& r matches Result::Ok(w) && work_view(w) == no_work()
                &&& sel_view(*final(selections)) == override_view(
                    sel_view(*old(selections)),
                    o,
                    saved_selection(saved),
                )
                &&& final(processed)@ == old(processed)@
            },
            SpecTarget::Apply(_) => {
                &&& r matches Result::Ok(w) && work_view(w) == no_work()
                &&& *final(selections) == *old(selections)
                &&& final(processed)@ == old(processed)@
            },
            SpecTarget::Choose(t) => {
                let key = choice_key_view(modifier.path_str@, t);
                if old(processed).deep_view().contains(key) {
                    &&& r matches Result::Ok(w) && work_view(w) == no_work()
                    &&& *final(selections) == *old(selections)
                    &&& final(processed)@ == old(processed)@
                } else {
                    &&& final(processed).deep_view() == old(processed).deep_view().push(key)
                    &&& match saved_selection(saved) {
                        Option::None => {
                            &&& r matches Result::Ok(w) && work_view(w) == no_work()
                            &&& sel_view(*final(selections)) == SelView {
                                required_choices: final(selections).required_choices@,
                                ..sel_view(*old(selections))
                            }
                            &&& mods_view(final(selections).required_choices@) == mods_view(
                                old(selections).required_choices@,
                            ) + if modifier.mod_details.when is Permanent {
                                seq![full_mod_view(*modifier)]
                            } else {
                                seq![]
                            }
                        },
                        Option::Some(sel) => match choice_effect(t, sel) {
                            Result::Ok(e) => {
                                &&& r matches Result::Ok(w) && work_view(w) == effect_work(e)
                                &&& sel_view(*final(selections)) == effect_view(
                                    sel_view(*old(selections)),
                                    e,
                                )
                            },
                            Result::Err(m) => {
                                &&& r matches Result::Err(WWError::Generic(x)) && x@ == m
                                &&& sel_view(*final(selections)) == sel_view(*old(selections))
                            },
                        },
                    }
                }
            },
        },
{
    let mut work = NodeWork::new();
    match &modifier.mod_details.target {
        Target::Grant(g) => {
            let g2 = g.clone();
            let ghost c0len = work.new_choice_mods@.len();
            assert(mods_view(work.new_choice_mods@).len() == c0len);
            assert(c0len == 0);
            handle_grant_target(
                g2,
                modifier,
                selections,
                &mut work.new_choice_mods,
                &mut work.path_talents,
                &mut work.magic_talents,
            );
            proof {
                let gv = g.deep_view();
                let expected = grant_work(*modifier, gv);
                assert(work.path_talents.deep_view() =~= expected.path_talents);
                assert(work.magic_talents.deep_view() =~= expected.magic_talents);
                assert(c0len == 0);
                assert(work.new_choice_mods@.len() == granted_traditions(gv).len());
                assert forall|k: int| 0 <= k < granted_traditions(gv).len() implies #[trigger] mods_view(
                    work.new_choice_mods@,
                )[k] == expected.new_choice_mods[k] by {
                    let c = work.new_choice_mods@[c0len + k];
                    assert(c.path_str@ == modifier.path_str@);
                    assert(c == work.new_choice_mods@[k]);
                }
                assert(mods_view(work.new_choice_mods@) =~= expected.new_choice_mods);
            }
            Result::Ok(work)
        },
        Target::Lose(l) => {
            handle_lose_target(l.clone(), selections);
            Result::Ok(work)
        },
        Target::Override(o) => {
            let sel = match saved {
                Option::Some(c) => Option::Some(&c.selection),
                Option::None => Option::None,
            };
            handle_override_target(o.clone(), sel, selections);
            Result::Ok(work)
        },
        Target::Apply(_) => Result::Ok(work),
        Target::Choose(t) => {
            let key = choice_key(&modifier.path_str, t);
            if key_listed(processed, &key) {
                return Result::Ok(work);
            }
            let ghost p0 = processed.deep_view();
            processed.push(key);
            proof {
                assert(processed.deep_view() =~= p0.push(choice_key_view(
                    modifier.path_str@,
                    t.deep_view(),
                )));
            }
            match saved {
                Option::None => {
                    if matches!(modifier.mod_details.when, WhenMod::Permanent) {
                        let ghost r0 = selections.required_choices@;
                        let c = modifier.clone();
                        selections.required_choices.push(c);
                        proof {
                            assert(mods_view(selections.required_choices@) =~= mods_view(r0)
                                + seq![full_mod_view(*modifier)]);
                        }
                    } else {
                        proof {
                            assert(mods_view(selections.required_choices@) =~= mods_view(
                                selections.required_choices@,
                            ) + seq![]);
                        }
                    }
                    Result::Ok(work)
                },
                Option::Some(c) => {
                    let entry = c.selection.as_str();
                    match t {
                        ChooseTarget::Score(_) => {
                            match parse_score_choice(entry, selections) {
                                Result::Ok(()) => Result::Ok(work),
                                Result::Err(e) => Result::Err(e),
                            }
                        },
                        ChooseTarget::Tradition(_) => {
                            match parse_twin_id_choice(entry) {
                                Result::Ok((trad, talent)) => {
                                    selections.gained_tradition_ids.push(trad);
                                    work.magic_talent_ids.push(talent);
                                    proof {
                                        assert(work.magic_talent_ids@ =~= seq![talent]);
                                    }
                                    Result::Ok(work)
                                },
                                Result::Err(e) => Result::Err(e),
                            }
                        },
                        _ => {
                            match parse_id_choice(entry) {
                                Result::Err(e) => Result::Err(e),
                                Result::Ok(id) => {
                                    match t {
                                        ChooseTarget::Language(_) => {
                                            selections.gained_language_ids.push(id);
                                        },
                                        ChooseTarget::Profession(_) => {
                                            selections.gained_profession_ids.push(id);
                                        },
                                        ChooseTarget::Select(_, _) | ChooseTarget::SelectAgain(
                                            _,
                                            _,
                                        ) => {
                                            work.choice_selection_ids.push(id);
                                            proof {
                                                assert(work.choice_selection_ids@ =~= seq![id]);
                                            }
                                        },
                                        ChooseTarget::MagicTalent(_, _) => {
                                            work.magic_talent_ids.push(id);
                                            proof {
                                                assert(work.magic_talent_ids@ =~= seq![id]);
                                            }
                                        },
                                        _ => {
                                            selections.gained_spell_ids.push(id);
                                        },
                                    }
                                    Result::Ok(work)
                                },
                            }
                        },
                    }
                },
            }
        },
    }
}

} // verus!
