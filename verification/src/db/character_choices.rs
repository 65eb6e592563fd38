//! What a character gains from its modifiers and choices.
//!
//! The modifiers of a character form a tree: a talent that is gained brings its own modifiers,
//! which can bring further talents. `ModifierSelections` holds one level of that tree: the
//! stats and traits granted, the ids of what was chosen, the talents lost, and the talents gained
//! with the selections of their own modifiers. The tree is later collapsed into one record,
//! during which the talents lost anywhere in the tree are pruned.
use vstd::prelude::*;
use crate::db::path_talents::FullPathTalent;
use crate::db::magic_talents::FullMagicTalent;
use crate::modifiers::FullModifier;
use crate::result::WWError;
use crate::text::{
    append_string, chars_of, parse_i64, spec_parse_i64, split_on, split_pieces, text_is,
};
use crate::mod_dsl::ast::{
    ChooseTarget, GrantTarget, LoseTarget, Modifier, OverrideTarget, SpecChooseTarget, SpecGrantTarget, SpecModifier,
    SpecLoseTarget, SpecOverrideTarget, SpecTarget, Target,
};

verus! {

/// A choice the player made, as the character keeps it. `duration` holds the stored duration
/// text.
#[derive(Debug)]
pub struct CharacterChoice {
    pub id: i64,
    pub selection: String,
    pub dismissable: Option<String>,
    pub duration: String,
}

/// A change to the number of slots of a spell.
#[derive(Debug, Clone, Copy)]
pub enum SlotMod {
    Plus { amount: i64, spell_id: i64 },
    Times { amount: i64, spell_id: i64 },
}

/// All data provided by modifiers, and the choices still to be made.
#[derive(Debug)]
pub struct ModifierSelections {
    pub strength: i64,
    pub agility: i64,
    pub intellect: i64,
    pub will: i64,
    pub speed: i64,
    pub health: i64,
    pub defense: i64,
    pub nat_def: i64,
    pub bonus_damage: i64,
    pub gained_languages: Vec<String>,
    pub gained_traditions: Vec<String>,
    pub gained_senses: Vec<String>,
    pub gained_immunities: Vec<String>,
    pub gained_speed_traits: Vec<String>,
    pub statblock_overrides: Vec<(i64, String)>,
    pub gained_language_ids: Vec<i64>,
    pub gained_profession_ids: Vec<i64>,
    pub gained_spell_ids: Vec<i64>,
    pub gained_tradition_ids: Vec<i64>,
    pub modified_slots: Vec<SlotMod>,
    /// Talents lost, by (source, name).
    pub lost_talents: Vec<(String, String)>,
    /// Magic talents lost, by (tradition, name).
    pub lost_magic_talents: Vec<(String, String)>,
    /// Talents gained, each with the selections of its own modifiers.
    pub gained_talents: Vec<(FullPathTalent, Vec<ModifierSelections>)>,
    pub gained_magic_talents: Vec<(FullMagicTalent, Vec<ModifierSelections>)>,
    pub required_choices: Vec<FullModifier>,
}

/// A `ModifierSelections` as the contracts see it: numbers are integers, text is a character
/// sequence, and the talents' sub-trees are views too.
pub struct SelView {
    pub strength: int,
    pub agility: int,
    pub intellect: int,
    pub will: int,
    pub speed: int,
    pub health: int,
    pub defense: int,
    pub nat_def: int,
    pub bonus_damage: int,
    pub gained_languages: Seq<Seq<char>>,
    pub gained_traditions: Seq<Seq<char>>,
    pub gained_senses: Seq<Seq<char>>,
    pub gained_immunities: Seq<Seq<char>>,
    pub gained_speed_traits: Seq<Seq<char>>,
    pub statblock_overrides: Seq<(i64, Seq<char>)>,
    pub gained_language_ids: Seq<i64>,
    pub gained_profession_ids: Seq<i64>,
    pub gained_spell_ids: Seq<i64>,
    pub gained_tradition_ids: Seq<i64>,
    pub modified_slots: Seq<SlotMod>,
    pub lost_talents: Seq<(Seq<char>, Seq<char>)>,
    pub lost_magic_talents: Seq<(Seq<char>, Seq<char>)>,
    pub gained_talents: Seq<(FullPathTalent, Seq<SelView>)>,
    pub gained_magic_talents: Seq<(FullMagicTalent, Seq<SelView>)>,
    pub required_choices: Seq<FullModifier>,
}

pub open spec fn sel_view(s: ModifierSelections) -> SelView
    decreases s,
{
    SelView {
        strength: s.strength as int,
        agility: s.agility as int,
        intellect: s.intellect as int,
        will: s.will as int,
        speed: s.speed as int,
        health: s.health as int,
        defense: s.defense as int,
        nat_def: s.nat_def as int,
        bonus_damage: s.bonus_damage as int,
        gained_languages: s.gained_languages.deep_view(),
        gained_traditions: s.gained_traditions.deep_view(),
        gained_senses: s.gained_senses.deep_view(),
        gained_immunities: s.gained_immunities.deep_view(),
        gained_speed_traits: s.gained_speed_traits.deep_view(),
        statblock_overrides: s.statblock_overrides.deep_view(),
        gained_language_ids: s.gained_language_ids@,
        gained_profession_ids: s.gained_profession_ids@,
        gained_spell_ids: s.gained_spell_ids@,
        gained_tradition_ids: s.gained_tradition_ids@,
        modified_slots: s.modified_slots@,
        lost_talents: s.lost_talents.deep_view(),
        lost_magic_talents: s.lost_magic_talents.deep_view(),
        gained_talents: talents_view(s.gained_talents@),
        gained_magic_talents: magic_talents_view(s.gained_magic_talents@),
        required_choices: s.required_choices@,
    }
}

pub open spec fn talents_view(ks: Seq<(FullPathTalent, Vec<ModifierSelections>)>) -> Seq<
    (FullPathTalent, Seq<SelView>),
>
    decreases ks,
{
    if ks.len() == 0 {
        seq![]
    } else {
        talents_view(ks.drop_last()).push((ks.last().0, sels_view(ks.last().1@)))
    }
}

pub open spec fn magic_talents_view(ks: Seq<(FullMagicTalent, Vec<ModifierSelections>)>) -> Seq<
    (FullMagicTalent, Seq<SelView>),
>
    decreases ks,
{
    if ks.len() == 0 {
        seq![]
    } else {
        magic_talents_view(ks.drop_last()).push((ks.last().0, sels_view(ks.last().1@)))
    }
}

pub open spec fn sels_view(ns: Seq<ModifierSelections>) -> Seq<SelView>
    decreases ns,
{
    if ns.len() == 0 {
        seq![]
    } else {
        sels_view(ns.drop_last()).push(sel_view(ns.last()))
    }
}

pub proof fn lemma_sels_view(ns: Seq<ModifierSelections>)
    ensures
        sels_view(ns).len() == ns.len(),
        forall|i: int| 0 <= i < ns.len() ==> #[trigger] sels_view(ns)[i] == sel_view(ns[i]),
    decreases ns.len(),
{
    if ns.len() > 0 {
        lemma_sels_view(ns.drop_last());
    }
}

pub proof fn lemma_talents_view(ks: Seq<(FullPathTalent, Vec<ModifierSelections>)>)
    ensures
        talents_view(ks).len() == ks.len(),
        forall|i: int|
            0 <= i < ks.len() ==> #[trigger] talents_view(ks)[i] == (ks[i].0, sels_view(ks[i].1@)),
    decreases ks.len(),
{
    if ks.len() > 0 {
        lemma_talents_view(ks.drop_last());
    }
}

pub proof fn lemma_magic_talents_view(ks: Seq<(FullMagicTalent, Vec<ModifierSelections>)>)
    ensures
        magic_talents_view(ks).len() == ks.len(),
        forall|i: int|
            0 <= i < ks.len() ==> #[trigger] magic_talents_view(ks)[i] == (
                ks[i].0,
                sels_view(ks[i].1@),
            ),
    decreases ks.len(),
{
    if ks.len() > 0 {
        lemma_magic_talents_view(ks.drop_last());
    }
}

pub proof fn lemma_talents_view_add(
    a: Seq<(FullPathTalent, Vec<ModifierSelections>)>,
    b: Seq<(FullPathTalent, Vec<ModifierSelections>)>,
)
    ensures
        talents_view(a + b) == talents_view(a) + talents_view(b),
{
    lemma_talents_view(a);
    lemma_talents_view(b);
    lemma_talents_view(a + b);
    assert(talents_view(a + b) =~= talents_view(a) + talents_view(b));
}

pub proof fn lemma_magic_talents_view_add(
    a: Seq<(FullMagicTalent, Vec<ModifierSelections>)>,
    b: Seq<(FullMagicTalent, Vec<ModifierSelections>)>,
)
    ensures
        magic_talents_view(a + b) == magic_talents_view(a) + magic_talents_view(b),
{
    lemma_magic_talents_view(a);
    lemma_magic_talents_view(b);
    lemma_magic_talents_view(a + b);
    assert(magic_talents_view(a + b) =~= magic_talents_view(a) + magic_talents_view(b));
}

/// The selections with nothing in them.
pub open spec fn empty_sel_view() -> SelView {
    SelView {
        strength: 0,
        agility: 0,
        intellect: 0,
        will: 0,
        speed: 0,
        health: 0,
        defense: 0,
        nat_def: 0,
        bonus_damage: 0,
        gained_languages: seq![],
        gained_traditions: seq![],
        gained_senses: seq![],
        gained_immunities: seq![],
        gained_speed_traits: seq![],
        statblock_overrides: seq![],
        gained_language_ids: seq![],
        gained_profession_ids: seq![],
        gained_spell_ids: seq![],
        gained_tradition_ids: seq![],
        modified_slots: seq![],
        lost_talents: seq![],
        lost_magic_talents: seq![],
        gained_talents: seq![],
        gained_magic_talents: seq![],
        required_choices: seq![],
    }
}

/// Merging adds the numbers and appends the lists of `b` after those of `a`.
pub open spec fn merge_view(a: SelView, b: SelView) -> SelView {
    SelView {
        strength: a.strength + b.strength,
        agility: a.agility + b.agility,
        intellect: a.intellect + b.intellect,
        will: a.will + b.will,
        speed: a.speed + b.speed,
        health: a.health + b.health,
        defense: a.defense + b.defense,
        nat_def: a.nat_def + b.nat_def,
        bonus_damage: a.bonus_damage + b.bonus_damage,
        gained_languages: a.gained_languages + b.gained_languages,
        gained_traditions: a.gained_traditions + b.gained_traditions,
        gained_senses: a.gained_senses + b.gained_senses,
        gained_immunities: a.gained_immunities + b.gained_immunities,
        gained_speed_traits: a.gained_speed_traits + b.gained_speed_traits,
        statblock_overrides: a.statblock_overrides + b.statblock_overrides,
        gained_language_ids: a.gained_language_ids + b.gained_language_ids,
        gained_profession_ids: a.gained_profession_ids + b.gained_profession_ids,
        gained_spell_ids: a.gained_spell_ids + b.gained_spell_ids,
        gained_tradition_ids: a.gained_tradition_ids + b.gained_tradition_ids,
        modified_slots: a.modified_slots + b.modified_slots,
        lost_talents: a.lost_talents + b.lost_talents,
        lost_magic_talents: a.lost_magic_talents + b.lost_magic_talents,
        gained_talents: a.gained_talents + b.gained_talents,
        gained_magic_talents: a.gained_magic_talents + b.gained_magic_talents,
        required_choices: a.required_choices + b.required_choices,
    }
}

pub open spec fn in_i64(x: int) -> bool {
    i64::MIN <= x <= i64::MAX
}

/// The sums of a merge fit in an `i64`.
pub open spec fn merge_fits(a: SelView, b: SelView) -> bool {
    &&& in_i64(a.strength + b.strength)
    &&& in_i64(a.agility + b.agility)
    &&& in_i64(a.intellect + b.intellect)
    &&& in_i64(a.will + b.will)
    &&& in_i64(a.speed + b.speed)
    &&& in_i64(a.health + b.health)
    &&& in_i64(a.defense + b.defense)
    &&& in_i64(a.nat_def + b.nat_def)
    &&& in_i64(a.bonus_damage + b.bonus_damage)
}

impl ModifierSelections {
    /// Empty selections.
    pub fn new() -> (r: Self)
        ensures
            sel_view(r) == empty_sel_view(),
    {
        let r = ModifierSelections {
            strength: 0,
            agility: 0,
            intellect: 0,
            will: 0,
            speed: 0,
            health: 0,
            defense: 0,
            nat_def: 0,
            bonus_damage: 0,
            gained_languages: Vec::new(),
            gained_traditions: Vec::new(),
            gained_senses: Vec::new(),
            gained_immunities: Vec::new(),
            gained_speed_traits: Vec::new(),
            gained_talents: Vec::new(),
            gained_magic_talents: Vec::new(),
            gained_language_ids: Vec::new(),
            gained_profession_ids: Vec::new(),
            gained_spell_ids: Vec::new(),
            gained_tradition_ids: Vec::new(),
            modified_slots: Vec::new(),
            statblock_overrides: Vec::new(),
            lost_talents: Vec::new(),
            lost_magic_talents: Vec::new(),
            required_choices: Vec::new(),
        };
        proof {
            assert(r.gained_languages.deep_view() =~= Seq::<Seq<char>>::empty());
            assert(r.gained_traditions.deep_view() =~= Seq::<Seq<char>>::empty());
            assert(r.gained_senses.deep_view() =~= Seq::<Seq<char>>::empty());
            assert(r.gained_immunities.deep_view() =~= Seq::<Seq<char>>::empty());
            assert(r.gained_speed_traits.deep_view() =~= Seq::<Seq<char>>::empty());
            assert(r.statblock_overrides.deep_view() =~= Seq::<(i64, Seq<char>)>::empty());
            assert(r.lost_talents.deep_view() =~= Seq::<(Seq<char>, Seq<char>)>::empty());
            assert(r.lost_magic_talents.deep_view() =~= Seq::<(Seq<char>, Seq<char>)>::empty());
            assert(sel_view(r) =~= empty_sel_view());
        }
        r
    }

    /// Adds the numbers of `other` to these and appends its lists to these.
    pub fn merge(&mut self, other: Self)
        requires
            merge_fits(sel_view(*old(self)), sel_view(other)),
        ensures
            sel_view(*final(self)) == merge_view(sel_view(*old(self)), sel_view(other)),
            final(self).gained_talents@ == old(self).gained_talents@ + other.gained_talents@,
            final(self).gained_magic_talents@ == old(self).gained_magic_talents@
                + other.gained_magic_talents@,
    {
        let mut other = other;
        let ghost a = sel_view(*self);
        let ghost b = sel_view(other);
        let ghost s0 = *self;
        let ghost o0 = other;
        self.strength += other.strength;
        self.agility += other.agility;
        self.intellect += other.intellect;
        self.will += other.will;
        self.speed += other.speed;
        self.health += other.health;
        self.defense += other.defense;
        self.nat_def += other.nat_def;
        self.bonus_damage += other.bonus_damage;

        self.gained_languages.append(&mut other.gained_languages);
        self.gained_traditions.append(&mut other.gained_traditions);
        self.gained_senses.append(&mut other.gained_senses);
        self.gained_immunities.append(&mut other.gained_immunities);
        self.gained_speed_traits.append(&mut other.gained_speed_traits);
        self.gained_talents.append(&mut other.gained_talents);
        self.gained_language_ids.append(&mut other.gained_language_ids);
        self.gained_profession_ids.append(&mut other.gained_profession_ids);
        self.gained_spell_ids.append(&mut other.gained_spell_ids);
        self.gained_tradition_ids.append(&mut other.gained_tradition_ids);
        self.modified_slots.append(&mut other.modified_slots);
        self.gained_magic_talents.append(&mut other.gained_magic_talents);
        self.statblock_overrides.append(&mut other.statblock_overrides);
        self.lost_talents.append(&mut other.lost_talents);
        self.lost_magic_talents.append(&mut other.lost_magic_talents);
        self.required_choices.append(&mut other.required_choices);
        proof {
            assert(self.gained_languages.deep_view() =~= s0.gained_languages.deep_view()
                + o0.gained_languages.deep_view());
            assert(self.gained_traditions.deep_view() =~= s0.gained_traditions.deep_view()
                + o0.gained_traditions.deep_view());
            assert(self.gained_senses.deep_view() =~= s0.gained_senses.deep_view()
                + o0.gained_senses.deep_view());
            assert(self.gained_immunities.deep_view() =~= s0.gained_immunities.deep_view()
                + o0.gained_immunities.deep_view());
            assert(self.gained_speed_traits.deep_view() =~= s0.gained_speed_traits.deep_view()
                + o0.gained_speed_traits.deep_view());
            assert(self.statblock_overrides.deep_view() =~= s0.statblock_overrides.deep_view()
                + o0.statblock_overrides.deep_view());
            assert(self.lost_talents.deep_view() =~= s0.lost_talents.deep_view()
                + o0.lost_talents.deep_view());
            assert(self.lost_magic_talents.deep_view() =~= s0.lost_magic_talents.deep_view()
                + o0.lost_magic_talents.deep_view());
            lemma_talents_view_add(s0.gained_talents@, o0.gained_talents@);
            lemma_magic_talents_view_add(s0.gained_magic_talents@, o0.gained_magic_talents@);
            assert(sel_view(*self) =~= merge_view(a, b));
        }
    }
}


/// The talents lost anywhere in a tree of selections, each kept once.
pub struct Losses {
    path_talents: Vec<(String, String)>,
    magic_talents: Vec<(String, String)>,
}

/// What `Losses` holds: the (source, name) pairs of lost talents and the (tradition, name) pairs
/// of lost magic talents.
pub struct LossView {
    pub path_talents: Set<(Seq<char>, Seq<char>)>,
    pub magic_talents: Set<(Seq<char>, Seq<char>)>,
}

pub open spec fn no_losses() -> LossView {
    LossView { path_talents: Set::empty(), magic_talents: Set::empty() }
}

pub open spec fn union_losses(a: LossView, b: LossView) -> LossView {
    LossView {
        path_talents: a.path_talents + b.path_talents,
        magic_talents: a.magic_talents + b.magic_talents,
    }
}

impl View for Losses {
    type V = LossView;

    closed spec fn view(&self) -> LossView {
        LossView {
            path_talents: self.path_talents.deep_view().to_set(),
            magic_talents: self.magic_talents.deep_view().to_set(),
        }
    }
}

impl Losses {
    /// Neither list holds a pair twice.
    #[verifier::type_invariant]
    closed spec fn distinct(&self) -> bool {
        &&& self.path_talents.deep_view().no_duplicates()
        &&& self.magic_talents.deep_view().no_duplicates()
    }

    /// No losses.
    pub fn new() -> (r: Self)
        ensures
            r@ == no_losses(),
    {
        let r = Losses { path_talents: Vec::new(), magic_talents: Vec::new() };
        proof {
            assert(r.path_talents.deep_view() =~= Seq::<(Seq<char>, Seq<char>)>::empty());
            assert(r.magic_talents.deep_view() =~= Seq::<(Seq<char>, Seq<char>)>::empty());
            assert(r@.path_talents =~= Set::empty());
            assert(r@.magic_talents =~= Set::empty());
        }
        r
    }

    /// Adds the losses of `other` to these.
    pub fn merge(&mut self, other: Self)
        ensures
            final(self)@ == union_losses(old(self)@, other@),
    {
        proof {
            use_type_invariant(&*self);
            use_type_invariant(&other);
        }
        let Losses { path_talents, magic_talents } = other;
        let mut paths = Vec::new();
        let mut magics = Vec::new();
        std::mem::swap(&mut paths, &mut self.path_talents);
        std::mem::swap(&mut magics, &mut self.magic_talents);
        let ghost p0 = paths.deep_view();
        let ghost m0 = magics.deep_view();
        add_all(&mut paths, path_talents);
        add_all(&mut magics, magic_talents);
        self.path_talents = paths;
        self.magic_talents = magics;
    }

    /// Adds lost talents and lost magic talents, by their pairs.
    fn add_pairs(&mut self, paths: &Vec<(String, String)>, magics: &Vec<(String, String)>)
        ensures
            final(self)@ == union_losses(
                old(self)@,
                LossView {
                    path_talents: paths.deep_view().to_set(),
                    magic_talents: magics.deep_view().to_set(),
                },
            ),
    {
        proof {
            use_type_invariant(&*self);
        }
        let mut ps = Vec::new();
        let mut ms = Vec::new();
        std::mem::swap(&mut ps, &mut self.path_talents);
        std::mem::swap(&mut ms, &mut self.magic_talents);
        add_all(&mut ps, copy_pairs(paths));
        add_all(&mut ms, copy_pairs(magics));
        self.path_talents = ps;
        self.magic_talents = ms;
    }

    /// Whether a talent of the given source and name was lost.
    pub fn has_path_talent(&self, source: &String, name: &String) -> (r: bool)
        ensures
            r == self@.path_talents.contains((source@, name@)),
    {
        pair_listed(&self.path_talents, source, name)
    }

    /// Whether a magic talent of the given tradition and name was lost.
    pub fn has_magic_talent(&self, tradition: &String, name: &String) -> (r: bool)
        ensures
            r == self@.magic_talents.contains((tradition@, name@)),
    {
        pair_listed(&self.magic_talents, tradition, name)
    }
}

/// Whether `(a, b)` is in the list.
fn pair_listed(list: &Vec<(String, String)>, a: &String, b: &String) -> (r: bool)
    ensures
        r == list.deep_view().contains((a@, b@)),
{
    let mut i: usize = 0;
    while i < list.len()
        invariant
            i <= list.len(),
            forall|k: int| 0 <= k < i ==> list.deep_view()[k] != (a@, b@),
        decreases list.len() - i,
    {
        if list[i].0 == *a && list[i].1 == *b {
            assert(list.deep_view()[i as int] == (a@, b@));
            return true;
        }
        i += 1;
    }
    false
}

/// A copy of a list of pairs of strings.
fn copy_pairs(list: &Vec<(String, String)>) -> (r: Vec<(String, String)>)
    ensures
        r.deep_view() == list.deep_view(),
{
    let mut r: Vec<(String, String)> = Vec::new();
    let mut i: usize = 0;
    while i < list.len()
        invariant
            i <= list.len(),
            r.deep_view() == list.deep_view().take(i as int),
        decreases list.len() - i,
    {
        let ghost before = r.deep_view();
        r.push((list[i].0.clone(), list[i].1.clone()));
        proof {
            assert(r.deep_view() =~= before.push(list.deep_view()[i as int]));
            assert(list.deep_view().take(i + 1) =~= list.deep_view().take(i as int).push(
                list.deep_view()[i as int],
            ));
        }
        i += 1;
    }
    proof {
        assert(list.deep_view().take(i as int) =~= list.deep_view());
    }
    r
}

/// Appends to `list` each pair of `more` that it does not hold yet.
fn add_all(list: &mut Vec<(String, String)>, more: Vec<(String, String)>)
    requires
        old(list).deep_view().no_duplicates(),
    ensures
        final(list).deep_view().no_duplicates(),
        final(list).deep_view().to_set() == old(list).deep_view().to_set() + more.deep_view().to_set(),
{
    let ghost l0 = list.deep_view();
    let ghost m = more.deep_view();
    let mut more = more;
    let mut j: usize = 0;
    let n = more.len();
    while j < n
        invariant
            n == more.len(),
            j <= n,
            more.deep_view() == m,
            list.deep_view().no_duplicates(),
            list.deep_view().to_set() == l0.to_set() + m.take(j as int).to_set(),
        decreases n - j,
    {
        let found = pair_listed(list, &more[j].0, &more[j].1);
        assert(m[j as int] == (more[j as int].0@, more[j as int].1@));
        if !found {
            let item = (more[j].0.clone(), more[j].1.clone());
            let ghost before = list.deep_view();
            list.push(item);
            proof {
                assert(list.deep_view() =~= before.push(m[j as int]));
                before.lemma_push_to_set_commute(m[j as int]);
            }
        }
        proof {
            assert(m.take(j + 1) =~= m.take(j as int).push(m[j as int]));
            m.take(j as int).lemma_push_to_set_commute(m[j as int]);
            assert(list.deep_view().to_set() =~= l0.to_set() + m.take(j + 1).to_set());
        }
        j += 1;
    }
    proof {
        assert(m.take(n as int) =~= m);
    }
}


/// The losses listed in one level of a tree, without those beneath it.
pub open spec fn own_losses(v: SelView) -> LossView {
    LossView { path_talents: v.lost_talents.to_set(), magic_talents: v.lost_magic_talents.to_set() }
}

/// The losses listed anywhere in a tree of selections.
pub open spec fn tree_losses(v: SelView) -> LossView
    decreases v,
{
    union_losses(
        own_losses(v),
        union_losses(path_list_losses(v.gained_talents), magic_list_losses(v.gained_magic_talents)),
    )
}

/// The losses listed beneath a list of gained talents.
pub open spec fn path_list_losses(ks: Seq<(FullPathTalent, Seq<SelView>)>) -> LossView
    decreases ks,
{
    if ks.len() == 0 {
        no_losses()
    } else {
        union_losses(path_list_losses(ks.drop_last()), sels_losses(ks.last().1))
    }
}

/// The losses listed beneath a list of gained magic talents.
pub open spec fn magic_list_losses(ks: Seq<(FullMagicTalent, Seq<SelView>)>) -> LossView
    decreases ks,
{
    if ks.len() == 0 {
        no_losses()
    } else {
        union_losses(magic_list_losses(ks.drop_last()), sels_losses(ks.last().1))
    }
}

/// The losses listed anywhere in a list of trees.
pub open spec fn sels_losses(ns: Seq<SelView>) -> LossView
    decreases ns,
{
    if ns.len() == 0 {
        no_losses()
    } else {
        union_losses(sels_losses(ns.drop_last()), tree_losses(ns.last()))
    }
}


proof fn lemma_union_none(a: LossView)
    ensures
        union_losses(a, no_losses()) == a,
{
    assert(union_losses(a, no_losses()).path_talents =~= a.path_talents);
    assert(union_losses(a, no_losses()).magic_talents =~= a.magic_talents);
}

proof fn lemma_union_assoc(a: LossView, b: LossView, c: LossView)
    ensures
        union_losses(union_losses(a, b), c) == union_losses(a, union_losses(b, c)),
{
    assert(union_losses(union_losses(a, b), c).path_talents =~= union_losses(
        a,
        union_losses(b, c),
    ).path_talents);
    assert(union_losses(union_losses(a, b), c).magic_talents =~= union_losses(
        a,
        union_losses(b, c),
    ).magic_talents);
}

impl ModifierSelections {
    /// Gathers the talents lost anywhere in this tree of selections.
    pub fn collect_losses(&self) -> (r: Losses)
        ensures
            r@ == tree_losses(sel_view(*self)),
        decreases self,
    {
        let ghost v = sel_view(*self);
        let mut losses = Losses::new();
        let no_pairs: Vec<(String, String)> = Vec::new();
        losses.add_pairs(&self.lost_talents, &no_pairs);
        let ghost own_paths = LossView {
            path_talents: self.lost_talents.deep_view().to_set(),
            magic_talents: Set::empty(),
        };
        proof {
            assert(no_pairs.deep_view().to_set() =~= Set::empty());
            assert(losses@.path_talents =~= own_paths.path_talents);
            assert(losses@.magic_talents =~= own_paths.magic_talents);
        }
        proof {
            lemma_talents_view(self.gained_talents@);
            assert(v.gained_talents.take(0) =~= Seq::empty());
            lemma_union_none(own_paths);
        }
        let mut i: usize = 0;
        while i < self.gained_talents.len()
            invariant
                i <= self.gained_talents.len(),
                v == sel_view(*self),
                talents_view(self.gained_talents@) == v.gained_talents,
                v.gained_talents.len() == self.gained_talents.len(),
                forall|k: int|
                    0 <= k < self.gained_talents.len() ==> #[trigger] v.gained_talents[k] == (
                        self.gained_talents@[k].0,
                        sels_view(self.gained_talents@[k].1@),
                    ),
                losses@ == union_losses(own_paths, path_list_losses(v.gained_talents.take(i as int))),
            decreases self.gained_talents.len() - i,
        {
            let subs = &self.gained_talents[i].1;
            let ghost before = losses@;
            proof {
                lemma_sels_view(subs@);
                assert(sels_view(subs@).take(0) =~= Seq::empty());
                lemma_union_none(before);
            }
            let mut j: usize = 0;
            while j < subs.len()
                invariant
                    j <= subs.len(),
                    *subs == self.gained_talents@[i as int].1,
                    i < self.gained_talents.len(),
                    sels_view(subs@).len() == subs.len(),
                    forall|k: int| 0 <= k < subs.len() ==> #[trigger] sels_view(subs@)[k] == sel_view(subs@[k]),
                    losses@ == union_losses(before, sels_losses(sels_view(subs@).take(j as int))),
                decreases subs.len() - j,
            {
                let sub_losses = subs[j].collect_losses();
                let ghost mid = losses@;
                losses.merge(sub_losses);
                proof {
                    let ns = sels_view(subs@);
                    assert(ns.take(j + 1).drop_last() =~= ns.take(j as int));
                    lemma_union_assoc(before, sels_losses(ns.take(j as int)), tree_losses(ns[j as int]));
                }
                j += 1;
            }
            proof {
                let ns = sels_view(subs@);
                assert(ns.take(j as int) =~= ns);
                let ks = v.gained_talents;
                assert(ks.take(i + 1).drop_last() =~= ks.take(i as int));
                lemma_union_assoc(own_paths, path_list_losses(ks.take(i as int)), sels_losses(ns));
            }
            i += 1;
        }
        proof {
            assert(v.gained_talents.take(i as int) =~= v.gained_talents);
        }
        let ghost after_paths = losses@;
        losses.add_pairs(&no_pairs, &self.lost_magic_talents);
        let ghost own_magic = LossView {
            path_talents: Set::empty(),
            magic_talents: self.lost_magic_talents.deep_view().to_set(),
        };
        proof {
            assert(losses@ == union_losses(after_paths, own_magic));
        }
        let ghost before_magic = losses@;
        proof {
            lemma_magic_talents_view(self.gained_magic_talents@);
            assert(v.gained_magic_talents.take(0) =~= Seq::empty());
            lemma_union_none(before_magic);
        }
        let mut i: usize = 0;
        while i < self.gained_magic_talents.len()
            invariant
                i <= self.gained_magic_talents.len(),
                v == sel_view(*self),
                v.gained_magic_talents.len() == self.gained_magic_talents.len(),
                forall|k: int|
                    0 <= k < self.gained_magic_talents.len() ==> #[trigger] v.gained_magic_talents[k] == (
                        self.gained_magic_talents@[k].0,
                        sels_view(self.gained_magic_talents@[k].1@),
                    ),
                losses@ == union_losses(
                    before_magic,
                    magic_list_losses(v.gained_magic_talents.take(i as int)),
                ),
            decreases self.gained_magic_talents.len() - i,
        {
            let subs = &self.gained_magic_talents[i].1;
            let ghost before = losses@;
            proof {
                lemma_sels_view(subs@);
                assert(sels_view(subs@).take(0) =~= Seq::empty());
                lemma_union_none(before);
            }
            let mut j: usize = 0;
            while j < subs.len()
                invariant
                    j <= subs.len(),
                    *subs == self.gained_magic_talents@[i as int].1,
                    i < self.gained_magic_talents.len(),
                    sels_view(subs@).len() == subs.len(),
                    forall|k: int| 0 <= k < subs.len() ==> #[trigger] sels_view(subs@)[k] == sel_view(subs@[k]),
                    losses@ == union_losses(before, sels_losses(sels_view(subs@).take(j as int))),
                decreases subs.len() - j,
            {
                let sub_losses = subs[j].collect_losses();
                losses.merge(sub_losses);
                proof {
                    let ns = sels_view(subs@);
                    assert(ns.take(j + 1).drop_last() =~= ns.take(j as int));
                    lemma_union_assoc(before, sels_losses(ns.take(j as int)), tree_losses(ns[j as int]));
                }
                j += 1;
            }
            proof {
                let ns = sels_view(subs@);
                assert(ns.take(j as int) =~= ns);
                let ks = v.gained_magic_talents;
                assert(ks.take(i + 1).drop_last() =~= ks.take(i as int));
                lemma_union_assoc(before_magic, magic_list_losses(ks.take(i as int)), sels_losses(ns));
            }
            i += 1;
        }
        proof {
            assert(v.gained_magic_talents.take(i as int) =~= v.gained_magic_talents);
            let a = own_paths;
            let b = path_list_losses(v.gained_talents);
            let c = own_magic;
            let d = magic_list_losses(v.gained_magic_talents);
            let lhs = union_losses(union_losses(union_losses(a, b), c), d);
            let rhs = tree_losses(v);
            assert(no_pairs.deep_view().to_set() =~= Set::empty());
            assert(lhs.path_talents =~= rhs.path_talents);
            assert(lhs.magic_talents =~= rhs.magic_talents);
        }
        losses
    }
}


/// A gained talent stays unless its (source, name) pair was lost.
pub open spec fn path_kept(t: FullPathTalent, l: LossView) -> bool {
    !l.path_talents.contains((t.source@, t.name@))
}

/// A gained magic talent stays unless its (tradition, name) pair was lost.
pub open spec fn magic_kept(t: FullMagicTalent, l: LossView) -> bool {
    !l.magic_talents.contains((t.tradition_name@, t.name@))
}

/// Merging two results, where either may be missing; `None` also where a sum would leave `i64`.
pub open spec fn merge_opt(a: Option<SelView>, b: Option<SelView>) -> Option<SelView> {
    match a {
        Some(x) => match b {
            Some(y) => if merge_fits(x, y) {
                Some(merge_view(x, y))
            } else {
                None
            },
            None => None,
        },
        None => None,
    }
}

/// The talents of a list that stay, in their order, each without its sub-trees.
pub open spec fn kept_paths(ks: Seq<(FullPathTalent, Seq<SelView>)>, l: LossView) -> Seq<
    (FullPathTalent, Seq<SelView>),
>
    decreases ks,
{
    if ks.len() == 0 {
        seq![]
    } else if path_kept(ks.last().0, l) {
        kept_paths(ks.drop_last(), l).push((ks.last().0, seq![]))
    } else {
        kept_paths(ks.drop_last(), l)
    }
}

/// The magic talents of a list that stay, in their order, each without its sub-trees.
pub open spec fn kept_magic(ks: Seq<(FullMagicTalent, Seq<SelView>)>, l: LossView) -> Seq<
    (FullMagicTalent, Seq<SelView>),
>
    decreases ks,
{
    if ks.len() == 0 {
        seq![]
    } else if magic_kept(ks.last().0, l) {
        kept_magic(ks.drop_last(), l).push((ks.last().0, seq![]))
    } else {
        kept_magic(ks.drop_last(), l)
    }
}

/// Collapses a tree of selections into a flat one under the given losses.
///
/// The talents gained at the top are taken out; each that was not lost has the collapsed forms
/// of its sub-trees merged in, in order, and stays without them. Then the magic talents (those of
/// the top level, followed by those the merges brought, which arrive collapsed) are treated the
/// same way. The talents that stay come first, each without sub-trees, followed by the talents
/// that the collapsed sub-trees brought, so that every talent that survives at any depth is
/// listed. `None` where a sum leaves `i64`.
pub open spec fn collect_view(v: SelView, l: LossView) -> Option<SelView>
    decreases v,
{
    let start = SelView { gained_talents: seq![], ..v };
    match path_phase(Some(start), v.gained_talents, l) {
        Some(a) => match magic_phase(
            Some(SelView { gained_magic_talents: seq![], ..a }),
            v.gained_magic_talents,
            l,
        ) {
            Some(b) => Some(
                SelView {
                    gained_talents: kept_paths(v.gained_talents, l) + b.gained_talents,
                    gained_magic_talents: kept_magic(a.gained_magic_talents, l)
                        + b.gained_magic_talents,
                    ..b
                },
            ),
            None => None,
        },
        None => None,
    }
}

/// Merges into `acc`, in order, the collapsed sub-trees of each talent of `ks` that stays.
pub open spec fn path_phase(
    acc: Option<SelView>,
    ks: Seq<(FullPathTalent, Seq<SelView>)>,
    l: LossView,
) -> Option<SelView>
    decreases ks,
{
    if ks.len() == 0 {
        acc
    } else if path_kept(ks.last().0, l) {
        merge_collected(path_phase(acc, ks.drop_last(), l), ks.last().1, l)
    } else {
        path_phase(acc, ks.drop_last(), l)
    }
}

/// Merges into `acc`, in order, the collapsed sub-trees of each magic talent of `ks` that stays.
pub open spec fn magic_phase(
    acc: Option<SelView>,
    ks: Seq<(FullMagicTalent, Seq<SelView>)>,
    l: LossView,
) -> Option<SelView>
    decreases ks,
{
    if ks.len() == 0 {
        acc
    } else if magic_kept(ks.last().0, l) {
        merge_collected(magic_phase(acc, ks.drop_last(), l), ks.last().1, l)
    } else {
        magic_phase(acc, ks.drop_last(), l)
    }
}

/// Merges into `acc` the collapsed form of each tree of `subs`, in order.
pub open spec fn merge_collected(acc: Option<SelView>, subs: Seq<SelView>, l: LossView) -> Option<
    SelView,
>
    decreases subs,
{
    if subs.len() == 0 {
        acc
    } else {
        merge_opt(merge_collected(acc, subs.drop_last(), l), collect_view(subs.last(), l))
    }
}


proof fn lemma_collected_none(subs: Seq<SelView>, l: LossView)
    ensures
        merge_collected(None, subs, l) is None,
    decreases subs.len(),
{
    if subs.len() > 0 {
        lemma_collected_none(subs.drop_last(), l);
    }
}

proof fn lemma_collected_prefix(acc: Option<SelView>, subs: Seq<SelView>, l: LossView, j: int)
    requires
        0 <= j <= subs.len(),
        merge_collected(acc, subs, l) is Some,
    ensures
        merge_collected(acc, subs.take(j), l) is Some,
    decreases subs.len(),
{
    if j < subs.len() {
        lemma_collected_prefix(acc, subs.drop_last(), l, j);
        assert(subs.drop_last().take(j) =~= subs.take(j));
    } else {
        assert(subs.take(j) =~= subs);
    }
}

proof fn lemma_path_prefix(
    acc: Option<SelView>,
    ks: Seq<(FullPathTalent, Seq<SelView>)>,
    l: LossView,
    i: int,
)
    requires
        0 <= i <= ks.len(),
        path_phase(acc, ks, l) is Some,
    ensures
        path_phase(acc, ks.take(i), l) is Some,
    decreases ks.len(),
{
    if i < ks.len() {
        lemma_collected_none(ks.last().1, l);
        lemma_path_prefix(acc, ks.drop_last(), l, i);
        assert(ks.drop_last().take(i) =~= ks.take(i));
    } else {
        assert(ks.take(i) =~= ks);
    }
}

proof fn lemma_magic_prefix(
    acc: Option<SelView>,
    ks: Seq<(FullMagicTalent, Seq<SelView>)>,
    l: LossView,
    i: int,
)
    requires
        0 <= i <= ks.len(),
        magic_phase(acc, ks, l) is Some,
    ensures
        magic_phase(acc, ks.take(i), l) is Some,
    decreases ks.len(),
{
    if i < ks.len() {
        lemma_collected_none(ks.last().1, l);
        lemma_magic_prefix(acc, ks.drop_last(), l, i);
        assert(ks.drop_last().take(i) =~= ks.take(i));
    } else {
        assert(ks.take(i) =~= ks);
    }
}

/// The talents that stay are listed without sub-trees, and none of them was lost.
pub proof fn lemma_kept_paths_flat(ks: Seq<(FullPathTalent, Seq<SelView>)>, l: LossView)
    ensures
        forall|k: int|
            0 <= k < kept_paths(ks, l).len() ==> (#[trigger] kept_paths(ks, l)[k]).1.len() == 0
                && path_kept(kept_paths(ks, l)[k].0, l),
    decreases ks.len(),
{
    if ks.len() > 0 {
        lemma_kept_paths_flat(ks.drop_last(), l);
        let prev = kept_paths(ks.drop_last(), l);
        assert forall|k: int| 0 <= k < kept_paths(ks, l).len() implies (#[trigger] kept_paths(ks, l)[k]).1.len()
            == 0 && path_kept(kept_paths(ks, l)[k].0, l) by {
            if k < prev.len() {
                assert(kept_paths(ks, l)[k] == prev[k]);
            }
        }
    }
}

/// The magic talents that stay are listed without sub-trees, and none of them was lost.
pub proof fn lemma_kept_magic_flat(ks: Seq<(FullMagicTalent, Seq<SelView>)>, l: LossView)
    ensures
        forall|k: int|
            0 <= k < kept_magic(ks, l).len() ==> (#[trigger] kept_magic(ks, l)[k]).1.len() == 0
                && magic_kept(kept_magic(ks, l)[k].0, l),
    decreases ks.len(),
{
    if ks.len() > 0 {
        lemma_kept_magic_flat(ks.drop_last(), l);
        let prev = kept_magic(ks.drop_last(), l);
        assert forall|k: int| 0 <= k < kept_magic(ks, l).len() implies (#[trigger] kept_magic(ks, l)[k]).1.len()
            == 0 && magic_kept(kept_magic(ks, l)[k].0, l) by {
            if k < prev.len() {
                assert(kept_magic(ks, l)[k] == prev[k]);
            }
        }
    }
}

/// The magic talents of `m` past those of `own` have no sub-trees, and `own` comes first.
pub open spec fn own_magic_first(
    m: Seq<(FullMagicTalent, Seq<SelView>)>,
    own: Seq<(FullMagicTalent, Seq<SelView>)>,
) -> bool {
    &&& own.len() <= m.len()
    &&& m.take(own.len() as int) == own
    &&& forall|k: int| own.len() <= k < m.len() ==> (#[trigger] m[k]).1.len() == 0
}

impl ModifierSelections {
    /// Collapses this tree under the given losses: see `collect_view`.
    pub fn collect(self, losses: &Losses) -> (r: Self)
        requires
            collect_view(sel_view(self), losses@) is Some,
        ensures
            collect_view(sel_view(self), losses@) == Some(sel_view(r)),
        decreases self,
    {
        let ghost s0 = self;
        let ghost v = sel_view(self);
        let ghost l = losses@;
        let mut this = self;
        let mut path_in: Vec<(FullPathTalent, Vec<ModifierSelections>)> = Vec::new();
        std::mem::swap(&mut path_in, &mut this.gained_talents);
        let ghost start = sel_view(this);
        let ghost ks = v.gained_talents;
        let ghost orig = path_in@;
        let ghost own = v.gained_magic_talents;
        let ghost g = own.len();
        proof {
            assert(talents_view(Seq::<(FullPathTalent, Vec<ModifierSelections>)>::empty()) =~= seq![]);
            assert(start == SelView { gained_talents: seq![], ..v });
            lemma_talents_view(orig);
            lemma_magic_talents_view(s0.gained_magic_talents@);
            assert(sel_view(this).gained_magic_talents.take(g as int) =~= own);
            assert(this.gained_magic_talents@.take(g as int) =~= s0.gained_magic_talents@);
        }
        let n = path_in.len();
        let mut path_out: Vec<(FullPathTalent, Vec<ModifierSelections>)> = Vec::new();
        proof {
            assert(ks.take(0) =~= Seq::empty());
            assert(talents_view(path_out@) =~= seq![]);
        }
        let mut i: usize = 0;
        while i < n
            invariant
                l == losses@,
                s0 == self,
                n == orig.len(),
                ks.len() == n,
                i <= n,
                orig == s0.gained_talents@,
                path_in@ == orig.skip(i as int),
                forall|k: int| 0 <= k < n ==> #[trigger] ks[k] == (orig[k].0, sels_view(orig[k].1@)),
                path_phase(Some(start), ks, l) is Some,
                path_phase(Some(start), ks.take(i as int), l) == Some(sel_view(this)),
                talents_view(path_out@) == kept_paths(ks.take(i as int), l),
                own_magic_first(sel_view(this).gained_magic_talents, own),
                g == own.len(),
                g <= this.gained_magic_talents@.len(),
                this.gained_magic_talents@.take(g as int) == s0.gained_magic_talents@,
            decreases n - i,
        {
            let (talent, subs) = path_in.remove(0);
            let ghost cur = sel_view(this);
            proof {
                assert(orig.skip(i as int)[0] == orig[i as int]);
                assert(path_in@ =~= orig.skip(i + 1));
                lemma_path_prefix(Some(start), ks, l, i + 1);
                assert(ks.take(i + 1).drop_last() =~= ks.take(i as int));
                assert(ks.take(i + 1).last() == ks[i as int]);
                assert(talent == orig[i as int].0);
                assert(subs == orig[i as int].1);
                assert(path_phase(Some(start), ks.take(i + 1), l) == if path_kept(ks[i as int].0, l) {
                    merge_collected(Some(cur), ks[i as int].1, l)
                } else {
                    Some(cur)
                });
            }
            let lost = losses.has_path_talent(&talent.source, &talent.name);
            if !lost {
                let ghost subs0 = subs;
                let ghost subs_v = sels_view(subs@);
                let mut subs = subs;
                let m = subs.len();
                proof {
                    lemma_sels_view(subs0@);
                    assert(subs_v.take(0) =~= Seq::empty());
                    assert(!l.path_talents.contains((talent.source@, talent.name@)));
                    assert(ks[i as int].0 == talent);
                    assert(path_kept(ks[i as int].0, l));
                    assert(ks[i as int].1 == subs_v);
                }
                let mut j: usize = 0;
                while j < m
                    invariant
                        l == losses@,
                        s0 == self,
                l == losses@,
                s0 == self,
                        m == subs0@.len(),
                        j <= m,
                        n == orig.len(),
                        orig == s0.gained_talents@,
                        subs0 == s0.gained_talents@[i as int].1,
                        i < n,
                        subs@ == subs0@.skip(j as int),
                        subs_v == sels_view(subs0@),
                        subs_v.len() == m,
                        forall|k: int| 0 <= k < m ==> #[trigger] subs_v[k] == sel_view(subs0@[k]),
                        merge_collected(Some(cur), subs_v, l) is Some,
                        merge_collected(Some(cur), subs_v.take(j as int), l) == Some(sel_view(this)),
                        own_magic_first(sel_view(this).gained_magic_talents, own),
                        g == own.len(),
                        g <= this.gained_magic_talents@.len(),
                        this.gained_magic_talents@.take(g as int) == s0.gained_magic_talents@,
                    decreases m - j,
                {
                    let sub = subs.remove(0);
                    proof {
                        assert(subs0@.skip(j as int)[0] == subs0@[j as int]);
                        assert(subs@ =~= subs0@.skip(j + 1));
                        lemma_collected_prefix(Some(cur), subs_v, l, j + 1);
                        assert(subs_v.take(j + 1).drop_last() =~= subs_v.take(j as int));
                        assert(subs_v.take(j + 1).last() == subs_v[j as int]);
                    }
                    proof {
                        let t = s0.gained_talents;
                        assert(decreases_to!(s0 => t));
                        assert(decreases_to!(t => t@));
                        assert(decreases_to!(t@ => t@[i as int]));
                        assert(decreases_to!(t@[i as int] => t@[i as int].1));
                        assert(decreases_to!(subs0 => subs0@));
                        assert(decreases_to!(subs0@ => subs0@[j as int]));
                        assert(decreases_to!(s0 => sub));
                    }
                    let c = sub.collect(losses);
                    let ghost before = sel_view(this);
                    let ghost ebefore = this.gained_magic_talents@;
                    proof {
                        lemma_collect_flat_and_pruned(sel_view(sub), l);
                    }
                    this.merge(c);
                    proof {
                        let mb = before.gained_magic_talents;
                        let mc = sel_view(c).gained_magic_talents;
                        assert((mb + mc).take(g as int) =~= mb.take(g as int));
                        assert((ebefore + c.gained_magic_talents@).take(g as int) =~= ebefore.take(
                            g as int,
                        ));
                        assert forall|k: int| g <= k < (mb + mc).len() implies (#[trigger] (mb
                            + mc)[k]).1.len() == 0 by {
                            if k >= mb.len() {
                                assert((mb + mc)[k] == mc[k - mb.len()]);
                            }
                        }
                    }
                    j += 1;
                }
                proof {
                    assert(subs_v.take(j as int) =~= subs_v);
                }
                let ghost out_before = path_out@;
                path_out.push((talent, Vec::new()));
                proof {
                    assert(path_out@.drop_last() =~= out_before);
                    assert(sels_view(Seq::<ModifierSelections>::empty()) =~= seq![]);
                }
            }
            i += 1;
        }
        proof {
            assert(ks.take(n as int) =~= ks);
        }
        let ghost a = sel_view(this);
        let mut magic_in: Vec<(FullMagicTalent, Vec<ModifierSelections>)> = Vec::new();
        std::mem::swap(&mut magic_in, &mut this.gained_magic_talents);
        let ghost b0 = sel_view(this);
        let ghost ms = a.gained_magic_talents;
        let ghost morig = magic_in@;
        proof {
            assert(magic_talents_view(Seq::<(FullMagicTalent, Vec<ModifierSelections>)>::empty()) =~= seq![]);
            assert(b0 == SelView { gained_magic_talents: seq![], ..a });
            lemma_magic_talents_view(morig);
            assert(own.take(0) =~= Seq::empty());
            assert(ms.take(0) =~= Seq::empty());
        }
        let mn = magic_in.len();
        let mut magic_out: Vec<(FullMagicTalent, Vec<ModifierSelections>)> = Vec::new();
        proof {
            assert(magic_talents_view(magic_out@) =~= seq![]);
        }
        let mut i: usize = 0;
        while i < mn
            invariant
                l == losses@,
                s0 == self,
                mn == morig.len(),
                ms.len() == mn,
                i <= mn,
                g == own.len(),
                own_magic_first(ms, own),
                morig.take(g as int) == s0.gained_magic_talents@,
                g == s0.gained_magic_talents@.len(),
                magic_in@ == morig.skip(i as int),
                forall|k: int| 0 <= k < mn ==> #[trigger] ms[k] == (morig[k].0, sels_view(morig[k].1@)),
                magic_phase(Some(b0), own, l) is Some,
                magic_phase(Some(b0), own.take(if i < g { i as int } else { g as int }), l) == Some(
                    sel_view(this),
                ),
                magic_talents_view(magic_out@) == kept_magic(ms.take(i as int), l),
            decreases mn - i,
        {
            let (talent, subs) = magic_in.remove(0);
            let ghost cur = sel_view(this);
            proof {
                assert(morig.skip(i as int)[0] == morig[i as int]);
                assert(magic_in@ =~= morig.skip(i + 1));
                assert(ms.take(i + 1).drop_last() =~= ms.take(i as int));
                assert(ms.take(i + 1).last() == ms[i as int]);
                if i < g {
                    lemma_magic_prefix(Some(b0), own, l, i + 1);
                    assert(own.take(i + 1).drop_last() =~= own.take(i as int));
                    assert(own.take(i + 1).last() == own[i as int]);
                    assert(ms.take(g as int)[i as int] == ms[i as int]);
                    assert(morig.take(g as int)[i as int] == morig[i as int]);
                }
            }
            let lost = losses.has_magic_talent(&talent.tradition_name, &talent.name);
            if !lost {
                let ghost subs0 = subs;
                let ghost subs_v = sels_view(subs@);
                let mut subs = subs;
                let m = subs.len();
                proof {
                    lemma_sels_view(subs0@);
                    assert(subs_v.take(0) =~= Seq::empty());
                    if i >= g {
                        assert(ms[i as int].1.len() == 0);
                    }
                }
                let mut j: usize = 0;
                while j < m
                    invariant
                        l == losses@,
                        s0 == self,
                l == losses@,
                s0 == self,
                        m == subs0@.len(),
                        j <= m,
                        i < mn,
                        i >= g ==> m == 0,
                        g == s0.gained_magic_talents@.len(),
                        i < g ==> subs0 == s0.gained_magic_talents@[i as int].1,
                        subs@ == subs0@.skip(j as int),
                        subs_v == sels_view(subs0@),
                        subs_v.len() == m,
                        forall|k: int| 0 <= k < m ==> #[trigger] subs_v[k] == sel_view(subs0@[k]),
                        i < g ==> merge_collected(Some(cur), subs_v, l) is Some,
                        merge_collected(Some(cur), subs_v.take(j as int), l) == Some(sel_view(this)),
                    decreases m - j,
                {
                    let sub = subs.remove(0);
                    proof {
                        assert(subs0@.skip(j as int)[0] == subs0@[j as int]);
                        assert(subs@ =~= subs0@.skip(j + 1));
                        lemma_collected_prefix(Some(cur), subs_v, l, j + 1);
                        assert(subs_v.take(j + 1).drop_last() =~= subs_v.take(j as int));
                        assert(subs_v.take(j + 1).last() == subs_v[j as int]);
                    }
                    proof {
                        let t = s0.gained_magic_talents;
                        assert(i < g);
                        assert(decreases_to!(s0 => t));
                        assert(decreases_to!(t => t@));
                        assert(decreases_to!(t@ => t@[i as int]));
                        assert(decreases_to!(t@[i as int] => t@[i as int].1));
                        assert(decreases_to!(subs0 => subs0@));
                        assert(decreases_to!(subs0@ => subs0@[j as int]));
                        assert(decreases_to!(s0 => sub));
                    }
                    let c = sub.collect(losses);
                    this.merge(c);
                    j += 1;
                }
                proof {
                    assert(subs_v.take(j as int) =~= subs_v);
                }
                let ghost out_before = magic_out@;
                magic_out.push((talent, Vec::new()));
                proof {
                    assert(magic_out@.drop_last() =~= out_before);
                    assert(sels_view(Seq::<ModifierSelections>::empty()) =~= seq![]);
                }
            }
            proof {
                if i >= g {
                    assert(own.take(g as int) =~= own.take(g as int));
                }
            }
            i += 1;
        }
        proof {
            assert(ms.take(mn as int) =~= ms);
            assert(own.take(g as int) =~= own);
        }
        let ghost b = sel_view(this);
        let mut brought_paths: Vec<(FullPathTalent, Vec<ModifierSelections>)> = Vec::new();
        std::mem::swap(&mut brought_paths, &mut this.gained_talents);
        let ghost bp = brought_paths@;
        let ghost po = path_out@;
        path_out.append(&mut brought_paths);
        this.gained_talents = path_out;
        let mut brought_magic: Vec<(FullMagicTalent, Vec<ModifierSelections>)> = Vec::new();
        std::mem::swap(&mut brought_magic, &mut this.gained_magic_talents);
        let ghost bm = brought_magic@;
        let ghost mo = magic_out@;
        magic_out.append(&mut brought_magic);
        this.gained_magic_talents = magic_out;
        proof {
            lemma_talents_view_add(po, bp);
            lemma_magic_talents_view_add(mo, bm);
            assert(sel_view(this) == SelView {
                gained_talents: kept_paths(ks, l) + b.gained_talents,
                gained_magic_talents: kept_magic(ms, l) + b.gained_magic_talents,
                ..b
            });
        }
        this
    }
}


/// What a GRANT adds to the selections: a number to a score or a statistic, or names to a list.
/// Granted talents are not added here: they are looked up first.
pub open spec fn grant_view(v: SelView, g: SpecGrantTarget) -> SelView {
    match g {
        SpecGrantTarget::Int(x) => SelView { intellect: v.intellect + x, ..v },
        SpecGrantTarget::Str(x) => SelView { strength: v.strength + x, ..v },
        SpecGrantTarget::Will(x) => SelView { will: v.will + x, ..v },
        SpecGrantTarget::Agl(x) => SelView { agility: v.agility + x, ..v },
        SpecGrantTarget::Speed(x) => SelView { speed: v.speed + x, ..v },
        SpecGrantTarget::Health(x) => SelView { health: v.health + x, ..v },
        SpecGrantTarget::Defense(x) => SelView { defense: v.defense + x, ..v },
        SpecGrantTarget::NatDef(x) => SelView { nat_def: v.nat_def + x, ..v },
        SpecGrantTarget::BonusDamage(x) => SelView { bonus_damage: v.bonus_damage + x, ..v },
        SpecGrantTarget::Language(items) => SelView {
            gained_languages: v.gained_languages + items,
            ..v
        },
        SpecGrantTarget::Tradition(items) => SelView {
            gained_traditions: v.gained_traditions + items,
            ..v
        },
        SpecGrantTarget::Sense(items) => SelView { gained_senses: v.gained_senses + items, ..v },
        SpecGrantTarget::Immunity(items) => SelView {
            gained_immunities: v.gained_immunities + items,
            ..v
        },
        SpecGrantTarget::SpeedTrait(items) => SelView {
            gained_speed_traits: v.gained_speed_traits + items,
            ..v
        },
        SpecGrantTarget::Talent(_, _) => v,
        SpecGrantTarget::MagicTalent(_, _) => v,
    }
}

/// What a GRANT does to each field of the selections: a score or statistic grows by the granted
/// number (INT the intellect, STR the strength, WILL the will, AGL the agility, and so on), the
/// granted names are appended to the list of their kind (languages, traditions, senses,
/// immunities, speed traits), and every other field stays as it was. Granted talents change
/// nothing here: they are looked up.
pub proof fn lemma_grant_fields(v: SelView, g: SpecGrantTarget)
    ensures
        grant_view(v, g).intellect == v.intellect + match g {
            SpecGrantTarget::Int(x) => x as int,
            _ => 0int,
        },
        grant_view(v, g).strength == v.strength + match g {
            SpecGrantTarget::Str(x) => x as int,
            _ => 0int,
        },
        grant_view(v, g).will == v.will + match g {
            SpecGrantTarget::Will(x) => x as int,
            _ => 0int,
        },
        grant_view(v, g).agility == v.agility + match g {
            SpecGrantTarget::Agl(x) => x as int,
            _ => 0int,
        },
        grant_view(v, g).speed == v.speed + match g {
            SpecGrantTarget::Speed(x) => x as int,
            _ => 0int,
        },
        grant_view(v, g).health == v.health + match g {
            SpecGrantTarget::Health(x) => x as int,
            _ => 0int,
        },
        grant_view(v, g).defense == v.defense + match g {
            SpecGrantTarget::Defense(x) => x as int,
            _ => 0int,
        },
        grant_view(v, g).nat_def == v.nat_def + match g {
            SpecGrantTarget::NatDef(x) => x as int,
            _ => 0int,
        },
        grant_view(v, g).bonus_damage == v.bonus_damage + match g {
            SpecGrantTarget::BonusDamage(x) => x as int,
            _ => 0int,
        },
        grant_view(v, g).gained_languages == v.gained_languages + match g {
            SpecGrantTarget::Language(items) => items,
            _ => Seq::<Seq<char>>::empty(),
        },
        grant_view(v, g).gained_traditions == v.gained_traditions + match g {
            SpecGrantTarget::Tradition(items) => items,
            _ => Seq::<Seq<char>>::empty(),
        },
        grant_view(v, g).gained_senses == v.gained_senses + match g {
            SpecGrantTarget::Sense(items) => items,
            _ => Seq::<Seq<char>>::empty(),
        },
        grant_view(v, g).gained_immunities == v.gained_immunities + match g {
            SpecGrantTarget::Immunity(items) => items,
            _ => Seq::<Seq<char>>::empty(),
        },
        grant_view(v, g).gained_speed_traits == v.gained_speed_traits + match g {
            SpecGrantTarget::SpeedTrait(items) => items,
            _ => Seq::<Seq<char>>::empty(),
        },
        grant_view(v, g).statblock_overrides == v.statblock_overrides,
        grant_view(v, g).gained_language_ids == v.gained_language_ids,
        grant_view(v, g).gained_profession_ids == v.gained_profession_ids,
        grant_view(v, g).gained_spell_ids == v.gained_spell_ids,
        grant_view(v, g).gained_tradition_ids == v.gained_tradition_ids,
        grant_view(v, g).modified_slots == v.modified_slots,
        grant_view(v, g).lost_talents == v.lost_talents,
        grant_view(v, g).lost_magic_talents == v.lost_magic_talents,
        grant_view(v, g).gained_talents == v.gained_talents,
        grant_view(v, g).gained_magic_talents == v.gained_magic_talents,
        grant_view(v, g).required_choices == v.required_choices,
{
    assert(v.gained_languages + Seq::<Seq<char>>::empty() =~= v.gained_languages);
    assert(v.gained_traditions + Seq::<Seq<char>>::empty() =~= v.gained_traditions);
    assert(v.gained_senses + Seq::<Seq<char>>::empty() =~= v.gained_senses);
    assert(v.gained_immunities + Seq::<Seq<char>>::empty() =~= v.gained_immunities);
    assert(v.gained_speed_traits + Seq::<Seq<char>>::empty() =~= v.gained_speed_traits);
}

/// A LOSE of a talent records its (source, name) pair among the lost talents, and a LOSE of a
/// magic talent its (tradition, name) pair among the lost magic talents; nothing else changes.
pub proof fn lemma_lose_fields(v: SelView, a: Seq<char>, b: Seq<char>)
    ensures
        lose_view(v, SpecLoseTarget::Talent(a, b)) == (SelView {
            lost_talents: v.lost_talents.push((a, b)),
            ..v
        }),
        lose_view(v, SpecLoseTarget::MagicTalent(a, b)) == (SelView {
            lost_magic_talents: v.lost_magic_talents.push((a, b)),
            ..v
        }),
{
}

/// An OVERRIDE of a stat block with a saved selection records the index the selection names,
/// or -1 where it is not a number, with the block's name; without a saved selection, and for
/// overrides of speed and defense, nothing changes.
pub proof fn lemma_override_fields(v: SelView, block: Seq<char>, sel: Seq<char>, x: i32)
    ensures
        override_view(v, SpecOverrideTarget::StatBlock(block), Option::Some(sel)) == (SelView {
            statblock_overrides: v.statblock_overrides.push(
                (if spec_parse_i64(sel) is Some { spec_parse_i64(sel)->0 } else { -1i64 }, block),
            ),
            ..v
        }),
        override_view(v, SpecOverrideTarget::StatBlock(block), Option::None) == v,
        override_view(v, SpecOverrideTarget::Speed(x), Option::Some(sel)) == v,
        override_view(v, SpecOverrideTarget::Defense(x), Option::Some(sel)) == v,
{
}

/// The number a GRANT adds fits in an `i64` with what is there.
pub open spec fn grant_fits(v: SelView, g: SpecGrantTarget) -> bool {
    match g {
        SpecGrantTarget::Int(x) => in_i64(v.intellect + x),
        SpecGrantTarget::Str(x) => in_i64(v.strength + x),
        SpecGrantTarget::Will(x) => in_i64(v.will + x),
        SpecGrantTarget::Agl(x) => in_i64(v.agility + x),
        SpecGrantTarget::Speed(x) => in_i64(v.speed + x),
        SpecGrantTarget::Health(x) => in_i64(v.health + x),
        SpecGrantTarget::Defense(x) => in_i64(v.defense + x),
        SpecGrantTarget::NatDef(x) => in_i64(v.nat_def + x),
        SpecGrantTarget::BonusDamage(x) => in_i64(v.bonus_damage + x),
        _ => true,
    }
}

/// The traditions a GRANT names, if it grants traditions.
pub open spec fn granted_traditions(g: SpecGrantTarget) -> Seq<Seq<char>> {
    match g {
        SpecGrantTarget::Tradition(items) => items,
        _ => seq![],
    }
}

/// The choice of one talent of `tradition`, made when and where `m` applies.
pub open spec fn tradition_talent_choice(m: Modifier, tradition: Seq<char>) -> SpecModifier {
    SpecModifier {
        when: m.when,
        target: SpecTarget::Choose(SpecChooseTarget::MagicTalent(1, tradition)),
        condition: m.condition.deep_view(),
    }
}

/// The selections once a LOSE is recorded.
pub open spec fn lose_view(v: SelView, l: SpecLoseTarget) -> SelView {
    match l {
        SpecLoseTarget::Talent(source, name) => SelView {
            lost_talents: v.lost_talents.push((source, name)),
            ..v
        },
        SpecLoseTarget::MagicTalent(tradition, name) => SelView {
            lost_magic_talents: v.lost_magic_talents.push((tradition, name)),
            ..v
        },
    }
}

/// The selections once an OVERRIDE is recorded, given the selection saved for it, if any.
pub open spec fn override_view(v: SelView, o: SpecOverrideTarget, saved: Option<Seq<char>>) -> SelView {
    match (o, saved) {
        (SpecOverrideTarget::StatBlock(block), Option::Some(sel)) => SelView {
            statblock_overrides: v.statblock_overrides.push(
                (
                    match spec_parse_i64(sel) {
                        Option::Some(x) => x,
                        Option::None => -1i64,
                    },
                    block,
                ),
            ),
            ..v
        },
        _ => v,
    }
}

/// Applies a LOSE: the lost talent is recorded by its (source, name) pair, a lost magic talent
/// by its (tradition, name) pair, for `collect` to prune.
pub fn handle_lose_target(lose_target: LoseTarget, selections: &mut ModifierSelections)
    ensures
        sel_view(*final(selections)) == lose_view(
            sel_view(*old(selections)),
            lose_target.deep_view(),
        ),
{
    let ghost before = sel_view(*selections);
    match lose_target {
        LoseTarget::Talent(source, name) => {
            selections.lost_talents.push((source, name));
            proof {
                assert(selections.lost_talents.deep_view() =~= before.lost_talents.push(
                    (source@, name@),
                ));
            }
        },
        LoseTarget::MagicTalent(tradition, name) => {
            selections.lost_magic_talents.push((tradition, name));
            proof {
                assert(selections.lost_magic_talents.deep_view() =~= before.lost_magic_talents.push(
                    (tradition@, name@),
                ));
            }
        },
    }
}

/// The key under which the choice for overriding a stat block is saved.
pub open spec fn override_key_view(block_name: Seq<char>) -> Seq<char> {
    "Override;"@ + block_name
}

/// The key under which the choice for overriding the named stat block is saved.
pub fn override_key(block_name: &String) -> (r: String)
    ensures
        r@ == override_key_view(block_name@),
{
    let mut key = String::from_str("Override;");
    append_string(&mut key, block_name);
    key
}

/// Applies an OVERRIDE, given the selection saved under the stat block's override key, if
/// any. A stat block override is recorded only where a choice was saved, with the index that
/// the selection names, or -1 where the selection is not a number. Overrides of speed and
/// defense change nothing here.
pub fn handle_override_target(
    override_target: OverrideTarget,
    saved_selection: Option<&String>,
    selections: &mut ModifierSelections,
)
    ensures
        sel_view(*final(selections)) == override_view(
            sel_view(*old(selections)),
            override_target.deep_view(),
            match saved_selection {
                Option::Some(sel) => Option::Some(sel@),
                Option::None => Option::None,
            },
        ),
{
    let ghost before = sel_view(*selections);
    match override_target {
        OverrideTarget::StatBlock(block) => {
            if let Option::Some(sel) = saved_selection {
                let idx = match parse_i64(sel.as_str()) {
                    Option::Some(v) => v,
                    Option::None => -1,
                };
                let ghost bv = block@;
                selections.statblock_overrides.push((idx, block));
                proof {
                    assert(selections.statblock_overrides.deep_view()
                        =~= before.statblock_overrides.push((idx, bv)));
                }
            }
        },
        _ => {},
    }
}

/// Applies a GRANT: numbers and names go into the selections; a granted tradition also asks
/// for a choice of one of its talents; a granted talent or magic talent is listed, by (source,
/// name) or (tradition, name), to be looked up.
pub fn handle_grant_target(
    grant_target: GrantTarget,
    modifier: &FullModifier,
    selections: &mut ModifierSelections,
    new_choice_mods: &mut Vec<FullModifier>,
    new_path_talents: &mut Vec<(String, String)>,
    new_magic_talents: &mut Vec<(String, String)>,
)
    requires
        grant_fits(sel_view(*old(selections)), grant_target.deep_view()),
    ensures
        sel_view(*final(selections)) == grant_view(
            sel_view(*old(selections)),
            grant_target.deep_view(),
        ),
        final(new_path_talents).deep_view() == match grant_target.deep_view() {
            SpecGrantTarget::Talent(source, name) => old(new_path_talents).deep_view().push(
                (source, name),
            ),
            _ => old(new_path_talents).deep_view(),
        },
        final(new_magic_talents).deep_view() == match grant_target.deep_view() {
            SpecGrantTarget::MagicTalent(tradition, name) => old(
                new_magic_talents,
            ).deep_view().push((tradition, name)),
            _ => old(new_magic_talents).deep_view(),
        },
        final(new_choice_mods)@.len() == old(new_choice_mods)@.len() + granted_traditions(
            grant_target.deep_view(),
        ).len(),
        forall|k: int|
            0 <= k < old(new_choice_mods)@.len() ==> #[trigger] final(new_choice_mods)@[k] == old(
                new_choice_mods,
            )@[k],
        forall|k: int|
            0 <= k < granted_traditions(grant_target.deep_view()).len() ==> {
                let c = #[trigger] final(new_choice_mods)@[old(new_choice_mods)@.len() + k];
                &&& c.path_str@ == modifier.path_str@
                &&& c.mod_details.deep_view() == tradition_talent_choice(
                    modifier.mod_details,
                    granted_traditions(grant_target.deep_view())[k],
                )
            },
{
    let ghost v0 = sel_view(*selections);
    let ghost s0 = *selections;
    let ghost g = grant_target.deep_view();
    match grant_target {
        GrantTarget::Str(x) => {
            selections.strength += x as i64;
        },
        GrantTarget::Agl(x) => {
            selections.agility += x as i64;
        },
        GrantTarget::Int(x) => {
            selections.intellect += x as i64;
        },
        GrantTarget::Will(x) => {
            selections.will += x as i64;
        },
        GrantTarget::Speed(x) => {
            selections.speed += x as i64;
        },
        GrantTarget::Health(x) => {
            selections.health += x as i64;
        },
        GrantTarget::Defense(x) => {
            selections.defense += x as i64;
        },
        GrantTarget::NatDef(x) => {
            selections.nat_def += x as i64;
        },
        GrantTarget::BonusDamage(x) => {
            selections.bonus_damage += x as i64;
        },
        GrantTarget::Language(items) => {
            let mut items = items;
            let ghost iv = items.deep_view();
            selections.gained_languages.append(&mut items);
            proof {
                assert(selections.gained_languages.deep_view() =~= s0.gained_languages.deep_view()
                    + iv);
            }
        },
        GrantTarget::Tradition(items) => {
            let mut items = items;
            let ghost iv = items.deep_view();
            let ghost c0 = new_choice_mods@;
            let mut k: usize = 0;
            while k < items.len()
                invariant
                    k <= items.len(),
                    iv == items.deep_view(),
                    new_choice_mods@.len() == c0.len() + k,
                    forall|j: int| 0 <= j < c0.len() ==> #[trigger] new_choice_mods@[j] == c0[j],
                    forall|j: int|
                        0 <= j < k ==> {
                            let c = #[trigger] new_choice_mods@[c0.len() + j];
                            &&& c.path_str@ == modifier.path_str@
                            &&& c.mod_details.deep_view() == tradition_talent_choice(
                                modifier.mod_details,
                                iv[j],
                            )
                        },
                decreases items.len() - k,
            {
                let choose_target = ChooseTarget::MagicTalent(1, items[k].clone());
                let new_mod = FullModifier {
                    path_str: modifier.path_str.clone(),
                    mod_details: Modifier {
                        when: modifier.mod_details.when,
                        condition: modifier.mod_details.condition.clone(),
                        target: Target::Choose(choose_target),
                    },
                };
                new_choice_mods.push(new_mod);
                k += 1;
            }
            selections.gained_traditions.append(&mut items);
            proof {
                assert(selections.gained_traditions.deep_view() =~= s0.gained_traditions.deep_view()
                    + iv);
            }
        },
        GrantTarget::Sense(items) => {
            let mut items = items;
            let ghost iv = items.deep_view();
            selections.gained_senses.append(&mut items);
            proof {
                assert(selections.gained_senses.deep_view() =~= s0.gained_senses.deep_view() + iv);
            }
        },
        GrantTarget::Immunity(items) => {
            let mut items = items;
            let ghost iv = items.deep_view();
            selections.gained_immunities.append(&mut items);
            proof {
                assert(selections.gained_immunities.deep_view() =~= s0.gained_immunities.deep_view()
                    + iv);
            }
        },
        GrantTarget::SpeedTrait(items) => {
            let mut items = items;
            let ghost iv = items.deep_view();
            selections.gained_speed_traits.append(&mut items);
            proof {
                assert(selections.gained_speed_traits.deep_view()
                    =~= s0.gained_speed_traits.deep_view() + iv);
            }
        },
        GrantTarget::Talent(source, talent) => {
            let ghost before = new_path_talents.deep_view();
            new_path_talents.push((source, talent));
            proof {
                assert(new_path_talents.deep_view() =~= before.push((source@, talent@)));
            }
        },
        GrantTarget::MagicTalent(tradition, talent) => {
            let ghost before = new_magic_talents.deep_view();
            new_magic_talents.push((tradition, talent));
            proof {
                assert(new_magic_talents.deep_view() =~= before.push((tradition@, talent@)));
            }
        },
    }
    proof {
        assert(sel_view(*selections) == grant_view(v0, g));
    }
}


/// The message for a selection that should have been an id.
pub open spec fn id_error(entry: Seq<char>) -> Seq<char> {
    "Failed to parse ID value '"@ + entry
        + "'. If you're getting this error, this is a bug with the system. You did nothing wrong (probably)."@
}

/// Builds `{head}{entry}{tail}`.
fn message(head: &str, entry: &str, tail: &str) -> (r: String)
    ensures
        r@ == head@ + entry@ + tail@,
{
    let mut m = String::from_str(head);
    append_string(&mut m, &entry.to_string());
    append_string(&mut m, &String::from_str(tail));
    m
}

fn id_error_message(entry: &str) -> (r: WWError)
    ensures
        r matches WWError::Generic(m) && m@ == id_error(entry@),
{
    WWError::Generic(
        message(
            "Failed to parse ID value '",
            entry,
            "'. If you're getting this error, this is a bug with the system. You did nothing wrong (probably).",
        ),
    )
}

/// The score a selection names, if any.
pub open spec fn score_of(entry: Seq<char>) -> Option<int> {
    if entry == "Strength"@ {
        Option::Some(0)
    } else if entry == "Agility"@ {
        Option::Some(1)
    } else if entry == "Intellect"@ {
        Option::Some(2)
    } else if entry == "Will"@ {
        Option::Some(3)
    } else {
        Option::None
    }
}

/// Raises the score that a Score choice selected by one.
pub fn parse_score_choice(entry: &str, selections: &mut ModifierSelections) -> (r: Result<(), WWError>)
    requires
        score_of(entry@) == Option::Some(0int) ==> old(selections).strength < i64::MAX,
        score_of(entry@) == Option::Some(1int) ==> old(selections).agility < i64::MAX,
        score_of(entry@) == Option::Some(2int) ==> old(selections).intellect < i64::MAX,
        score_of(entry@) == Option::Some(3int) ==> old(selections).will < i64::MAX,
    ensures
        match score_of(entry@) {
            Option::Some(k) => r is Ok && sel_view(*final(selections)) == SelView {
                strength: sel_view(*old(selections)).strength + if k == 0 { 1int } else { 0 },
                agility: sel_view(*old(selections)).agility + if k == 1 { 1int } else { 0 },
                intellect: sel_view(*old(selections)).intellect + if k == 2 { 1int } else { 0 },
                will: sel_view(*old(selections)).will + if k == 3 { 1int } else { 0 },
                ..sel_view(*old(selections))
            },
            Option::None => r matches Result::Err(WWError::Generic(m)) && m@ == "Failed to parse Score choice selection '"@ + entry@ + "'"@
                && *final(selections) == *old(selections),
        },
{
    let e = entry.to_string();
    if text_is(&e, "Strength") {
        selections.strength += 1;
    } else if text_is(&e, "Agility") {
        selections.agility += 1;
    } else if text_is(&e, "Intellect") {
        selections.intellect += 1;
    } else if text_is(&e, "Will") {
        selections.will += 1;
    } else {
        return Result::Err(
            WWError::Generic(message("Failed to parse Score choice selection '", entry, "'")),
        );
    }
    Result::Ok(())
}

/// Reads a selection that is an id.
pub fn parse_id_choice(entry: &str) -> (r: Result<i64, WWError>)
    ensures
        match spec_parse_i64(entry@) {
            Option::Some(v) => r == Result::<i64, WWError>::Ok(v),
            Option::None => r matches Result::Err(WWError::Generic(m)) && m@ == id_error(entry@),
        },
{
    match parse_i64(entry) {
        Option::Some(v) => Result::Ok(v),
        Option::None => Result::Err(id_error_message(entry)),
    }
}

/// What a selection of a tradition and one of its talents, written `tradition|talent`, gives:
/// the two ids, or the message of the first thing that is wrong. Pieces after the second are
/// ignored.
pub open spec fn twin_ids(entry: Seq<char>) -> Result<(i64, i64), Seq<char>> {
    let parts = split_on(entry, '|');
    match spec_parse_i64(parts[0]) {
        Option::None => Result::Err(id_error(entry)),
        Option::Some(a) => if parts.len() < 2 {
            Result::Err(
                "Failed to parse twin ID value '"@ + entry
                    + "'. If you're getting this error, this is a bug with the system. You did nothing wrong (probably)."@,
            )
        } else {
            match spec_parse_i64(parts[1]) {
                Option::None => Result::Err(id_error(entry)),
                Option::Some(b) => Result::Ok((a, b)),
            }
        },
    }
}

/// Reads a selection of a tradition and one of its talents.
pub fn parse_twin_id_choice(entry: &str) -> (r: Result<(i64, i64), WWError>)
    ensures
        match twin_ids(entry@) {
            Result::Ok(t) => r == Result::<(i64, i64), WWError>::Ok(t),
            Result::Err(e) => r matches Result::Err(WWError::Generic(m)) && m@ == e,
        },
{
    let chars = chars_of(entry);
    let parts = split_pieces(&chars, '|');
    proof {
        crate::text::lemma_split_nonempty(entry@, '|');
        assert(parts.deep_view()[0] == parts@[0]@);
    }
    let trad_id = match parse_i64(parts[0].as_str()) {
        Option::Some(v) => v,
        Option::None => {
            return Result::Err(id_error_message(entry));
        },
    };
    if parts.len() < 2 {
        return Result::Err(
            WWError::Generic(
                message(
                    "Failed to parse twin ID value '",
                    entry,
                    "'. If you're getting this error, this is a bug with the system. You did nothing wrong (probably).",
                ),
            ),
        );
    }
    proof {
        assert(parts.deep_view()[1] == parts@[1]@);
    }
    let talent_id = match parse_i64(parts[1].as_str()) {
        Option::Some(v) => v,
        Option::None => {
            return Result::Err(id_error_message(entry));
        },
    };
    Result::Ok((trad_id, talent_id))
}

/// What a selection that changes a spell's slots, written `kind|amount|spell`, gives: `plus` or
/// `times` the amount for the spell, or one message for anything wrong. Pieces after the third
/// are ignored.
pub open spec fn slots_choice(entry: Seq<char>) -> Result<SlotMod, Seq<char>> {
    let parts = split_on(entry, '|');
    let err = "Failed to parse slots decision '"@ + entry
        + "'. If you're getting this error, this is a bug with the system. You did nothing wrong (probably)."@;
    if parts.len() < 3 {
        Result::Err(err)
    } else {
        match (spec_parse_i64(parts[1]), spec_parse_i64(parts[2])) {
            (Option::Some(amount), Option::Some(spell_id)) => if parts[0] == "times"@ {
                Result::Ok(SlotMod::Times { amount, spell_id })
            } else if parts[0] == "plus"@ {
                Result::Ok(SlotMod::Plus { amount, spell_id })
            } else {
                Result::Err(err)
            },
            _ => Result::Err(err),
        }
    }
}

/// Reads a selection that changes a spell's slots.
pub fn parse_slots_choice(entry: &str) -> (r: Result<SlotMod, WWError>)
    ensures
        match slots_choice(entry@) {
            Result::Ok(t) => r == Result::<SlotMod, WWError>::Ok(t),
            Result::Err(e) => r matches Result::Err(WWError::Generic(m)) && m@ == e,
        },
{
    let chars = chars_of(entry);
    let parts = split_pieces(&chars, '|');
    if parts.len() < 3 {
        return Result::Err(slots_error(entry));
    }
    proof {
        assert(parts.deep_view()[0] == parts@[0]@);
        assert(parts.deep_view()[1] == parts@[1]@);
        assert(parts.deep_view()[2] == parts@[2]@);
    }
    let amount = match parse_i64(parts[1].as_str()) {
        Option::Some(v) => v,
        Option::None => {
            return Result::Err(slots_error(entry));
        },
    };
    let spell_id = match parse_i64(parts[2].as_str()) {
        Option::Some(v) => v,
        Option::None => {
            return Result::Err(slots_error(entry));
        },
    };
    if text_is(&parts[0], "times") {
        Result::Ok(SlotMod::Times { amount, spell_id })
    } else if text_is(&parts[0], "plus") {
        Result::Ok(SlotMod::Plus { amount, spell_id })
    } else {
        Result::Err(slots_error(entry))
    }
}

fn slots_error(entry: &str) -> (r: WWError)
    ensures
        r matches WWError::Generic(m) && m@ == "Failed to parse slots decision '"@ + entry@
            + "'. If you're getting this error, this is a bug with the system. You did nothing wrong (probably)."@,
{
    WWError::Generic(
        message(
            "Failed to parse slots decision '",
            entry,
            "'. If you're getting this error, this is a bug with the system. You did nothing wrong (probably).",
        ),
    )
}


/// Merging into empty selections gives the other selections, and merging empty selections
/// changes nothing.
pub proof fn lemma_merge_identity(v: SelView)
    ensures
        merge_view(empty_sel_view(), v) == v,
        merge_view(v, empty_sel_view()) == v,
{
    assert(merge_view(empty_sel_view(), v) =~= v) by {
        assert(seq![] + v.gained_languages =~= v.gained_languages);
        assert(seq![] + v.gained_traditions =~= v.gained_traditions);
        assert(seq![] + v.gained_senses =~= v.gained_senses);
        assert(seq![] + v.gained_immunities =~= v.gained_immunities);
        assert(seq![] + v.gained_speed_traits =~= v.gained_speed_traits);
        assert(seq![] + v.statblock_overrides =~= v.statblock_overrides);
        assert(seq![] + v.gained_language_ids =~= v.gained_language_ids);
        assert(seq![] + v.gained_profession_ids =~= v.gained_profession_ids);
        assert(seq![] + v.gained_spell_ids =~= v.gained_spell_ids);
        assert(seq![] + v.gained_tradition_ids =~= v.gained_tradition_ids);
        assert(seq![] + v.modified_slots =~= v.modified_slots);
        assert(seq![] + v.lost_talents =~= v.lost_talents);
        assert(seq![] + v.lost_magic_talents =~= v.lost_magic_talents);
        assert(seq![] + v.gained_talents =~= v.gained_talents);
        assert(seq![] + v.gained_magic_talents =~= v.gained_magic_talents);
        assert(seq![] + v.required_choices =~= v.required_choices);
    }
    assert(merge_view(v, empty_sel_view()) =~= v) by {
        assert(v.gained_languages + seq![] =~= v.gained_languages);
        assert(v.gained_traditions + seq![] =~= v.gained_traditions);
        assert(v.gained_senses + seq![] =~= v.gained_senses);
        assert(v.gained_immunities + seq![] =~= v.gained_immunities);
        assert(v.gained_speed_traits + seq![] =~= v.gained_speed_traits);
        assert(v.statblock_overrides + seq![] =~= v.statblock_overrides);
        assert(v.gained_language_ids + seq![] =~= v.gained_language_ids);
        assert(v.gained_profession_ids + seq![] =~= v.gained_profession_ids);
        assert(v.gained_spell_ids + seq![] =~= v.gained_spell_ids);
        assert(v.gained_tradition_ids + seq![] =~= v.gained_tradition_ids);
        assert(v.modified_slots + seq![] =~= v.modified_slots);
        assert(v.lost_talents + seq![] =~= v.lost_talents);
        assert(v.lost_magic_talents + seq![] =~= v.lost_magic_talents);
        assert(v.gained_talents + seq![] =~= v.gained_talents);
        assert(v.gained_magic_talents + seq![] =~= v.gained_magic_talents);
        assert(v.required_choices + seq![] =~= v.required_choices);
    }
}

/// Merging is associative: merging three selections in turn gives the same whichever pair is
/// merged first.
pub proof fn lemma_merge_assoc(a: SelView, b: SelView, c: SelView)
    ensures
        merge_view(merge_view(a, b), c) == merge_view(a, merge_view(b, c)),
{
    let l = merge_view(merge_view(a, b), c);
    let r = merge_view(a, merge_view(b, c));
    assert(l.gained_languages =~= r.gained_languages);
    assert(l.gained_traditions =~= r.gained_traditions);
    assert(l.gained_senses =~= r.gained_senses);
    assert(l.gained_immunities =~= r.gained_immunities);
    assert(l.gained_speed_traits =~= r.gained_speed_traits);
    assert(l.statblock_overrides =~= r.statblock_overrides);
    assert(l.gained_language_ids =~= r.gained_language_ids);
    assert(l.gained_profession_ids =~= r.gained_profession_ids);
    assert(l.gained_spell_ids =~= r.gained_spell_ids);
    assert(l.gained_tradition_ids =~= r.gained_tradition_ids);
    assert(l.modified_slots =~= r.modified_slots);
    assert(l.lost_talents =~= r.lost_talents);
    assert(l.lost_magic_talents =~= r.lost_magic_talents);
    assert(l.gained_talents =~= r.gained_talents);
    assert(l.gained_magic_talents =~= r.gained_magic_talents);
    assert(l.required_choices =~= r.required_choices);
}

/// The numbers of merged selections do not depend on the order of the merge.
pub proof fn lemma_merge_numbers_commute(a: SelView, b: SelView)
    ensures
        merge_view(a, b).strength == merge_view(b, a).strength,
        merge_view(a, b).agility == merge_view(b, a).agility,
        merge_view(a, b).intellect == merge_view(b, a).intellect,
        merge_view(a, b).will == merge_view(b, a).will,
        merge_view(a, b).speed == merge_view(b, a).speed,
        merge_view(a, b).health == merge_view(b, a).health,
        merge_view(a, b).defense == merge_view(b, a).defense,
        merge_view(a, b).nat_def == merge_view(b, a).nat_def,
        merge_view(a, b).bonus_damage == merge_view(b, a).bonus_damage,
{
}

/// Every talent of the list has no sub-trees and was not lost.
pub open spec fn flat_kept_paths(ks: Seq<(FullPathTalent, Seq<SelView>)>, l: LossView) -> bool {
    forall|k: int| 0 <= k < ks.len() ==> (#[trigger] ks[k]).1.len() == 0 && path_kept(ks[k].0, l)
}

/// Every magic talent of the list has no sub-trees and was not lost.
pub open spec fn flat_kept_magic(ks: Seq<(FullMagicTalent, Seq<SelView>)>, l: LossView) -> bool {
    forall|k: int|
        0 <= k < ks.len() ==> (#[trigger] ks[k]).1.len() == 0 && magic_kept(ks[k].0, l)
}

/// Both talent lists of the selections are flat and hold nothing lost.
pub open spec fn all_flat_kept(v: SelView, l: LossView) -> bool {
    flat_kept_paths(v.gained_talents, l) && flat_kept_magic(v.gained_magic_talents, l)
}

/// The talent lists of `r` are those of `x` followed by flat talents that were not lost.
pub open spec fn extends_flat(x: SelView, r: SelView, l: LossView) -> bool {
    let n = x.gained_talents.len() as int;
    let m = x.gained_magic_talents.len() as int;
    &&& n <= r.gained_talents.len()
    &&& r.gained_talents.take(n) == x.gained_talents
    &&& flat_kept_paths(r.gained_talents.skip(n), l)
    &&& m <= r.gained_magic_talents.len()
    &&& r.gained_magic_talents.take(m) == x.gained_magic_talents
    &&& flat_kept_magic(r.gained_magic_talents.skip(m), l)
}

proof fn lemma_extends_refl(x: SelView, l: LossView)
    ensures
        extends_flat(x, x, l),
{
    assert(x.gained_talents.take(x.gained_talents.len() as int) =~= x.gained_talents);
    assert(x.gained_magic_talents.take(x.gained_magic_talents.len() as int)
        =~= x.gained_magic_talents);
}

proof fn lemma_extends_trans(x: SelView, y: SelView, z: SelView, l: LossView)
    requires
        extends_flat(x, y, l),
        extends_flat(y, z, l),
    ensures
        extends_flat(x, z, l),
{
    let nx = x.gained_talents.len() as int;
    let ny = y.gained_talents.len() as int;
    assert(z.gained_talents.take(nx) =~= x.gained_talents) by {
        assert(z.gained_talents.take(ny).take(nx) =~= z.gained_talents.take(nx));
        assert(y.gained_talents.take(nx) =~= x.gained_talents);
    }
    assert forall|k: int| 0 <= k < z.gained_talents.skip(nx).len() implies (#[trigger] z.gained_talents.skip(
        nx,
    )[k]).1.len() == 0 && path_kept(z.gained_talents.skip(nx)[k].0, l) by {
        if nx + k < ny {
            assert(z.gained_talents.skip(nx)[k] == y.gained_talents.skip(nx)[k]);
        } else {
            assert(z.gained_talents.skip(nx)[k] == z.gained_talents.skip(ny)[nx + k - ny]);
        }
    }
    let mx = x.gained_magic_talents.len() as int;
    let my = y.gained_magic_talents.len() as int;
    assert(z.gained_magic_talents.take(mx) =~= x.gained_magic_talents) by {
        assert(z.gained_magic_talents.take(my).take(mx) =~= z.gained_magic_talents.take(mx));
        assert(y.gained_magic_talents.take(mx) =~= x.gained_magic_talents);
    }
    assert forall|k: int| 0 <= k < z.gained_magic_talents.skip(mx).len() implies (
    #[trigger] z.gained_magic_talents.skip(mx)[k]).1.len() == 0 && magic_kept(
        z.gained_magic_talents.skip(mx)[k].0,
        l,
    ) by {
        if mx + k < my {
            assert(z.gained_magic_talents.skip(mx)[k] == y.gained_magic_talents.skip(mx)[k]);
        } else {
            assert(z.gained_magic_talents.skip(mx)[k] == z.gained_magic_talents.skip(my)[mx + k
                - my]);
        }
    }
}

proof fn lemma_extends_merge(x: SelView, c: SelView, l: LossView)
    requires
        all_flat_kept(c, l),
    ensures
        extends_flat(x, merge_view(x, c), l),
{
    let r = merge_view(x, c);
    assert(r.gained_talents.take(x.gained_talents.len() as int) =~= x.gained_talents);
    assert(r.gained_talents.skip(x.gained_talents.len() as int) =~= c.gained_talents);
    assert(r.gained_magic_talents.take(x.gained_magic_talents.len() as int)
        =~= x.gained_magic_talents);
    assert(r.gained_magic_talents.skip(x.gained_magic_talents.len() as int)
        =~= c.gained_magic_talents);
}

/// After collapsing, every talent left, at the top or brought up from any depth, has no
/// sub-trees and was not lost, and the same holds of every magic talent left.
pub proof fn lemma_collect_flat_and_pruned(v: SelView, l: LossView)
    ensures
        collect_view(v, l) matches Option::Some(r) ==> {
            &&& forall|k: int|
                0 <= k < r.gained_talents.len() ==> (#[trigger] r.gained_talents[k]).1.len() == 0
                    && path_kept(r.gained_talents[k].0, l)
            &&& forall|k: int|
                0 <= k < r.gained_magic_talents.len() ==> (
                #[trigger] r.gained_magic_talents[k]).1.len() == 0 && magic_kept(
                    r.gained_magic_talents[k].0,
                    l,
                )
        },
    decreases v,
{
    let start = SelView { gained_talents: seq![], ..v };
    lemma_path_phase_extends(start, v.gained_talents, l);
    if let Option::Some(a) = path_phase(Option::Some(start), v.gained_talents, l) {
        let b0 = SelView { gained_magic_talents: seq![], ..a };
        lemma_magic_phase_extends(b0, v.gained_magic_talents, l);
        if let Option::Some(b) = magic_phase(Option::Some(b0), v.gained_magic_talents, l) {
            lemma_kept_paths_flat(v.gained_talents, l);
            lemma_kept_magic_flat(a.gained_magic_talents, l);
            assert(a.gained_talents.skip(0) =~= a.gained_talents);
            assert(b.gained_magic_talents.skip(0) =~= b.gained_magic_talents);
            let na = a.gained_talents.len() as int;
            assert(flat_kept_paths(b.gained_talents, l)) by {
                assert forall|k: int| 0 <= k < b.gained_talents.len() implies (
                #[trigger] b.gained_talents[k]).1.len() == 0 && path_kept(
                    b.gained_talents[k].0,
                    l,
                ) by {
                    if k < na {
                        assert(b.gained_talents.take(na)[k] == b.gained_talents[k]);
                        assert(a.gained_talents.skip(0)[k] == a.gained_talents[k]);
                    } else {
                        assert(b.gained_talents.skip(na)[k - na] == b.gained_talents[k]);
                    }
                }
            }
            let r = collect_view(v, l)->0;
            let kp = kept_paths(v.gained_talents, l);
            let km = kept_magic(a.gained_magic_talents, l);
            assert forall|k: int| 0 <= k < r.gained_talents.len() implies (
            #[trigger] r.gained_talents[k]).1.len() == 0 && path_kept(r.gained_talents[k].0, l) by {
                if k < kp.len() {
                    assert(r.gained_talents[k] == kp[k]);
                } else {
                    assert(r.gained_talents[k] == b.gained_talents[k - kp.len()]);
                }
            }
            assert forall|k: int| 0 <= k < r.gained_magic_talents.len() implies (
            #[trigger] r.gained_magic_talents[k]).1.len() == 0 && magic_kept(
                r.gained_magic_talents[k].0,
                l,
            ) by {
                if k < km.len() {
                    assert(r.gained_magic_talents[k] == km[k]);
                } else {
                    assert(r.gained_magic_talents[k] == b.gained_magic_talents.skip(0)[k
                        - km.len()]);
                }
            }
        }
    }
}

proof fn lemma_merge_collected_extends(x: SelView, subs: Seq<SelView>, l: LossView)
    ensures
        merge_collected(Option::Some(x), subs, l) matches Option::Some(r) ==> extends_flat(x, r, l),
    decreases subs,
{
    if subs.len() == 0 {
        lemma_extends_refl(x, l);
    } else {
        lemma_merge_collected_extends(x, subs.drop_last(), l);
        lemma_collect_flat_and_pruned(subs.last(), l);
        if let Option::Some(p) = merge_collected(Option::Some(x), subs.drop_last(), l) {
            if let Option::Some(c) = collect_view(subs.last(), l) {
                if merge_fits(p, c) {
                    lemma_extends_merge(p, c, l);
                    lemma_extends_trans(x, p, merge_view(p, c), l);
                }
            }
        }
    }
}

proof fn lemma_path_phase_extends(x: SelView, ks: Seq<(FullPathTalent, Seq<SelView>)>, l: LossView)
    ensures
        path_phase(Option::Some(x), ks, l) matches Option::Some(r) ==> extends_flat(x, r, l),
    decreases ks,
{
    if ks.len() == 0 {
        lemma_extends_refl(x, l);
    } else {
        lemma_path_phase_extends(x, ks.drop_last(), l);
        if path_kept(ks.last().0, l) {
            match path_phase(Option::Some(x), ks.drop_last(), l) {
                Option::Some(p) => {
                    lemma_merge_collected_extends(p, ks.last().1, l);
                    if let Option::Some(r) = merge_collected(Option::Some(p), ks.last().1, l) {
                        lemma_extends_trans(x, p, r, l);
                    }
                },
                Option::None => {
                    lemma_collected_none(ks.last().1, l);
                },
            }
        }
    }
}

proof fn lemma_magic_phase_extends(
    x: SelView,
    ks: Seq<(FullMagicTalent, Seq<SelView>)>,
    l: LossView,
)
    ensures
        magic_phase(Option::Some(x), ks, l) matches Option::Some(r) ==> extends_flat(x, r, l),
    decreases ks,
{
    if ks.len() == 0 {
        lemma_extends_refl(x, l);
    } else {
        lemma_magic_phase_extends(x, ks.drop_last(), l);
        if magic_kept(ks.last().0, l) {
            match magic_phase(Option::Some(x), ks.drop_last(), l) {
                Option::Some(p) => {
                    lemma_merge_collected_extends(p, ks.last().1, l);
                    if let Option::Some(r) = merge_collected(Option::Some(p), ks.last().1, l) {
                        lemma_extends_trans(x, p, r, l);
                    }
                },
                Option::None => {
                    lemma_collected_none(ks.last().1, l);
                },
            }
        }
    }
}


proof fn lemma_path_phase_flat(acc: Option<SelView>, ks: Seq<(FullPathTalent, Seq<SelView>)>, l: LossView)
    requires
        forall|k: int| 0 <= k < ks.len() ==> (#[trigger] ks[k]).1.len() == 0,
    ensures
        path_phase(acc, ks, l) == acc,
    decreases ks.len(),
{
    if ks.len() > 0 {
        lemma_path_phase_flat(acc, ks.drop_last(), l);
        assert(ks.last().1.len() == 0);
        assert(merge_collected(path_phase(acc, ks.drop_last(), l), ks.last().1, l) == path_phase(
            acc,
            ks.drop_last(),
            l,
        ));
    }
}

proof fn lemma_magic_phase_flat(
    acc: Option<SelView>,
    ks: Seq<(FullMagicTalent, Seq<SelView>)>,
    l: LossView,
)
    requires
        forall|k: int| 0 <= k < ks.len() ==> (#[trigger] ks[k]).1.len() == 0,
    ensures
        magic_phase(acc, ks, l) == acc,
    decreases ks.len(),
{
    if ks.len() > 0 {
        lemma_magic_phase_flat(acc, ks.drop_last(), l);
        assert(ks.last().1.len() == 0);
        assert(merge_collected(magic_phase(acc, ks.drop_last(), l), ks.last().1, l) == magic_phase(
            acc,
            ks.drop_last(),
            l,
        ));
    }
}

proof fn lemma_kept_paths_same(ks: Seq<(FullPathTalent, Seq<SelView>)>, l: LossView)
    requires
        forall|k: int|
            0 <= k < ks.len() ==> (#[trigger] ks[k]).1.len() == 0 && path_kept(ks[k].0, l),
    ensures
        kept_paths(ks, l) == ks,
    decreases ks.len(),
{
    if ks.len() > 0 {
        lemma_kept_paths_same(ks.drop_last(), l);
        assert(ks.last().1 =~= seq![]);
        assert(ks.drop_last().push((ks.last().0, seq![])) =~= ks);
    } else {
        assert(ks =~= seq![]);
    }
}

proof fn lemma_kept_magic_same(ks: Seq<(FullMagicTalent, Seq<SelView>)>, l: LossView)
    requires
        forall|k: int|
            0 <= k < ks.len() ==> (#[trigger] ks[k]).1.len() == 0 && magic_kept(ks[k].0, l),
    ensures
        kept_magic(ks, l) == ks,
    decreases ks.len(),
{
    if ks.len() > 0 {
        lemma_kept_magic_same(ks.drop_last(), l);
        assert(ks.last().1 =~= seq![]);
        assert(ks.drop_last().push((ks.last().0, seq![])) =~= ks);
    } else {
        assert(ks =~= seq![]);
    }
}

/// No talent that survives collapsing has its (source, name) pair among the losses, and no
/// magic talent that survives has its (tradition, name) pair among them.
pub proof fn lemma_collect_drops_lost_pairs(v: SelView, l: LossView)
    ensures
        collect_view(v, l) matches Option::Some(r) ==> {
            &&& forall|k: int|
                0 <= k < r.gained_talents.len() ==> !l.path_talents.contains(
                    ((#[trigger] r.gained_talents[k]).0.source@, r.gained_talents[k].0.name@),
                )
            &&& forall|k: int|
                0 <= k < r.gained_magic_talents.len() ==> !l.magic_talents.contains(
                    (
                        (#[trigger] r.gained_magic_talents[k]).0.tradition_name@,
                        r.gained_magic_talents[k].0.name@,
                    ),
                )
        },
{
    lemma_collect_flat_and_pruned(v, l);
}

/// A talent lost by a LOSE of its source and name, and a magic talent lost by a LOSE of its
/// tradition and name, never survive collapsing the tree under the tree's own losses.
pub proof fn lemma_lose_then_collect(
    v: SelView,
    source: Seq<char>,
    name: Seq<char>,
    tradition: Seq<char>,
    magic_name: Seq<char>,
)
    ensures
        ({
            let v2 = lose_view(v, SpecLoseTarget::Talent(source, name));
            collect_view(v2, tree_losses(v2)) matches Option::Some(r) ==> forall|k: int|
                0 <= k < r.gained_talents.len() ==> !((#[trigger] r.gained_talents[k]).0.source@
                    == source && r.gained_talents[k].0.name@ == name)
        }),
        ({
            let v3 = lose_view(v, SpecLoseTarget::MagicTalent(tradition, magic_name));
            collect_view(v3, tree_losses(v3)) matches Option::Some(r) ==> forall|k: int|
                0 <= k < r.gained_magic_talents.len() ==> !((
                #[trigger] r.gained_magic_talents[k]).0.tradition_name@ == tradition
                    && r.gained_magic_talents[k].0.name@ == magic_name)
        }),
{
    let v2 = lose_view(v, SpecLoseTarget::Talent(source, name));
    assert(v2.lost_talents.last() == (source, name));
    assert(v2.lost_talents.contains((source, name)));
    assert(tree_losses(v2).path_talents.contains((source, name)));
    lemma_collect_drops_lost_pairs(v2, tree_losses(v2));
    let v3 = lose_view(v, SpecLoseTarget::MagicTalent(tradition, magic_name));
    assert(v3.lost_magic_talents.last() == (tradition, magic_name));
    assert(v3.lost_magic_talents.contains((tradition, magic_name)));
    assert(tree_losses(v3).magic_talents.contains((tradition, magic_name)));
    lemma_collect_drops_lost_pairs(v3, tree_losses(v3));
}

/// Collapsing a collapsed tree again, under the same losses, changes nothing.
pub proof fn lemma_collect_idempotent(v: SelView, l: LossView)
    ensures
        collect_view(v, l) matches Option::Some(r) ==> collect_view(r, l) == Option::Some(r),
{
    lemma_collect_flat_and_pruned(v, l);
    if let Option::Some(r) = collect_view(v, l) {
        let start = SelView { gained_talents: seq![], ..r };
        lemma_path_phase_flat(Option::Some(start), r.gained_talents, l);
        let b0 = SelView { gained_magic_talents: seq![], ..start };
        lemma_magic_phase_flat(Option::Some(b0), r.gained_magic_talents, l);
        lemma_kept_paths_same(r.gained_talents, l);
        lemma_kept_magic_same(r.gained_magic_talents, l);
        assert(r.gained_talents + b0.gained_talents =~= r.gained_talents);
        assert(r.gained_magic_talents + b0.gained_magic_talents =~= r.gained_magic_talents);
        assert(collect_view(r, l) == Option::Some(
            SelView {
                gained_talents: kept_paths(r.gained_talents, l) + b0.gained_talents,
                gained_magic_talents: kept_magic(start.gained_magic_talents, l)
                    + b0.gained_magic_talents,
                ..b0
            },
        ));
    }
}

} // verus!
