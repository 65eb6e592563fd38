//! Modifiers as the character sheet carries them: each with the path of the talent, spell or
//! choice it came from.
use vstd::prelude::*;
use crate::mod_dsl::ast::{Modifier, SpecModifier, WhenMod};
use crate::mod_dsl::parser::{aborts, parse_mods, spec_parse_mods, Fail};
use crate::result::WWError;
use crate::text::{append_string, nat_decimal, push_char, u64_to_string};

verus! {

/// A modifier together with the path string of its source.
#[derive(Debug)]
pub struct FullModifier {
    pub path_str: String,
    pub mod_details: Modifier,
}

impl Clone for FullModifier {
    fn clone(&self) -> (r: Self)
        ensures
            full_mod_view(r) == full_mod_view(*self),
    {
        FullModifier { path_str: self.path_str.clone(), mod_details: self.mod_details.clone() }
    }
}

/// A copy of a list of modifiers.
pub fn clone_mods(v: &Vec<FullModifier>) -> (r: Vec<FullModifier>)
    ensures
        mods_view(r@) == mods_view(v@),
{
    let mut r: Vec<FullModifier> = Vec::new();
    let mut k: usize = 0;
    while k < v.len()
        invariant
            k <= v.len(),
            mods_view(r@) == mods_view(v@.take(k as int)),
        decreases v.len() - k,
    {
        let ghost before = r@;
        let c = v[k].clone();
        r.push(c);
        proof {
            assert(mods_view(r@) =~= mods_view(before).push(full_mod_view(v@[k as int])));
            assert(v@.take(k + 1) =~= v@.take(k as int).push(v@[k as int]));
            assert(mods_view(v@.take(k + 1)) =~= mods_view(v@.take(k as int)).push(
                full_mod_view(v@[k as int]),
            ));
        }
        k += 1;
    }
    proof {
        assert(v@.take(k as int) =~= v@);
    }
    r
}

/// Records that carry modifiers.
pub trait HasModifiers {
    fn modifiers(&self) -> Vec<FullModifier>;
}

/// The path string of the modifier at position `idx` of a talent's text: the kind of talent,
/// its name and its source (or tradition), and the position, separated by semicolons.
pub open spec fn talent_path_str(kind: Seq<char>, name: Seq<char>, source: Seq<char>, idx: nat) -> Seq<
    char,
> {
    kind + name + seq![';'] + source + seq![';'] + nat_decimal(idx)
}

/// A modifier as the contracts see it: its path string and its syntax tree.
pub open spec fn full_mod_view(m: FullModifier) -> (Seq<char>, SpecModifier) {
    (m.path_str@, m.mod_details.deep_view())
}

/// The modifiers of a talent's text, as views: none without a text, each parsed modifier with
/// the path string of its position, or the parser's message.
#[verifier::opaque]
pub open spec fn talent_mod_views(
    kind: Seq<char>,
    name: Seq<char>,
    source: Seq<char>,
    mod_str: Option<Seq<char>>,
) -> Result<Seq<(Seq<char>, SpecModifier)>, Seq<char>> {
    match mod_str {
        Option::None => Result::Ok(seq![]),
        Option::Some(m) => match spec_parse_mods(m) {
            Result::Ok(ms) => Result::Ok(
                Seq::new(ms.len(), |i: int| (talent_path_str(kind, name, source, i as nat), ms[i])),
            ),
            Result::Err(Fail::Msg(e)) => Result::Err(e),
            Result::Err(Fail::Abort) => Result::Err(seq![]),
        },
    }
}

/// The text of an optional string, as a view.
pub open spec fn opt_view(s: Option<String>) -> Option<Seq<char>> {
    match s {
        Option::Some(x) => Option::Some(x@),
        Option::None => Option::None,
    }
}

/// A list of modifiers, as views.
pub open spec fn mods_view(v: Seq<FullModifier>) -> Seq<(Seq<char>, SpecModifier)> {
    v.map_values(|m: FullModifier| full_mod_view(m))
}

/// The result of building a talent's modifiers matches `talent_mod_views`.
pub open spec fn mods_result_ok(
    r: Result<Vec<FullModifier>, WWError>,
    expected: Result<Seq<(Seq<char>, SpecModifier)>, Seq<char>>,
) -> bool {
    match expected {
        Result::Ok(v) => r matches Result::Ok(x) && mods_view(x@) == v,
        Result::Err(e) => r matches Result::Err(WWError::Generic(y)) && y@ == e,
    }
}

impl FullModifier {
    /// A choice must be made where its modifier applies permanently.
    pub fn required(&self) -> (r: bool)
        ensures
            r == (self.mod_details.when is Permanent),
    {
        matches!(self.mod_details.when, WhenMod::Permanent)
    }

    /// The modifiers of a path talent's text, each with the path string
    /// `PathTalent;{name};{source};{index}`.
    pub fn from_path_talent(name: &str, source: &str, mod_str: &Option<String>) -> (r: Result<
        Vec<Self>,
        WWError,
    >)
        requires
            mod_str matches Option::Some(m) ==> !aborts(spec_parse_mods(m@)),
        ensures
            mods_result_ok(r, talent_mod_views("PathTalent;"@, name@, source@, opt_view(*mod_str))),
    {
        let kind = String::from_str("PathTalent;");
        modifiers_of_text(kind, name, source, mod_str)
    }

    /// The modifiers of a magic talent's text, each with the path string
    /// `MagicTalent;{name};{tradition};{index}`.
    pub fn from_magic_talent(name: &str, tradition_name: &str, mod_str: &Option<String>) -> (r:
        Result<Vec<Self>, WWError>)
        requires
            mod_str matches Option::Some(m) ==> !aborts(spec_parse_mods(m@)),
        ensures
            mods_result_ok(
                r,
                talent_mod_views("MagicTalent;"@, name@, tradition_name@, opt_view(*mod_str)),
            ),
    {
        let kind = String::from_str("MagicTalent;");
        modifiers_of_text(kind, name, tradition_name, mod_str)
    }
}

/// Parses a talent's modifier text and gives each modifier its path string.
fn modifiers_of_text(kind: String, name: &str, source: &str, mod_str: &Option<String>) -> (r:
    Result<Vec<FullModifier>, WWError>)
    requires
        mod_str matches Option::Some(m) ==> !aborts(spec_parse_mods(m@)),
    ensures
        mods_result_ok(r, talent_mod_views(kind@, name@, source@, opt_view(*mod_str))),
{
    reveal(talent_mod_views);
    match mod_str {
        Option::None => {
            let r: Vec<FullModifier> = Vec::new();
            assert(mods_view(r@) =~= seq![]);
            Result::Ok(r)
        },
        Option::Some(text) => {
            let parsed = match parse_mods(text.as_str()) {
                Result::Ok(v) => v,
                Result::Err(e) => {
                    return Result::Err(WWError::Generic(e));
                },
            };
            let ghost ms = parsed.deep_view();
            let mut parsed = parsed;
            let n = parsed.len();
            let mut out: Vec<FullModifier> = Vec::new();
            let mut idx: usize = 0;
            while idx < n
                invariant
                    n == ms.len(),
                    idx <= n,
                    parsed.deep_view() == ms.skip(idx as int),
                    out.len() == idx,
                    forall|i: int|
                        0 <= i < idx ==> (#[trigger] out[i]).mod_details.deep_view() == ms[i]
                            && out[i].path_str@ == talent_path_str(kind@, name@, source@, i as nat),
                decreases n - idx,
            {
                let ghost before = parsed.deep_view();
                let ghost before_v = parsed@;
                assert(before.len() == parsed.len());
                assert(before[0] == before_v[0].deep_view());
                let mod_details = parsed.remove(0);
                proof {
                    assert(before_v[0] == mod_details);
                    assert(parsed@ =~= before_v.subrange(1, before_v.len() as int));
                    assert forall|k: int| 0 <= k < parsed.deep_view().len() implies parsed.deep_view()[k]
                        == ms.skip(idx + 1)[k] by {
                        assert(parsed@[k] == before_v[k + 1]);
                        assert(before[k + 1] == before_v[k + 1].deep_view());
                    }
                    assert(parsed.deep_view() =~= ms.skip(idx + 1));
                }
                let mut path_str = kind.clone();
                append_string(&mut path_str, &name.to_string());
                push_char(&mut path_str, ';');
                append_string(&mut path_str, &source.to_string());
                push_char(&mut path_str, ';');
                append_string(&mut path_str, &u64_to_string(idx as u64));
                proof {
                    assert(path_str@ =~= talent_path_str(kind@, name@, source@, idx as nat));
                }
                out.push(FullModifier { path_str, mod_details });
                idx += 1;
            }
            proof {
                assert(mods_view(out@) =~= Seq::new(
                    ms.len(),
                    |i: int| (talent_path_str(kind@, name@, source@, i as nat), ms[i]),
                ));
            }
            Result::Ok(out)
        },
    }
}

} // verus!
