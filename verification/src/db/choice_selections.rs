//! The tables of options a CHOOSE lets the player pick from, each option with its modifiers.
use vstd::prelude::*;
use crate::mod_dsl::ast::SpecModifier;
use crate::mod_dsl::parser::{aborts, parse_mods, spec_parse_mods, Fail};
use crate::modifiers::{clone_mods, mods_view, FullModifier, HasModifiers};
use crate::result::WWError;
use crate::text::{append_string, i64_to_string, int_decimal};

verus! {

/// An option as stored, with its modifier text.
#[derive(Debug)]
pub struct RawChoice {
    pub id: i64,
    pub label: Option<String>,
    pub description: String,
    pub mod_str: Option<String>,
}

/// An option with its parsed modifiers.
#[derive(Debug)]
pub struct FullChoice {
    pub id: i64,
    pub label: Option<String>,
    pub description: String,
    pub modifiers: Vec<FullModifier>,
}

impl HasModifiers for FullChoice {
    /// A copy of the option's modifiers.
    fn modifiers(&self) -> (r: Vec<FullModifier>)
        ensures
            mods_view(r@) == mods_view(self.modifiers@),
    {
        clone_mods(&self.modifiers)
    }
}

/// A table of options.
#[derive(Debug)]
pub struct ChoiceTable {
    pub id: i64,
    pub name: String,
    pub choices: Vec<FullChoice>,
}

/// The path string of an option's modifiers: `Choice;` and its label, or its id where it has
/// none.
pub open spec fn choice_path(raw: RawChoice) -> Seq<char> {
    "Choice;"@ + match raw.label {
        Option::Some(l) => l@,
        Option::None => int_decimal(raw.id as int),
    }
}

/// An option's modifiers: none without a text, else the parsed modifiers, all with the
/// option's path string, or the parser's message.
pub open spec fn choice_mods(raw: RawChoice) -> Result<Seq<(Seq<char>, SpecModifier)>, Seq<char>> {
    match raw.mod_str {
        Option::None => Result::Ok(seq![]),
        Option::Some(m) => match spec_parse_mods(m@) {
            Result::Ok(ms) => Result::Ok(ms.map_values(|x: SpecModifier| (choice_path(raw), x))),
            Result::Err(Fail::Msg(e)) => Result::Err(e),
            Result::Err(Fail::Abort) => Result::Err(seq![]),
        },
    }
}

/// Reads a stored option: its modifier text is parsed, and each modifier gets the option's path
/// string.
pub fn convert_choice(raw_choice: RawChoice) -> (r: Result<FullChoice, WWError>)
    requires
        raw_choice.mod_str matches Option::Some(m) ==> !aborts(spec_parse_mods(m@)),
    ensures
        match choice_mods(raw_choice) {
            Result::Ok(v) => r matches Result::Ok(c) && {
                &&& c.id == raw_choice.id
                &&& c.label == raw_choice.label
                &&& c.description == raw_choice.description
                &&& mods_view(c.modifiers@) == v
            },
            Result::Err(e) => r matches Result::Err(WWError::Generic(x)) && x@ == e,
        },
{
    let ghost raw0 = raw_choice;
    let mut choice_path_str = String::from_str("Choice;");
    match &raw_choice.label {
        Option::Some(l) => append_string(&mut choice_path_str, l),
        Option::None => append_string(&mut choice_path_str, &i64_to_string(raw_choice.id)),
    }
    assert(choice_path_str@ == choice_path(raw0));
    let modifiers = match &raw_choice.mod_str {
        Option::None => {
            let v: Vec<FullModifier> = Vec::new();
            assert(mods_view(v@) =~= seq![]);
            v
        },
        Option::Some(mod_str) => {
            let parsed = match parse_mods(mod_str.as_str()) {
                Result::Ok(v) => v,
                Result::Err(e) => {
                    return Result::Err(WWError::Generic(e));
                },
            };
            let ghost ms = parsed.deep_view();
            let mut parsed = parsed;
            let n = parsed.len();
            let mut out: Vec<FullModifier> = Vec::new();
            let mut k: usize = 0;
            while k < n
                invariant
                    n == ms.len(),
                    k <= n,
                    parsed.deep_view() == ms.skip(k as int),
                    choice_path_str@ == choice_path(raw0),
                    mods_view(out@) == ms.take(k as int).map_values(
                        |x: SpecModifier| (choice_path(raw0), x),
                    ),
                decreases n - k,
            {
                let ghost before = parsed.deep_view();
                let ghost before_v = parsed@;
                assert(before.len() == parsed.len());
                assert(before[0] == before_v[0].deep_view());
                let mod_details = parsed.remove(0);
                proof {
                    assert(parsed@ =~= before_v.subrange(1, before_v.len() as int));
                    assert forall|j: int| 0 <= j < parsed.deep_view().len() implies parsed.deep_view()[j]
                        == ms.skip(k + 1)[j] by {
                        assert(parsed@[j] == before_v[j + 1]);
                        assert(before[j + 1] == before_v[j + 1].deep_view());
                    }
                    assert(parsed.deep_view() =~= ms.skip(k + 1));
                }
                let ghost out_before = out@;
                let m = FullModifier { path_str: choice_path_str.clone(), mod_details };
                out.push(m);
                proof {
                    assert(ms.take(k + 1) =~= ms.take(k as int).push(ms[k as int]));
                    assert(mods_view(out@) =~= mods_view(out_before).push((choice_path(raw0), ms[k as int])));
                    assert(ms.take(k + 1).map_values(|x: SpecModifier| (choice_path(raw0), x))
                        =~= ms.take(k as int).map_values(|x: SpecModifier| (choice_path(raw0), x)).push(
                        (choice_path(raw0), ms[k as int]),
                    ));
                }
                k += 1;
            }
            proof {
                assert(ms.take(n as int) =~= ms);
            }
            out
        },
    };
    Result::Ok(
        FullChoice {
            id: raw_choice.id,
            label: raw_choice.label,
            description: raw_choice.description,
            modifiers,
        },
    )
}

} // verus!
