//! The modifier language: the text that talents, spells and choices carry to describe what
//! they grant, take away, override, ask to choose or apply.
pub mod ast;
pub mod lexer;
pub mod parser;

use vstd::prelude::*;
use crate::mod_dsl::parser::{aborts, parse_mods, spec_parse_mods, Fail};

verus! {

/// The error that a modifier text holds, if any: `None` where there is no text or the text
/// parses.
pub open spec fn mod_str_error(mod_str: Option<Seq<char>>) -> Option<Seq<char>> {
    match mod_str {
        Option::None => Option::None,
        Option::Some(s) => match spec_parse_mods(s) {
            Result::Err(Fail::Msg(m)) => Option::Some(m),
            _ => Option::None,
        },
    }
}

/// Checks a modifier text: returns the parser's message where it is rejected.
pub fn validate_mod_str(mod_str: Option<&str>) -> (r: Option<String>)
    requires
        mod_str matches Option::Some(s) ==> !aborts(spec_parse_mods(s@)),
    ensures
        match mod_str {
            Option::None => r is None,
            Option::Some(s) => match mod_str_error(Option::Some(s@)) {
                Option::Some(m) => r matches Option::Some(e) && e@ == m,
                Option::None => r is None,
            },
        },
{
    let mod_str = match mod_str {
        Option::None => return Option::None,
        Option::Some(value) => value,
    };
    match parse_mods(mod_str) {
        Result::Err(err) => Option::Some(err),
        Result::Ok(_) => Option::None,
    }
}

} // verus!
