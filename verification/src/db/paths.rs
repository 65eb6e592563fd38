//! Paths: the novice, expert and master careers a character follows, level by level.
use vstd::prelude::*;
use crate::db::etc::PathKind;
use crate::db::levels::FullLevel;
use crate::result::WWError;
use crate::text::{append_string, chars_of, parse_i64, push_char, spec_parse_i64, split_on, split_pieces};

verus! {

/// A path to be stored.
#[derive(Debug)]
pub struct CreatePath {
    pub name: String,
    pub path_kind: PathKind,
    pub category: String,
    pub description: String,
    pub rec_str: Option<i64>,
    pub rec_agl: Option<i64>,
    pub rec_int: Option<i64>,
    pub rec_will: Option<i64>,
    pub ancestry_id: Option<i64>,
}

/// A path as stored.
#[derive(Debug)]
pub struct RawPath {
    pub id: i64,
    pub name: String,
    pub path_kind: PathKind,
    pub category: String,
    pub description: String,
    pub rec_str: Option<i64>,
    pub rec_agl: Option<i64>,
    pub rec_int: Option<i64>,
    pub rec_will: Option<i64>,
    pub ancestry_id: Option<i64>,
}

/// The ancestry an ancestry path belongs to.
#[derive(Debug)]
pub struct PathAncestry {
    pub id: i64,
    pub name: String,
}

/// A novice path with its levels and recommended scores, as character creation needs it.
#[derive(Debug)]
pub struct NovicePath {
    pub id: i64,
    pub name: String,
    pub path_kind: PathKind,
    pub category: String,
    pub description: String,
    pub levels: Vec<FullLevel>,
    pub rec_str: i64,
    pub rec_agl: i64,
    pub rec_int: i64,
    pub rec_will: i64,
    pub ancestry: Option<PathAncestry>,
}

/// A path with its levels.
#[derive(Debug)]
pub struct FullPath {
    pub id: i64,
    pub name: String,
    pub path_kind: PathKind,
    pub category: String,
    pub description: String,
    pub levels: Vec<FullLevel>,
}

/// The four starting scores of a novice path, written `str|agl|int|will`: the four numbers,
/// an empty message where there are not exactly four pieces, or a message naming the text where
/// a piece is not a number.
pub open spec fn lvl_1_scores(s: Seq<char>) -> Result<(i64, i64, i64, i64), Seq<char>> {
    let parts = split_on(s, '|');
    if parts.len() != 4 {
        Result::Err(seq![])
    } else {
        match (
            spec_parse_i64(parts[0]),
            spec_parse_i64(parts[1]),
            spec_parse_i64(parts[2]),
            spec_parse_i64(parts[3]),
        ) {
            (Option::Some(a), Option::Some(b), Option::Some(c), Option::Some(d)) => Result::Ok(
                (a, b, c, d),
            ),
            _ => Result::Err("Failed to parse novice init scores '"@ + s + seq!['\'']),
        }
    }
}

/// Reads the four starting scores of a novice path.
pub fn split_lvl_1_scores(scores: &str) -> (r: Result<(i64, i64, i64, i64), WWError>)
    ensures
        match lvl_1_scores(scores@) {
            Result::Ok(t) => r == Result::<(i64, i64, i64, i64), WWError>::Ok(t),
            Result::Err(e) => r matches Result::Err(WWError::Generic(m)) && m@ == e,
        },
{
    let chars = chars_of(scores);
    let split = split_pieces(&chars, '|');
    if split.len() != 4 {
        let empty = String::new();
        return Result::Err(WWError::Generic(empty));
    }
    proof {
        assert(split.deep_view()[0] == split@[0]@);
        assert(split.deep_view()[1] == split@[1]@);
        assert(split.deep_view()[2] == split@[2]@);
        assert(split.deep_view()[3] == split@[3]@);
    }
    let a = parse_i64(split[0].as_str());
    let b = parse_i64(split[1].as_str());
    let c = parse_i64(split[2].as_str());
    let d = parse_i64(split[3].as_str());
    match (a, b, c, d) {
        (Option::Some(a), Option::Some(b), Option::Some(c), Option::Some(d)) => Result::Ok(
            (a, b, c, d),
        ),
        _ => {
            let mut msg = String::from_str("Failed to parse novice init scores '");
            append_string(&mut msg, &scores.to_string());
            push_char(&mut msg, '\'');
            Result::Err(WWError::Generic(msg))
        },
    }
}

} // verus!
