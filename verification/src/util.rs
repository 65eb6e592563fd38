//! Reading the values that the database stores as text.
use vstd::prelude::*;

verus! {

/// The uppercase form of a text, as `str::to_uppercase` computes it from Unicode's case
/// mappings (a letter may map to several letters).
pub uninterp spec fn unicode_upper(s: Seq<char>) -> Seq<char>;

/// `str::to_uppercase`. The contract names the result and does not restate Unicode's case
/// tables.
#[verifier::external_body]
fn to_uppercase(s: &String) -> (r: String)
    ensures
        r@ == unicode_upper(s@),
{
    s.to_uppercase()
}

/// The lowercase form of a text, as `str::to_lowercase` computes it from Unicode's case
/// mappings.
pub uninterp spec fn unicode_lower(s: Seq<char>) -> Seq<char>;

/// `str::to_lowercase`. The contract names the result and does not restate Unicode's case
/// tables.
#[verifier::external_body]
pub(crate) fn to_lowercase(s: &String) -> (r: String)
    ensures
        r@ == unicode_lower(s@),
{
    s.to_lowercase()
}

/// Whether an uppercased text is the word `TRUE`.
pub fn is_true_word(upper: &String) -> (r: bool)
    ensures
        r == (upper@ == "TRUE"@),
{
    let word = String::from_str("TRUE");
    *upper == word
}

/// A flag stored as text: true where the text, uppercased, is `TRUE`; false where there is no
/// text.
pub fn db_boolean(s: Option<String>) -> (r: bool)
    ensures
        r == (s matches Option::Some(v) && unicode_upper(v@) == "TRUE"@),
{
    match s {
        Option::None => false,
        Option::Some(value) => {
            let upper = to_uppercase(&value);
            is_true_word(&upper)
        },
    }
}

} // verus!
