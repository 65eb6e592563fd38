//! Languages, and how a stored language row becomes one.
use vstd::prelude::*;
use crate::util::{db_boolean, unicode_upper};

verus! {

/// A language as stored: whether it is secret is kept as text.
#[derive(Debug)]
pub struct RawLanguage {
    pub id: i64,
    pub name: String,
    pub description: String,
    pub secret: Option<String>,
}

#[derive(Debug)]
pub struct Language {
    pub id: i64,
    pub name: String,
    pub description: String,
    pub secret: bool,
}

/// A stored language row read as a language: secret where its flag reads `TRUE`.
pub open spec fn language_of(raw: RawLanguage, l: Language) -> bool {
    &&& l.id == raw.id
    &&& l.name@ == raw.name@
    &&& l.description@ == raw.description@
    &&& l.secret == (raw.secret matches Option::Some(v) && unicode_upper(v@) == "TRUE"@)
}

/// Reads stored language rows as languages, in order.
pub fn convert_languages(raw: Vec<RawLanguage>) -> (r: Vec<Language>)
    ensures
        r.len() == raw.len(),
        forall|i: int| 0 <= i < raw.len() ==> language_of(#[trigger] raw@[i], r@[i]),
{
    let ghost raw0 = raw@;
    let mut raw = raw;
    let n = raw.len();
    let mut out: Vec<Language> = Vec::new();
    let mut k: usize = 0;
    while k < n
        invariant
            n == raw0.len(),
            k <= n,
            raw@ == raw0.skip(k as int),
            out.len() == k,
            forall|i: int| 0 <= i < k ==> language_of(#[trigger] raw0[i], out@[i]),
        decreases n - k,
    {
        let l = raw.remove(0);
        proof {
            assert(raw0.skip(k as int)[0] == raw0[k as int]);
            assert(raw@ =~= raw0.skip(k + 1));
        }
        let secret = db_boolean(l.secret);
        out.push(Language { id: l.id, name: l.name, description: l.description, secret });
        k += 1;
    }
    out
}


impl Clone for Language {
    fn clone(&self) -> (r: Self)
        ensures
            r == *self,
    {
        Language {
            id: self.id,
            name: self.name.clone(),
            description: self.description.clone(),
            secret: self.secret,
        }
    }
}

} // verus!
