//! Talents of magic traditions.
use vstd::prelude::*;
use crate::text::text_is;
use crate::db::etc::TalentRestore;
use crate::db::info_tables::FullInfoTable;
use crate::db::option_blocks::FullOptionBlock;

verus! {

/// How many charges a magic talent has.
#[derive(Debug, Clone, Copy)]
pub enum MagicTalentCharges {
    NoCharges,
    One,
    OneTwoThree,
}

#[derive(Debug)]
pub struct FullMagicTalent {
    pub id: i64,
    pub tradition_id: i64,
    pub tradition_name: String,
    pub name: String,
    pub description: String,
    pub charges: MagicTalentCharges,
    pub restore: TalentRestore,
    pub activate: String,
    pub info_table: Option<FullInfoTable>,
    pub option_block: Option<FullOptionBlock>,
}


/// The charges that a stored text names: `1` is one charge, `123` is one, two or three; any
/// other text, or none, is no charges.
pub open spec fn charges_of_text(charges: Option<Seq<char>>) -> MagicTalentCharges {
    match charges {
        Option::Some(c) => if c == "1"@ {
            MagicTalentCharges::One
        } else if c == "123"@ {
            MagicTalentCharges::OneTwoThree
        } else {
            MagicTalentCharges::NoCharges
        },
        Option::None => MagicTalentCharges::NoCharges,
    }
}

impl MagicTalentCharges {
    /// Reads the stored charges text of a magic talent.
    pub fn of_text(charges: &Option<String>) -> (r: Self)
        ensures
            r == charges_of_text(match charges {
                Option::Some(c) => Option::Some(c@),
                Option::None => Option::None,
            }),
    {
        match charges {
            Option::Some(c) => if text_is(c, "1") {
                MagicTalentCharges::One
            } else if text_is(c, "123") {
                MagicTalentCharges::OneTwoThree
            } else {
                MagicTalentCharges::NoCharges
            },
            Option::None => MagicTalentCharges::NoCharges,
        }
    }
}

} // verus!
