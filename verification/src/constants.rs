//! The addresses of the index pages and the names of the columns of the
//! table of records.

use vstd::prelude::*;

verus! {

/// The index of the votes in Italian.
pub const URL_SUMMARY_PAGE_IT: &'static str = "https://www.bk.admin.ch/ch/i/pore/va/vab_2_2_4_1_gesamt.html";

/// The index of the votes in German.
pub const URL_SUMMARY_PAGE_DE: &'static str = "https://www.bk.admin.ch/ch/d/pore/va/vab_2_2_4_1_gesamt.html";

/// The index of the votes in French.
pub const URL_SUMMARY_PAGE_FR: &'static str = "https://www.bk.admin.ch/ch/f/pore/va/vab_2_2_4_1_gesamt.html";

pub const NUMBER: &'static str = "number";

pub const DATE_OF_VOTING: &'static str = "date_of_voting";

pub const TITLE_IT: &'static str = "title_it";

pub const TITLE_FR: &'static str = "title_fr";

pub const TITLE_DE: &'static str = "title_de";

pub const CATEGORY: &'static str = "category";

pub const RECOMMENDATION: &'static str = "recommendation";

pub const TOTAL_VOTERS: &'static str = "total_voters";

pub const OVERSEAS_VOTERS: &'static str = "overseas_voters";

pub const DOMESTIC_VOTERS: &'static str = "domestic_voters";

pub const BALLOTS_RETURNED: &'static str = "ballots_returned";

pub const PARTICIPATION: &'static str = "participation";

pub const INVALID_VOTING_BALLOTS: &'static str = "invalid_voting_ballots";

pub const BLANK_VOTING_BALLOTS: &'static str = "blank_voting_ballots";

pub const VALID_VOTING_BALLOTS: &'static str = "valid_voting_ballots";

pub const TOTAL_YES: &'static str = "total_yes";

pub const TOTAL_NO: &'static str = "total_no";

pub const RATIO_YES: &'static str = "ratio_yes";

pub const RATIO_NO: &'static str = "ratio_no";

pub const CANTONS_VOTING_YES: &'static str = "cantons_voting_yes";

pub const CANTONS_VOTING_NO: &'static str = "cantons_voting_no";

pub const OUTCOME: &'static str = "outcome";

} // verus!
