//! The records of the votes and the table that collects them, column by
//! column.

use vstd::prelude::*;
use crate::converters::{CantonCount, CantonCountText};
use crate::table::text_in;

verus! {

/// The parts in `cell`, if there is a count.
pub open spec fn count_in(cell: Option<CantonCount>) -> Option<CantonCountText> {
    match cell {
        Some(count) => Some(count@),
        None => None,
    }
}

/// The record of one vote. A value that its page does not state, or states
/// in a form that does not read, is `None`. The ratios and the counts of
/// cantons are kept as the texts of their numbers.
#[derive(Debug)]
pub struct Row {
    /// The number of the vote.
    pub no: Option<u32>,
    /// The day of the vote, year first.
    pub date_of_voting: String,
    /// The title in Italian.
    pub title_it: String,
    /// The title in French.
    pub title_fr: String,
    /// The title in German.
    pub title_de: String,
    /// The kind of the vote; empty where the title tells none.
    pub kind: String,
    /// What the authorities advised.
    pub recommendation: Option<String>,
    /// The people entitled to vote.
    pub total_voters: Option<u32>,
    /// The voters derived from the two counts of voters.
    pub domestic_voters: Option<u32>,
    /// The voters living abroad.
    pub overseas_voters: Option<u32>,
    /// The ballots that came back.
    pub ballots_returned: Option<u32>,
    /// The participation in hundredths, as the text of its number.
    pub participation: Option<String>,
    /// The invalid ballots.
    pub invalid_voting_ballots: Option<u32>,
    /// The blank ballots.
    pub blank_voting_ballots: Option<u32>,
    /// The valid ballots.
    pub valid_voting_ballots: Option<u32>,
    /// The votes in favour.
    pub total_yes: Option<u32>,
    /// The share in favour in hundredths, as the text of its number.
    pub ratio_yes: Option<String>,
    /// The votes against.
    pub total_no: Option<u32>,
    /// The share against in hundredths, as the text of its number.
    pub ratio_no: Option<String>,
    /// The cantons in favour, as the parts of their count.
    pub cantons_voting_yes: Option<CantonCount>,
    /// The cantons against, as the parts of their count.
    pub cantons_voting_no: Option<CantonCount>,
    /// Whether the vote passed.
    pub outcome: Option<String>,
}

/// What a `Row` holds, with its texts as sequences of characters.
pub ghost struct RowContent {
    pub no: Option<u32>,
    pub date_of_voting: Seq<char>,
    pub title_it: Seq<char>,
    pub title_fr: Seq<char>,
    pub title_de: Seq<char>,
    pub kind: Seq<char>,
    pub recommendation: Option<Seq<char>>,
    pub total_voters: Option<u32>,
    pub domestic_voters: Option<u32>,
    pub overseas_voters: Option<u32>,
    pub ballots_returned: Option<u32>,
    pub participation: Option<Seq<char>>,
    pub invalid_voting_ballots: Option<u32>,
    pub blank_voting_ballots: Option<u32>,
    pub valid_voting_ballots: Option<u32>,
    pub total_yes: Option<u32>,
    pub ratio_yes: Option<Seq<char>>,
    pub total_no: Option<u32>,
    pub ratio_no: Option<Seq<char>>,
    pub cantons_voting_yes: Option<CantonCountText>,
    pub cantons_voting_no: Option<CantonCountText>,
    pub outcome: Option<Seq<char>>,
}

impl View for Row {
    type V = RowContent;

    open spec fn view(&self) -> RowContent {
        RowContent {
            no: self.no,
            date_of_voting: self.date_of_voting@,
            title_it: self.title_it@,
            title_fr: self.title_fr@,
            title_de: self.title_de@,
            kind: self.kind@,
            recommendation: text_in(self.recommendation),
            total_voters: self.total_voters,
            domestic_voters: self.domestic_voters,
            overseas_voters: self.overseas_voters,
            ballots_returned: self.ballots_returned,
            participation: text_in(self.participation),
            invalid_voting_ballots: self.invalid_voting_ballots,
            blank_voting_ballots: self.blank_voting_ballots,
            valid_voting_ballots: self.valid_voting_ballots,
            total_yes: self.total_yes,
            ratio_yes: text_in(self.ratio_yes),
            total_no: self.total_no,
            ratio_no: text_in(self.ratio_no),
            cantons_voting_yes: count_in(self.cantons_voting_yes),
            cantons_voting_no: count_in(self.cantons_voting_no),
            outcome: text_in(self.outcome),
        }
    }
}

impl Default for Row {
    /// The record in which nothing is known yet.
    fn default() -> (row: Row)
        ensures
            row@ == Row::blank(),
    {
        Row {
            no: None,
            date_of_voting: String::new(),
            title_it: String::new(),
            title_fr: String::new(),
            title_de: String::new(),
            kind: String::new(),
            recommendation: None,
            total_voters: None,
            domestic_voters: None,
            overseas_voters: None,
            ballots_returned: None,
            participation: None,
            invalid_voting_ballots: None,
            blank_voting_ballots: None,
            valid_voting_ballots: None,
            total_yes: None,
            ratio_yes: None,
            total_no: None,
            ratio_no: None,
            cantons_voting_yes: None,
            cantons_voting_no: None,
            outcome: None,
        }
    }
}

impl Row {
    /// What the record holds in which nothing is known yet.
    pub open spec fn blank() -> RowContent {
        RowContent {
            no: None,
            date_of_voting: Seq::empty(),
            title_it: Seq::empty(),
            title_fr: Seq::empty(),
            title_de: Seq::empty(),
            kind: Seq::empty(),
            recommendation: None,
            total_voters: None,
            domestic_voters: None,
            overseas_voters: None,
            ballots_returned: None,
            participation: None,
            invalid_voting_ballots: None,
            blank_voting_ballots: None,
            valid_voting_ballots: None,
            total_yes: None,
            ratio_yes: None,
            total_no: None,
            ratio_no: None,
            cantons_voting_yes: None,
            cantons_voting_no: None,
            outcome: None,
        }
    }
}

/// The table of the records: one column for each value of a record, all of
/// one length, the records in the order in which they were added.
#[derive(Debug)]
pub struct Data {
    pub no: Vec<Option<u32>>,
    pub date_of_voting: Vec<String>,
    pub title_it: Vec<String>,
    pub title_fr: Vec<String>,
    pub title_de: Vec<String>,
    pub kind: Vec<String>,
    pub recommendation: Vec<Option<String>>,
    pub total_voters: Vec<Option<u32>>,
    pub domestic_voters: Vec<Option<u32>>,
    pub overseas_voters: Vec<Option<u32>>,
    pub ballots_returned: Vec<Option<u32>>,
    pub participation: Vec<Option<String>>,
    pub invalid_voting_ballots: Vec<Option<u32>>,
    pub blank_voting_ballots: Vec<Option<u32>>,
    pub valid_voting_ballots: Vec<Option<u32>>,
    pub total_yes: Vec<Option<u32>>,
    pub ratio_yes: Vec<Option<String>>,
    pub total_no: Vec<Option<u32>>,
    pub ratio_no: Vec<Option<String>>,
    pub cantons_voting_yes: Vec<Option<CantonCount>>,
    pub cantons_voting_no: Vec<Option<CantonCount>>,
    pub outcome: Vec<Option<String>>,
}

impl Data {
    /// Whether the columns have one length.
    pub open spec fn wf(&self) -> bool {
        &&& self.date_of_voting@.len() == self.no@.len()
        &&& self.title_it@.len() == self.no@.len()
        &&& self.title_fr@.len() == self.no@.len()
        &&& self.title_de@.len() == self.no@.len()
        &&& self.kind@.len() == self.no@.len()
        &&& self.recommendation@.len() == self.no@.len()
        &&& self.total_voters@.len() == self.no@.len()
        &&& self.domestic_voters@.len() == self.no@.len()
        &&& self.overseas_voters@.len() == self.no@.len()
        &&& self.ballots_returned@.len() == self.no@.len()
        &&& self.participation@.len() == self.no@.len()
        &&& self.invalid_voting_ballots@.len() == self.no@.len()
        &&& self.blank_voting_ballots@.len() == self.no@.len()
        &&& self.valid_voting_ballots@.len() == self.no@.len()
        &&& self.total_yes@.len() == self.no@.len()
        &&& self.ratio_yes@.len() == self.no@.len()
        &&& self.total_no@.len() == self.no@.len()
        &&& self.ratio_no@.len() == self.no@.len()
        &&& self.cantons_voting_yes@.len() == self.no@.len()
        &&& self.cantons_voting_no@.len() == self.no@.len()
        &&& self.outcome@.len() == self.no@.len()
    }

    /// The record in line `at` of the table.
    pub open spec fn row(&self, at: int) -> RowContent {
        RowContent {
            no: self.no@[at],
            date_of_voting: self.date_of_voting@[at]@,
            title_it: self.title_it@[at]@,
            title_fr: self.title_fr@[at]@,
            title_de: self.title_de@[at]@,
            kind: self.kind@[at]@,
            recommendation: text_in(self.recommendation@[at]),
            total_voters: self.total_voters@[at],
            domestic_voters: self.domestic_voters@[at],
            overseas_voters: self.overseas_voters@[at],
            ballots_returned: self.ballots_returned@[at],
            participation: text_in(self.participation@[at]),
            invalid_voting_ballots: self.invalid_voting_ballots@[at],
            blank_voting_ballots: self.blank_voting_ballots@[at],
            valid_voting_ballots: self.valid_voting_ballots@[at],
            total_yes: self.total_yes@[at],
            ratio_yes: text_in(self.ratio_yes@[at]),
            total_no: self.total_no@[at],
            ratio_no: text_in(self.ratio_no@[at]),
            cantons_voting_yes: count_in(self.cantons_voting_yes@[at]),
            cantons_voting_no: count_in(self.cantons_voting_no@[at]),
            outcome: text_in(self.outcome@[at]),
        }
    }

    /// Whether `after` is this table with `row` added as its last line.
    pub open spec fn extended_by(&self, row: Row, after: Data) -> bool {
        &&& after.no@ == self.no@.push(row.no)
        &&& after.date_of_voting@ == self.date_of_voting@.push(row.date_of_voting)
        &&& after.title_it@ == self.title_it@.push(row.title_it)
        &&& after.title_fr@ == self.title_fr@.push(row.title_fr)
        &&& after.title_de@ == self.title_de@.push(row.title_de)
        &&& after.kind@ == self.kind@.push(row.kind)
        &&& after.recommendation@ == self.recommendation@.push(row.recommendation)
        &&& after.total_voters@ == self.total_voters@.push(row.total_voters)
        &&& after.domestic_voters@ == self.domestic_voters@.push(row.domestic_voters)
        &&& after.overseas_voters@ == self.overseas_voters@.push(row.overseas_voters)
        &&& after.ballots_returned@ == self.ballots_returned@.push(row.ballots_returned)
        &&& after.participation@ == self.participation@.push(row.participation)
        &&& after.invalid_voting_ballots@ == self.invalid_voting_ballots@.push(row.invalid_voting_ballots)
        &&& after.blank_voting_ballots@ == self.blank_voting_ballots@.push(row.blank_voting_ballots)
        &&& after.valid_voting_ballots@ == self.valid_voting_ballots@.push(row.valid_voting_ballots)
        &&& after.total_yes@ == self.total_yes@.push(row.total_yes)
        &&& after.ratio_yes@ == self.ratio_yes@.push(row.ratio_yes)
        &&& after.total_no@ == self.total_no@.push(row.total_no)
        &&& after.ratio_no@ == self.ratio_no@.push(row.ratio_no)
        &&& after.cantons_voting_yes@ == self.cantons_voting_yes@.push(row.cantons_voting_yes)
        &&& after.cantons_voting_no@ == self.cantons_voting_no@.push(row.cantons_voting_no)
        &&& after.outcome@ == self.outcome@.push(row.outcome)
    }

    /// Adds `row` below the records that the table holds.
    pub fn update(&mut self, row: Row)
        ensures
            old(self).extended_by(row, *final(self)),
            old(self).wf() ==> final(self).wf() && final(self)@ == old(self)@.push(row@),
    {
        self.no.push(row.no);
        self.date_of_voting.push(row.date_of_voting);
        self.title_it.push(row.title_it);
        self.title_fr.push(row.title_fr);
        self.title_de.push(row.title_de);
        self.kind.push(row.kind);
        self.recommendation.push(row.recommendation);
        self.total_voters.push(row.total_voters);
        self.domestic_voters.push(row.domestic_voters);
        self.overseas_voters.push(row.overseas_voters);
        self.ballots_returned.push(row.ballots_returned);
        self.participation.push(row.participation);
        self.invalid_voting_ballots.push(row.invalid_voting_ballots);
        self.blank_voting_ballots.push(row.blank_voting_ballots);
        self.valid_voting_ballots.push(row.valid_voting_ballots);
        self.total_yes.push(row.total_yes);
        self.ratio_yes.push(row.ratio_yes);
        self.total_no.push(row.total_no);
        self.ratio_no.push(row.ratio_no);
        self.cantons_voting_yes.push(row.cantons_voting_yes);
        self.cantons_voting_no.push(row.cantons_voting_no);
        self.outcome.push(row.outcome);
        proof {
            if old(self).wf() {
                assert(self@ =~= old(self)@.push(row@));
            }
        }
    }
}

impl View for Data {
    type V = Seq<RowContent>;

    open spec fn view(&self) -> Seq<RowContent> {
        Seq::new(self.no@.len(), |at: int| self.row(at))
    }
}

impl Default for Data {
    /// The table without records.
    fn default() -> (data: Data)
        ensures
            data.wf(),
            data@ == Seq::<RowContent>::empty(),
    {
        let data = Data {
            no: Vec::new(),
            date_of_voting: Vec::new(),
            title_it: Vec::new(),
            title_fr: Vec::new(),
            title_de: Vec::new(),
            kind: Vec::new(),
            recommendation: Vec::new(),
            total_voters: Vec::new(),
            domestic_voters: Vec::new(),
            overseas_voters: Vec::new(),
            ballots_returned: Vec::new(),
            participation: Vec::new(),
            invalid_voting_ballots: Vec::new(),
            blank_voting_ballots: Vec::new(),
            valid_voting_ballots: Vec::new(),
            total_yes: Vec::new(),
            ratio_yes: Vec::new(),
            total_no: Vec::new(),
            ratio_no: Vec::new(),
            cantons_voting_yes: Vec::new(),
            cantons_voting_no: Vec::new(),
            outcome: Vec::new(),
        };
        assert(data@ =~= Seq::<RowContent>::empty());
        data
    }
}

} // verus!
