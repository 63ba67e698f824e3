//! The table of a vote's page: a flat run of cells in which a known label is
//! followed by its value or values.

use vstd::prelude::*;
use crate::text::{same_text, texts_of};

verus! {

/// The label of the number of people entitled to vote.
pub const LABEL_TOTAL_VOTERS: &'static str = "Totale elettori";

/// The label of the number of voters living abroad.
pub const LABEL_OVERSEAS_VOTERS: &'static str = "di cui Svizzeri all'estero";

/// The label of the number of ballots that came back.
pub const LABEL_BALLOTS_RETURNED: &'static str = "Bollettini rientrati";

/// The label of the participation.
pub const LABEL_PARTICIPATION: &'static str = "Partecipazione";

/// The label of the number of blank ballots.
pub const LABEL_BLANK_VOTING_BALLOTS: &'static str = "bianche";

/// The label of the number of invalid ballots.
pub const LABEL_INVALID_VOTING_BALLOTS: &'static str = "nulle";

/// The label of the number of valid ballots.
pub const LABEL_VALID_VOTING_BALLOTS: &'static str = "Schede di voto valide";

/// The label of the votes in favour: their number, then their share.
pub const LABEL_YES: &'static str = "Sì";

/// The label of the votes against: their number, then their share.
pub const LABEL_NO: &'static str = "No";

/// The label of the number of cantons in favour.
pub const LABEL_CANTONS_VOTING_YES: &'static str = "Voto dei Cantoni sì";

/// The label of the number of cantons against.
pub const LABEL_CANTONS_VOTING_NO: &'static str = "Voto dei Cantoni no";

/// A value that the table of a vote's page may state.
#[derive(Clone, Copy, Debug, PartialEq, Eq, Structural)]
pub enum Field {
    TotalVoters,
    OverseasVoters,
    BallotsReturned,
    Participation,
    BlankVotingBallots,
    InvalidVotingBallots,
    ValidVotingBallots,
    TotalYes,
    RatioYes,
    TotalNo,
    RatioNo,
    CantonsVotingYes,
    CantonsVotingNo,
}

/// The field whose value follows a cell that reads `label`.
pub open spec fn field_of_label(label: Seq<char>) -> Option<Field> {
    if label == LABEL_TOTAL_VOTERS@ {
        Some(Field::TotalVoters)
    } else if label == LABEL_OVERSEAS_VOTERS@ {
        Some(Field::OverseasVoters)
    } else if label == LABEL_BALLOTS_RETURNED@ {
        Some(Field::BallotsReturned)
    } else if label == LABEL_PARTICIPATION@ {
        Some(Field::Participation)
    } else if label == LABEL_BLANK_VOTING_BALLOTS@ {
        Some(Field::BlankVotingBallots)
    } else if label == LABEL_INVALID_VOTING_BALLOTS@ {
        Some(Field::InvalidVotingBallots)
    } else if label == LABEL_VALID_VOTING_BALLOTS@ {
        Some(Field::ValidVotingBallots)
    } else if label == LABEL_YES@ {
        Some(Field::TotalYes)
    } else if label == LABEL_NO@ {
        Some(Field::TotalNo)
    } else if label == LABEL_CANTONS_VOTING_YES@ {
        Some(Field::CantonsVotingYes)
    } else if label == LABEL_CANTONS_VOTING_NO@ {
        Some(Field::CantonsVotingNo)
    } else {
        None
    }
}

/// The field whose value stands in the second cell after a label, for the
/// two labels that are followed by two values.
pub open spec fn companion_of(field: Field) -> Option<Field> {
    match field {
        Field::TotalYes => Some(Field::RatioYes),
        Field::TotalNo => Some(Field::RatioNo),
        _ => None,
    }
}

/// What the cells from position `at` on add to the values in `found`. A cell
/// that reads the label of a field not yet found gives that field the text of
/// the next cell, and its companion that of the cell after, as far as the
/// cells reach; the scan goes on behind them. Any other cell is passed over.
pub open spec fn scan_from(cells: Seq<Seq<char>>, at: int, found: Map<Field, Seq<char>>) -> Map<
    Field,
    Seq<char>,
>
    decreases cells.len() - at,
{
    if at < 0 || at >= cells.len() {
        found
    } else {
        match field_of_label(cells[at]) {
            Some(field) => if found.dom().contains(field) {
                scan_from(cells, at + 1, found)
            } else if at + 1 >= cells.len() {
                found
            } else {
                let first = found.insert(field, cells[at + 1]);
                match companion_of(field) {
                    Some(second) => if at + 2 >= cells.len() {
                        first
                    } else {
                        scan_from(cells, at + 3, first.insert(second, cells[at + 2]))
                    },
                    None => scan_from(cells, at + 2, first),
                }
            },
            None => scan_from(cells, at + 1, found),
        }
    }
}

/// The values that a run of cells states.
pub open spec fn scan_of(cells: Seq<Seq<char>>) -> Map<Field, Seq<char>> {
    scan_from(cells, 0, Map::empty())
}

/// The values read off the table of a vote's page, each as the text of its
/// cell.
pub struct TableData {
    pub total_voters: Option<String>,
    pub overseas_voters: Option<String>,
    pub ballots_returned: Option<String>,
    pub participation: Option<String>,
    pub blank_voting_ballots: Option<String>,
    pub invalid_voting_ballots: Option<String>,
    pub valid_voting_ballots: Option<String>,
    pub total_yes: Option<String>,
    pub ratio_yes: Option<String>,
    pub total_no: Option<String>,
    pub ratio_no: Option<String>,
    pub cantons_voting_yes: Option<String>,
    pub cantons_voting_no: Option<String>,
}

/// The text in `cell`, if there is one.
pub open spec fn text_in(cell: Option<String>) -> Option<Seq<char>> {
    match cell {
        Some(text) => Some(text@),
        None => None,
    }
}

impl TableData {
    /// The text found for `field`, if any.
    pub open spec fn value(&self, field: Field) -> Option<Seq<char>> {
        match field {
            Field::TotalVoters => text_in(self.total_voters),
            Field::OverseasVoters => text_in(self.overseas_voters),
            Field::BallotsReturned => text_in(self.ballots_returned),
            Field::Participation => text_in(self.participation),
            Field::BlankVotingBallots => text_in(self.blank_voting_ballots),
            Field::InvalidVotingBallots => text_in(self.invalid_voting_ballots),
            Field::ValidVotingBallots => text_in(self.valid_voting_ballots),
            Field::TotalYes => text_in(self.total_yes),
            Field::RatioYes => text_in(self.ratio_yes),
            Field::TotalNo => text_in(self.total_no),
            Field::RatioNo => text_in(self.ratio_no),
            Field::CantonsVotingYes => text_in(self.cantons_voting_yes),
            Field::CantonsVotingNo => text_in(self.cantons_voting_no),
        }
    }

    /// A table in which nothing was found.
    pub fn new() -> (table: TableData)
        ensures
            table@ == Map::<Field, Seq<char>>::empty(),
    {
        let table = TableData {
            total_voters: None,
            overseas_voters: None,
            ballots_returned: None,
            participation: None,
            blank_voting_ballots: None,
            invalid_voting_ballots: None,
            valid_voting_ballots: None,
            total_yes: None,
            ratio_yes: None,
            total_no: None,
            ratio_no: None,
            cantons_voting_yes: None,
            cantons_voting_no: None,
        };
        assert(table@ =~= Map::<Field, Seq<char>>::empty());
        table
    }

    /// The text found for `field`, if any.
    pub fn get(&self, field: Field) -> (found: Option<&String>)
        ensures
            match found {
                Some(text) => self.value(field) == Some(text@),
                None => self.value(field) is None,
            },
    {
        match field {
            Field::TotalVoters => self.total_voters.as_ref(),
            Field::OverseasVoters => self.overseas_voters.as_ref(),
            Field::BallotsReturned => self.ballots_returned.as_ref(),
            Field::Participation => self.participation.as_ref(),
            Field::BlankVotingBallots => self.blank_voting_ballots.as_ref(),
            Field::InvalidVotingBallots => self.invalid_voting_ballots.as_ref(),
            Field::ValidVotingBallots => self.valid_voting_ballots.as_ref(),
            Field::TotalYes => self.total_yes.as_ref(),
            Field::RatioYes => self.ratio_yes.as_ref(),
            Field::TotalNo => self.total_no.as_ref(),
            Field::RatioNo => self.ratio_no.as_ref(),
            Field::CantonsVotingYes => self.cantons_voting_yes.as_ref(),
            Field::CantonsVotingNo => self.cantons_voting_no.as_ref(),
        }
    }

    /// Records `text` as the value of `field`, in place of any earlier one.
    pub fn insert(&mut self, field: Field, text: String)
        ensures
            final(self)@ == old(self)@.insert(field, text@),
    {
        match field {
            Field::TotalVoters => { self.total_voters = Some(text); },
            Field::OverseasVoters => { self.overseas_voters = Some(text); },
            Field::BallotsReturned => { self.ballots_returned = Some(text); },
            Field::Participation => { self.participation = Some(text); },
            Field::BlankVotingBallots => { self.blank_voting_ballots = Some(text); },
            Field::InvalidVotingBallots => { self.invalid_voting_ballots = Some(text); },
            Field::ValidVotingBallots => { self.valid_voting_ballots = Some(text); },
            Field::TotalYes => { self.total_yes = Some(text); },
            Field::RatioYes => { self.ratio_yes = Some(text); },
            Field::TotalNo => { self.total_no = Some(text); },
            Field::RatioNo => { self.ratio_no = Some(text); },
            Field::CantonsVotingYes => { self.cantons_voting_yes = Some(text); },
            Field::CantonsVotingNo => { self.cantons_voting_no = Some(text); },
        }
        assert(self@ =~= old(self)@.insert(field, text@));
    }
}

impl View for TableData {
    type V = Map<Field, Seq<char>>;

    open spec fn view(&self) -> Map<Field, Seq<char>> {
        Map::new(|field: Field| self.value(field) is Some, |field: Field| self.value(field)->0)
    }
}

/// The field whose value follows a cell that reads `label`.
pub fn label_field(label: &str) -> (field: Option<Field>)
    ensures
        field == field_of_label(label@),
{
    if same_text(label, LABEL_TOTAL_VOTERS) {
        Some(Field::TotalVoters)
    } else if same_text(label, LABEL_OVERSEAS_VOTERS) {
        Some(Field::OverseasVoters)
    } else if same_text(label, LABEL_BALLOTS_RETURNED) {
        Some(Field::BallotsReturned)
    } else if same_text(label, LABEL_PARTICIPATION) {
        Some(Field::Participation)
    } else if same_text(label, LABEL_BLANK_VOTING_BALLOTS) {
        Some(Field::BlankVotingBallots)
    } else if same_text(label, LABEL_INVALID_VOTING_BALLOTS) {
        Some(Field::InvalidVotingBallots)
    } else if same_text(label, LABEL_VALID_VOTING_BALLOTS) {
        Some(Field::ValidVotingBallots)
    } else if same_text(label, LABEL_YES) {
        Some(Field::TotalYes)
    } else if same_text(label, LABEL_NO) {
        Some(Field::TotalNo)
    } else if same_text(label, LABEL_CANTONS_VOTING_YES) {
        Some(Field::CantonsVotingYes)
    } else if same_text(label, LABEL_CANTONS_VOTING_NO) {
        Some(Field::CantonsVotingNo)
    } else {
        None
    }
}

/// The field whose value stands in the second cell after a label.
pub fn companion(field: Field) -> (second: Option<Field>)
    ensures
        second == companion_of(field),
{
    match field {
        Field::TotalYes => Some(Field::RatioYes),
        Field::TotalNo => Some(Field::RatioNo),
        _ => None,
    }
}

/// Reads the values that a run of cells states, in one pass from the first
/// cell to the last.
pub fn scan_cells(cells: &Vec<String>) -> (table: TableData)
    ensures
        table@ == scan_of(texts_of(cells@)),
{
    let ghost texts = texts_of(cells@);
    let mut table = TableData::new();
    let mut at: usize = 0;
    while at < cells.len()
        invariant
            at <= cells.len(),
            texts == texts_of(cells@),
            scan_of(texts) == scan_from(texts, at as int, table@),
        decreases cells.len() - at,
    {
        assert(texts[at as int] == cells@[at as int]@);
        match label_field(cells[at].as_str()) {
            Some(field) => {
                if table.get(field).is_some() {
                    at += 1;
                } else if at + 1 >= cells.len() {
                    at = cells.len();
                } else {
                    assert(texts[at + 1] == cells@[at + 1]@);
                    table.insert(field, cells[at + 1].clone());
                    match companion(field) {
                        Some(second) => {
                            if at + 2 >= cells.len() {
                                at = cells.len();
                            } else {
                                assert(texts[at + 2] == cells@[at + 2]@);
                                table.insert(second, cells[at + 2].clone());
                                at += 3;
                            }
                        },
                        None => {
                            at += 2;
                        },
                    }
                }
            },
            None => {
                at += 1;
            },
        }
    }
    table
}

} // verus!
