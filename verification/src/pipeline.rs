//! From the index to the table of records: which page to ask for next, and
//! what each page that arrives adds.

use vstd::prelude::*;
use crate::converters::{
    canton_count_of, count_of, integer_and_fraction, ratio_text, ratio_text_of, string_to_u32,
    CantonCount, CantonCountText,
};
use crate::data::{count_in, Data, Row, RowContent};
use crate::extractors::{
    domestic_voters_of, extract_data_from_table, extract_domestic_voters,
    extract_number_votation_from_url, extract_outcome, extract_recommendation,
    extract_typology_of_the_voting, outcome_of, page_recommendation_of, page_supplement_of,
    page_table_of, title_at, title_in_line, typology_of, vote_number_of, PageData, Summary,
    SummaryContent,
};
use crate::table::{text_in, Field, TableData};

verus! {

/// The text that `table` holds for `field`, if any.
pub open spec fn found(table: Map<Field, Seq<char>>, field: Field) -> Option<Seq<char>> {
    if table.dom().contains(field) {
        Some(table[field])
    } else {
        None
    }
}

/// The count that `table` states for `field`.
pub open spec fn count_found(table: Map<Field, Seq<char>>, field: Field) -> Option<u32> {
    match found(table, field) {
        Some(text) => count_of(text),
        None => None,
    }
}

/// The number of the ratio that `table` states for `field`, as text.
pub open spec fn ratio_found(table: Map<Field, Seq<char>>, field: Field) -> Option<Seq<char>> {
    match found(table, field) {
        Some(text) => Some(ratio_text_of(text)),
        None => None,
    }
}

/// The parts of the count of cantons that `table` states for `field`.
pub open spec fn cantons_found(table: Map<Field, Seq<char>>, field: Field) -> Option<
    CantonCountText,
> {
    match found(table, field) {
        Some(text) => canton_count_of(text),
        None => None,
    }
}

/// The record of the vote in line `at` of the index, given the table of its
/// page and the recommendation of its supplementary page. Its title in a
/// language is the one in line `at` of that language's list, and empty where
/// the list is shorter.
pub open spec fn row_of(
    summary: SummaryContent,
    at: int,
    table: Map<Field, Seq<char>>,
    recommendation: Option<Seq<char>>,
) -> RowContent {
    RowContent {
        no: vote_number_of(summary.url[at]),
        date_of_voting: summary.date_of_voting[at],
        title_it: title_at(summary.title_it, at),
        title_fr: title_at(summary.title_fr, at),
        title_de: title_at(summary.title_de, at),
        kind: typology_of(title_at(summary.title_it, at)),
        recommendation,
        total_voters: count_found(table, Field::TotalVoters),
        domestic_voters: domestic_voters_of(
            count_found(table, Field::TotalVoters),
            count_found(table, Field::OverseasVoters),
        ),
        overseas_voters: count_found(table, Field::OverseasVoters),
        ballots_returned: count_found(table, Field::BallotsReturned),
        participation: ratio_found(table, Field::Participation),
        invalid_voting_ballots: count_found(table, Field::InvalidVotingBallots),
        blank_voting_ballots: count_found(table, Field::BlankVotingBallots),
        valid_voting_ballots: count_found(table, Field::ValidVotingBallots),
        total_yes: count_found(table, Field::TotalYes),
        ratio_yes: ratio_found(table, Field::RatioYes),
        total_no: count_found(table, Field::TotalNo),
        ratio_no: ratio_found(table, Field::RatioNo),
        cantons_voting_yes: cantons_found(table, Field::CantonsVotingYes),
        cantons_voting_no: cantons_found(table, Field::CantonsVotingNo),
        outcome: outcome_of(summary.outcome[at]),
    }
}

/// The count that `table` states for `field`.
pub fn count_at(table: &TableData, field: Field) -> (count: Option<u32>)
    ensures
        count == count_found(table@, field),
{
    string_to_u32(table.get(field))
}

/// The number of the ratio that `table` states for `field`, as text.
pub fn ratio_at(table: &TableData, field: Field) -> (number: Option<String>)
    ensures
        text_in(number) == ratio_found(table@, field),
{
    ratio_text(table.get(field))
}

/// The parts of the count of cantons that `table` states for `field`.
pub fn cantons_at(table: &TableData, field: Field) -> (count: Option<CantonCount>)
    ensures
        count_in(count) == cantons_found(table@, field),
{
    integer_and_fraction(table.get(field))
}

/// Builds the record of the vote in line `at` of the index from the table of
/// its page and the recommendation of its supplementary page.
pub fn build_row(summary: &Summary, at: usize, table: &TableData, recommendation: Option<String>) -> (row:
    Row)
    requires
        summary@.wf(),
        at < summary.url@.len(),
    ensures
        row@ == row_of(summary@, at as int, table@, text_in(recommendation)),
{
    proof {
        assert(summary@.url[at as int] == summary.url@[at as int]@);
        assert(summary@.date_of_voting[at as int] == summary.date_of_voting@[at as int]@);
        assert(summary@.outcome[at as int] == summary.outcome@[at as int]@);
    }
    let total_voters = count_at(table, Field::TotalVoters);
    let overseas_voters = count_at(table, Field::OverseasVoters);
    Row {
        no: extract_number_votation_from_url(&summary.url[at]),
        date_of_voting: summary.date_of_voting[at].clone(),
        title_it: title_in_line(&summary.title_it, at),
        title_fr: title_in_line(&summary.title_fr, at),
        title_de: title_in_line(&summary.title_de, at),
        kind: extract_typology_of_the_voting(title_in_line(&summary.title_it, at)),
        recommendation,
        total_voters,
        domestic_voters: extract_domestic_voters(total_voters, overseas_voters),
        overseas_voters,
        ballots_returned: count_at(table, Field::BallotsReturned),
        participation: ratio_at(table, Field::Participation),
        invalid_voting_ballots: count_at(table, Field::InvalidVotingBallots),
        blank_voting_ballots: count_at(table, Field::BlankVotingBallots),
        valid_voting_ballots: count_at(table, Field::ValidVotingBallots),
        total_yes: count_at(table, Field::TotalYes),
        ratio_yes: ratio_at(table, Field::RatioYes),
        total_no: count_at(table, Field::TotalNo),
        ratio_no: ratio_at(table, Field::RatioNo),
        cantons_voting_yes: cantons_at(table, Field::CantonsVotingYes),
        cantons_voting_no: cantons_at(table, Field::CantonsVotingNo),
        outcome: extract_outcome(summary.outcome[at].clone()),
    }
}

/// Where the extraction stands: the index, the records made so far, and, while
/// the supplementary page of a vote is awaited, the table of that vote's page
/// with the address asked for.
pub ghost struct ExtractionState {
    pub summary: SummaryContent,
    pub rows: Seq<RowContent>,
    pub waiting: Option<(Map<Field, Seq<char>>, Seq<char>)>,
}

/// Whether `row` states of the vote in line `at` what the index states of it.
pub open spec fn follows_index(summary: SummaryContent, at: int, row: RowContent) -> bool {
    &&& row.no == vote_number_of(summary.url[at])
    &&& row.date_of_voting == summary.date_of_voting[at]
    &&& row.title_it == title_at(summary.title_it, at)
    &&& row.title_fr == title_at(summary.title_fr, at)
    &&& row.title_de == title_at(summary.title_de, at)
    &&& row.kind == typology_of(title_at(summary.title_it, at))
    &&& row.outcome == outcome_of(summary.outcome[at])
}

impl ExtractionState {
    /// Whether the state can be reached: no more records than votes, each
    /// record that of the vote in its line, and a page awaited only for a
    /// vote that has no record yet.
    pub open spec fn valid(self) -> bool {
        &&& self.summary.wf()
        &&& self.rows.len() <= self.summary.url.len()
        &&& forall|at: int|
            0 <= at < self.rows.len() ==> follows_index(self.summary, at, #[trigger] self.rows[at])
        &&& self.waiting is Some ==> self.rows.len() < self.summary.url.len()
    }

    /// The address of the page to fetch next: the supplementary page that is
    /// awaited, else the page of the first vote without a record; none when
    /// every vote has its record.
    pub open spec fn request(self) -> Option<Seq<char>> {
        match self.waiting {
            Some((_, address)) => Some(address),
            None => if self.rows.len() < self.summary.url.len() {
                Some(self.summary.url[self.rows.len() as int])
            } else {
                None
            },
        }
    }

    /// The state after the page asked for has arrived. A supplementary page
    /// completes the record of its vote with the recommendation. The page of
    /// a vote gives the record at once where it links to no supplementary
    /// page; where it links to one, that page is awaited. A page that was
    /// not asked for changes nothing.
    pub open spec fn after(self, page: Seq<char>) -> ExtractionState {
        let at = self.rows.len() as int;
        match self.waiting {
            Some((table, _)) => ExtractionState {
                rows: self.rows.push(row_of(self.summary, at, table, page_recommendation_of(page))),
                waiting: None,
                ..self
            },
            None => if self.rows.len() < self.summary.url.len() {
                match page_supplement_of(page) {
                    Some(address) => ExtractionState {
                        waiting: Some((page_table_of(page), address)),
                        ..self
                    },
                    None => ExtractionState {
                        rows: self.rows.push(row_of(self.summary, at, page_table_of(page), None)),
                        ..self
                    },
                }
            } else {
                self
            },
        }
    }
}

/// Every vote has its record, in the order of the index, once no page is
/// left to ask for.
pub proof fn lemma_finished_covers_index(state: ExtractionState)
    requires
        state.valid(),
        state.request() is None,
    ensures
        state.rows.len() == state.summary.url.len(),
        forall|at: int|
            0 <= at < state.rows.len() ==> follows_index(state.summary, at, #[trigger] state.rows[at]),
{
}

/// A page that arrives leaves the records made so far as they are, and adds
/// one at most.
pub proof fn lemma_after_keeps_rows(state: ExtractionState, page: Seq<char>)
    requires
        state.valid(),
    ensures
        state.after(page).valid(),
        state.after(page).summary == state.summary,
        state.rows.is_prefix_of(state.after(page).rows),
        state.after(page).rows.len() <= state.rows.len() + 1,
{
    let next = state.after(page);
    assert forall|at: int| 0 <= at < next.rows.len() implies follows_index(
        next.summary,
        at,
        #[trigger] next.rows[at],
    ) by {
        if at < state.rows.len() {
            assert(next.rows[at] == state.rows[at]);
        }
    }
}

/// An extraction under way: it names the page to fetch next and takes the
/// page in, until every vote of the index has its record.
pub struct Extraction {
    summary: Summary,
    data: Data,
    waiting: Option<PageData>,
}

impl View for Extraction {
    type V = ExtractionState;

    closed spec fn view(&self) -> ExtractionState {
        ExtractionState {
            summary: self.summary@,
            rows: self.data@,
            waiting: match self.waiting {
                Some(page) => Some((page.table@, text_in(page.supplementary_information)->0)),
                None => None,
            },
        }
    }
}

impl Extraction {
    #[verifier::type_invariant]
    spec fn sound(&self) -> bool {
        &&& self.data.wf()
        &&& self@.valid()
        &&& self.waiting is Some ==> self.waiting->0.supplementary_information is Some
    }

    /// Starts the extraction of the votes of an index.
    pub fn new(summary: Summary) -> (extraction: Extraction)
        requires
            summary@.wf(),
        ensures
            extraction@ == (ExtractionState { summary: summary@, rows: Seq::empty(), waiting: None }),
            extraction@.valid(),
    {
        Extraction { summary, data: Data::default(), waiting: None }
    }

    /// The address of the page to fetch next, or `None` when every vote has
    /// its record.
    pub fn next_request(&self) -> (address: Option<String>)
        ensures
            self@.valid(),
            text_in(address) == self@.request(),
    {
        proof {
            use_type_invariant(self);
        }
        match &self.waiting {
            Some(page) => page.supplementary_information.clone(),
            None => {
                let at = self.data.no.len();
                if at < self.summary.url.len() {
                    assert(self@.summary.url[at as int] == self.summary.url@[at as int]@);
                    Some(self.summary.url[at].clone())
                } else {
                    None
                }
            },
        }
    }

    /// Takes in the page that was asked for and gives the extraction as it
    /// stands after it.
    pub fn receive(self, page: &str) -> (next: Extraction)
        ensures
            self@.valid(),
            next@ == self@.after(page@),
            next@.valid(),
    {
        proof {
            use_type_invariant(&self);
            lemma_after_keeps_rows(self@, page@);
        }
        let Extraction { summary, mut data, waiting } = self;
        let at = data.no.len();
        match waiting {
            Some(detail) => {
                let recommendation = extract_recommendation(Some(page));
                let row = build_row(&summary, at, &detail.table, recommendation);
                data.update(row);
                Extraction { summary, data, waiting: None }
            },
            None => {
                if at < summary.url.len() {
                    let detail = extract_data_from_table(page);
                    if detail.supplementary_information.is_some() {
                        Extraction { summary, data, waiting: Some(detail) }
                    } else {
                        let row = build_row(&summary, at, &detail.table, None);
                        data.update(row);
                        Extraction { summary, data, waiting: None }
                    }
                } else {
                    Extraction { summary, data, waiting: None }
                }
            },
        }
    }

    /// The number of votes in the index.
    pub fn votes(&self) -> (count: usize)
        ensures
            count == self@.summary.url.len(),
    {
        self.summary.url.len()
    }

    /// The number of records made so far.
    pub fn records(&self) -> (count: usize)
        ensures
            count == self@.rows.len(),
    {
        self.data.no.len()
    }

    /// Hands over the table of the records made so far.
    pub fn into_data(self) -> (data: Data)
        ensures
            self@.valid(),
            data.wf(),
            data@ == self@.rows,
    {
        proof {
            use_type_invariant(&self);
        }
        self.data
    }
}

} // verus!
