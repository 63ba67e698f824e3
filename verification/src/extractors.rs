//! What is read off the index page and off the page of a single vote.

use vstd::prelude::*;
use vstd::string::StringExecFns;
use crate::converters::{convert_date_to_us_format, count_of, date_of, string_to_u32};
use crate::markup::{
    element_contents, elements_in, section_contents, sections_in, select_elements,
    select_sections, Element, ElementContent, Section, SectionContent,
};
use crate::pattern::{first_group, first_group_of};
use crate::table::{scan_cells, scan_of, text_in, Field, TableData};
use crate::text::{
    contains, contains_text, join, joined, occurs_at, same_text, starts_with, texts_of, trim,
    trimmed,
};

verus! {

/// The outcome phrase of a vote that passed.
pub const PHRASE_ACCEPTED: &'static str = "L'oggetto è stato accettato";

/// The outcome phrase of a vote that failed.
pub const PHRASE_REJECTED: &'static str = "L'oggetto è stato respinto";

/// The selector of the cells of a table.
pub const SELECT_CELLS: &'static str = "td";

/// The selector of the hyperlinks.
pub const SELECT_LINKS: &'static str = "a";

/// The attribute that holds the target of a hyperlink.
pub const LINK_TARGET: &'static str = "href";

/// The address that the targets of supplementary pages are relative to.
pub const SITE_ROOT: &'static str = "https://www.bk.admin.ch";

/// The text of the hyperlink that leads to the supplementary page of a vote.
pub const SUPPLEMENTARY_LINK_TEXT: &'static str = "Informazioni supplementari sull'iniziativa popolare";

/// The word that marks the cell of the recommendation.
pub const RECOMMENDATION_MARKER: &'static str = "Raccomandazione";

/// The word by which a recommendation advises to reject.
pub const REJECTION_KEYWORD: &'static str = "Rigetto";

/// The selector of the rows of a table.
pub const SELECT_ROWS: &'static str = "tr";

/// The address that the targets of the index page are relative to.
pub const VOTE_ADDRESS_BASE: &'static str = "https://www.bk.admin.ch/ch/i/pore/va/";

/// The words that the outcome phrase of a vote begins with.
pub const OUTCOME_MARKER: &'static str = "L'oggetto";

/// The form of the address of a vote's page; its group holds the number of
/// the vote.
pub const VOTE_ADDRESS_PATTERN: &'static str = r"det(\d+)\.html";

/// The number of a vote as the address of its page gives it: the count that
/// the digits captured from the address write.
pub open spec fn vote_number_of(address: Seq<char>) -> Option<u32> {
    match first_group_of(VOTE_ADDRESS_PATTERN@, address) {
        Some(digits) => count_of(digits),
        None => None,
    }
}

/// The kind of a vote, by the first of four words that its title holds, in
/// this order; the empty text where it holds none.
pub open spec fn typology_of(title: Seq<char>) -> Seq<char> {
    if contains_text(title, "Iniziativa"@) {
        "initiative"@
    } else if contains_text(title, "Decreto"@) {
        "decree"@
    } else if contains_text(title, "Legge"@) {
        "referendum"@
    } else if contains_text(title, "Controprogetto"@) {
        "counterproposal"@
    } else {
        ""@
    }
}

/// The outcome that a phrase of the index page states: one of the two fixed
/// phrases, or nothing.
pub open spec fn outcome_of(phrase: Seq<char>) -> Option<Seq<char>> {
    if phrase == PHRASE_ACCEPTED@ {
        Some("accepted"@)
    } else if phrase == PHRASE_REJECTED@ {
        Some("not accepted"@)
    } else {
        None
    }
}

/// The number of domestic voters as the records carry it: the sum of the two
/// counts, where both are known and the sum is a `u32`.
pub open spec fn domestic_voters_of(total_voters: Option<u32>, overseas_voters: Option<u32>) -> Option<u32> {
    match (total_voters, overseas_voters) {
        (Some(total), Some(overseas)) => if total + overseas <= u32::MAX {
            Some((total + overseas) as u32)
        } else {
            None
        },
        _ => None,
    }
}

/// A title that names an initiative is one, whatever else it names.
pub proof fn lemma_initiative_comes_first(title: Seq<char>)
    requires
        contains_text(title, "Iniziativa"@),
    ensures
        typology_of(title) == "initiative"@,
{
}

/// The phrase of a vote that passed states that it was accepted, the phrase
/// of a vote that failed that it was not, and no other phrase states an
/// outcome.
pub proof fn lemma_outcome_of_phrases()
    ensures
        outcome_of(PHRASE_ACCEPTED@) == Some("accepted"@),
        outcome_of(PHRASE_REJECTED@) == Some("not accepted"@),
        forall|phrase: Seq<char>|
            phrase != PHRASE_ACCEPTED@ && phrase != PHRASE_REJECTED@ ==> (#[trigger] outcome_of(
                phrase,
            )) is None,
{
    reveal_strlit("L'oggetto è stato accettato");
    reveal_strlit("L'oggetto è stato respinto");
    assert(PHRASE_ACCEPTED@.len() != PHRASE_REJECTED@.len());
}

/// Infers the kind of a vote from its title.
pub fn extract_typology_of_the_voting(title: String) -> (kind: String)
    ensures
        kind@ == typology_of(title@),
{
    let title = title.as_str();
    if contains(title, "Iniziativa") {
        String::from_str("initiative")
    } else if contains(title, "Decreto") {
        String::from_str("decree")
    } else if contains(title, "Legge") {
        String::from_str("referendum")
    } else if contains(title, "Controprogetto") {
        String::from_str("counterproposal")
    } else {
        String::from_str("")
    }
}

/// Reads the outcome of a vote off the phrase that the index page gives it.
pub fn extract_outcome(outcome: String) -> (verdict: Option<String>)
    ensures
        match verdict {
            Some(text) => outcome_of(outcome@) == Some(text@),
            None => outcome_of(outcome@) is None,
        },
{
    if same_text(outcome.as_str(), PHRASE_ACCEPTED) {
        Some(String::from_str("accepted"))
    } else if same_text(outcome.as_str(), PHRASE_REJECTED) {
        Some(String::from_str("not accepted"))
    } else {
        None
    }
}

/// Derives the domestic voters of a record from its two voter counts.
pub fn extract_domestic_voters(total_voters: Option<u32>, overseas_voters: Option<u32>) -> (domestic: Option<u32>)
    ensures
        domestic == domestic_voters_of(total_voters, overseas_voters),
{
    match (total_voters, overseas_voters) {
        (Some(total), Some(overseas)) => total.checked_add(overseas),
        _ => None,
    }
}

/// The text of a cell: its text nodes with `between` between them, without the
/// white space at either end.
pub open spec fn cell_text_of(element: ElementContent, between: Seq<char>) -> Seq<char> {
    trimmed(joined(element.texts, between))
}

/// The texts of the cells of a list, in order.
pub open spec fn cell_texts_of(elements: Seq<ElementContent>, between: Seq<char>) -> Seq<Seq<char>> {
    elements.map_values(|element: ElementContent| cell_text_of(element, between))
}

/// Whether a hyperlink is the one to the supplementary page: its first text
/// node reads the fixed text, white space at its ends aside, and it has a
/// target.
pub open spec fn leads_to_supplement(link: ElementContent) -> bool {
    &&& link.texts.len() > 0
    &&& trimmed(link.texts[0]) == SUPPLEMENTARY_LINK_TEXT@
    &&& link.attribute is Some
}

/// The address of the supplementary page: the site followed by the target of
/// the first hyperlink that leads there.
pub open spec fn supplementary_link_of(links: Seq<ElementContent>) -> Option<Seq<char>>
    decreases links.len(),
{
    if links.len() == 0 {
        None
    } else if leads_to_supplement(links.first()) {
        Some(SITE_ROOT@ + links.first().attribute->0)
    } else {
        supplementary_link_of(links.drop_first())
    }
}

/// The recommendation that the cells of a supplementary page state: that of
/// the first cell that holds the marker word, which advises to reject where
/// it holds the keyword, and to accept where it does not.
pub open spec fn recommendation_of(cells: Seq<Seq<char>>) -> Option<Seq<char>>
    decreases cells.len(),
{
    if cells.len() == 0 {
        None
    } else if contains_text(cells.first(), RECOMMENDATION_MARKER@) {
        if contains_text(cells.first(), REJECTION_KEYWORD@) {
            Some("reject"@)
        } else {
            Some("accept"@)
        }
    } else {
        recommendation_of(cells.drop_first())
    }
}

/// The values that the table of a vote's page states.
pub open spec fn page_table_of(document: Seq<char>) -> Map<Field, Seq<char>> {
    scan_of(cell_texts_of(elements_in(document, SELECT_CELLS@, LINK_TARGET@), ""@))
}

/// The address of the supplementary page that a vote's page links to.
pub open spec fn page_supplement_of(document: Seq<char>) -> Option<Seq<char>> {
    supplementary_link_of(elements_in(document, SELECT_LINKS@, LINK_TARGET@))
}

/// The recommendation that a supplementary page states.
pub open spec fn page_recommendation_of(document: Seq<char>) -> Option<Seq<char>> {
    recommendation_of(cell_texts_of(elements_in(document, SELECT_CELLS@, LINK_TARGET@), " "@))
}

/// What is read off the page of a single vote.
pub struct PageData {
    /// The values of the table.
    pub table: TableData,
    /// The address of the supplementary page, where the page links to one.
    pub supplementary_information: Option<String>,
}

/// The texts of the cells of a list, in order.
pub fn cell_texts(elements: &Vec<Element>, between: &str) -> (cells: Vec<String>)
    ensures
        texts_of(cells@) == cell_texts_of(element_contents(elements@), between@),
{
    let mut cells: Vec<String> = Vec::new();
    let mut at: usize = 0;
    while at < elements.len()
        invariant
            at <= elements.len(),
            texts_of(cells@) == cell_texts_of(element_contents(elements@), between@).take(at as int),
        decreases elements.len() - at,
    {
        let ghost done = texts_of(cells@);
        let whole = join(&elements[at].texts, between);
        let cell = String::from_str(trim(whole.as_str()));
        cells.push(cell);
        proof {
            let all = cell_texts_of(element_contents(elements@), between@);
            assert(elements@[at as int]@.texts == texts_of(elements@[at as int].texts@));
            assert(all[at as int] == cell@);
            assert(texts_of(cells@) =~= done.push(cell@));
            assert(all.take(at + 1) =~= all.take(at as int).push(all[at as int]));
        }
        at += 1;
    }
    proof {
        let all = cell_texts_of(element_contents(elements@), between@);
        assert(all.take(at as int) =~= all);
    }
    cells
}

/// Finds the address of the supplementary page among the hyperlinks of a
/// vote's page.
pub fn supplementary_link(links: &Vec<Element>) -> (address: Option<String>)
    ensures
        text_in(address) == supplementary_link_of(element_contents(links@)),
{
    let ghost all = element_contents(links@);
    let mut at: usize = 0;
    assert(all.skip(0) =~= all);
    while at < links.len()
        invariant
            at <= links.len(),
            all == element_contents(links@),
            supplementary_link_of(all) == supplementary_link_of(all.skip(at as int)),
        decreases links.len() - at,
    {
        let link = &links[at];
        proof {
            assert(all.skip(at as int).first() == link@);
            assert(all.skip(at as int).drop_first() =~= all.skip(at + 1));
            if link.texts@.len() > 0 {
                assert(link@.texts[0] == link.texts@[0]@);
            }
        }
        if link.texts.len() > 0 && same_text(trim(link.texts[0].as_str()), SUPPLEMENTARY_LINK_TEXT) {
            match &link.attribute {
                Some(target) => {
                    let mut address = String::from_str(SITE_ROOT);
                    address.append(target.as_str());
                    return Some(address);
                },
                None => {},
            }
        }
        at += 1;
    }
    None
}

/// Finds the recommendation among the cells of a supplementary page.
pub fn recommendation_in(cells: &Vec<String>) -> (advice: Option<String>)
    ensures
        text_in(advice) == recommendation_of(texts_of(cells@)),
{
    let ghost all = texts_of(cells@);
    let mut at: usize = 0;
    assert(all.skip(0) =~= all);
    while at < cells.len()
        invariant
            at <= cells.len(),
            all == texts_of(cells@),
            recommendation_of(all) == recommendation_of(all.skip(at as int)),
        decreases cells.len() - at,
    {
        proof {
            assert(all.skip(at as int).first() == cells@[at as int]@);
            assert(all.skip(at as int).drop_first() =~= all.skip(at + 1));
        }
        if contains(cells[at].as_str(), RECOMMENDATION_MARKER) {
            if contains(cells[at].as_str(), REJECTION_KEYWORD) {
                return Some(String::from_str("reject"));
            } else {
                return Some(String::from_str("accept"));
            }
        }
        at += 1;
    }
    None
}

/// The elements of `document` that `selector` picks, each with the target it
/// links to.
pub fn elements_of(document: &str, selector: &str) -> (elements: Vec<Element>)
    ensures
        element_contents(elements@) == elements_in(document@, selector@, LINK_TARGET@),
{
    match select_elements(document, selector, LINK_TARGET) {
        Some(elements) => elements,
        None => {
            let elements: Vec<Element> = Vec::new();
            assert(element_contents(elements@) =~= Seq::empty());
            elements
        },
    }
}

/// Reads the table of a vote's page and the link to its supplementary page.
pub fn extract_data_from_table(document: &str) -> (page: PageData)
    ensures
        page.table@ == page_table_of(document@),
        text_in(page.supplementary_information) == page_supplement_of(document@),
{
    let cells = cell_texts(&elements_of(document, SELECT_CELLS), "");
    let table = scan_cells(&cells);
    let supplementary_information = supplementary_link(&elements_of(document, SELECT_LINKS));
    PageData { table, supplementary_information }
}

/// Reads the recommendation off the supplementary page of a vote, where
/// there is such a page.
pub fn extract_recommendation(document: Option<&str>) -> (advice: Option<String>)
    ensures
        text_in(advice) == match document {
            Some(page) => page_recommendation_of(page@),
            None => None,
        },
{
    match document {
        Some(page) => {
            let cells = cell_texts(&elements_of(page, SELECT_CELLS), " ");
            recommendation_in(&cells)
        },
        None => None,
    }
}

/// Reads the number of a vote off the address of its page.
pub fn extract_number_votation_from_url(voting_hyperlink: &String) -> (number: Option<u32>)
    ensures
        number == vote_number_of(voting_hyperlink@),
{
    match first_group(VOTE_ADDRESS_PATTERN, voting_hyperlink.as_str()) {
        Some(digits) => string_to_u32(Some(&digits)),
        None => None,
    }
}

/// Why an index page cannot be read.
#[derive(Clone, Copy, Debug, PartialEq, Eq, Structural)]
pub enum StructureError {
    /// The row of a vote gives a date that is not a day, a month and a year.
    MalformedDate,
}

/// What the index pages state of the votes, column by column: the votes in
/// the order of the Italian index, the titles of the two other languages in
/// the order of their own.
#[derive(Debug)]
pub struct Summary {
    /// The address of each vote's page.
    pub url: Vec<String>,
    /// The day of each vote, year first.
    pub date_of_voting: Vec<String>,
    /// The outcome phrase of each vote; empty where its row has none.
    pub outcome: Vec<String>,
    /// The titles of the Italian index.
    pub title_it: Vec<String>,
    /// The titles of the German index.
    pub title_de: Vec<String>,
    /// The titles of the French index.
    pub title_fr: Vec<String>,
}

/// What a `Summary` holds, as sequences of characters.
pub ghost struct SummaryContent {
    pub url: Seq<Seq<char>>,
    pub date_of_voting: Seq<Seq<char>>,
    pub outcome: Seq<Seq<char>>,
    pub title_it: Seq<Seq<char>>,
    pub title_de: Seq<Seq<char>>,
    pub title_fr: Seq<Seq<char>>,
}

impl View for Summary {
    type V = SummaryContent;

    open spec fn view(&self) -> SummaryContent {
        SummaryContent {
            url: texts_of(self.url@),
            date_of_voting: texts_of(self.date_of_voting@),
            outcome: texts_of(self.outcome@),
            title_it: texts_of(self.title_it@),
            title_de: texts_of(self.title_de@),
            title_fr: texts_of(self.title_fr@),
        }
    }
}

impl Summary {
    /// Tells whether every vote has a date and an outcome phrase.
    pub fn is_complete(&self) -> (complete: bool)
        ensures
            complete == self@.wf(),
    {
        let votes = self.url.len();
        self.date_of_voting.len() == votes && self.outcome.len() == votes
    }
}

impl SummaryContent {
    /// Whether every vote has a date and an outcome phrase. The lists of
    /// titles may have any length: each is in the order of its own page.
    pub open spec fn wf(self) -> bool {
        &&& self.date_of_voting.len() == self.url.len()
        &&& self.outcome.len() == self.url.len()
    }
}

/// The rows of an index below its heading.
pub open spec fn body_rows(rows: Seq<SectionContent>) -> Seq<SectionContent> {
    if rows.len() == 0 {
        rows
    } else {
        rows.drop_first()
    }
}

/// Whether a row of an index names a vote: whether it holds two hyperlinks
/// or more.
pub open spec fn names_a_vote(row: SectionContent) -> bool {
    row.inner.len() >= 2
}

/// The rows of an index that name a vote, in order.
pub open spec fn vote_rows(rows: Seq<SectionContent>) -> Seq<SectionContent> {
    body_rows(rows).filter(|row: SectionContent| names_a_vote(row))
}

/// The rows of the page `document`, each with its hyperlinks.
pub open spec fn page_rows_of(document: Seq<char>) -> Seq<SectionContent> {
    sections_in(document, SELECT_ROWS@, SELECT_LINKS@, LINK_TARGET@)
}

/// The rows of the index page `document` that name a vote.
pub open spec fn page_votes_of(document: Seq<char>) -> Seq<SectionContent> {
    vote_rows(page_rows_of(document))
}

/// The title of the vote in a row: the text of its second hyperlink.
pub open spec fn vote_title_of(row: SectionContent) -> Seq<char> {
    cell_text_of(row.inner[1], ""@)
}

/// The address of the page of the vote in a row: the base followed by the
/// target of its second hyperlink, or by nothing where that has no target.
pub open spec fn vote_address_of(row: SectionContent) -> Seq<char> {
    VOTE_ADDRESS_BASE@ + match row.inner[1].attribute {
        Some(target) => target,
        None => Seq::empty(),
    }
}

/// The day of the vote in a row, year first: the converted text of its first
/// hyperlink.
pub open spec fn vote_date_of(row: SectionContent) -> Option<Seq<char>> {
    date_of(cell_text_of(row.inner[0], ""@))
}

/// The outcome phrase among the text nodes of a row: the first that begins
/// with the marker, without the white space at its ends; the empty text where
/// there is none.
pub open spec fn outcome_phrase_of(texts: Seq<Seq<char>>) -> Seq<char>
    decreases texts.len(),
{
    if texts.len() == 0 {
        Seq::empty()
    } else if occurs_at(texts.first(), OUTCOME_MARKER@, 0) {
        trimmed(texts.first())
    } else {
        outcome_phrase_of(texts.drop_first())
    }
}

/// The titles of the votes of an index, in order.
pub open spec fn titles_of(votes: Seq<SectionContent>) -> Seq<Seq<char>> {
    votes.map_values(|row: SectionContent| vote_title_of(row))
}

/// Whether each of `votes` has a date that reads.
pub open spec fn dates_read(votes: Seq<SectionContent>) -> bool {
    forall|k: int| 0 <= k < votes.len() ==> (#[trigger] vote_date_of(votes[k])) is Some
}

/// The title in line `at` of a list of titles; the empty text where the list
/// does not reach that far.
pub open spec fn title_at(titles: Seq<Seq<char>>, at: int) -> Seq<char> {
    if 0 <= at < titles.len() {
        titles[at]
    } else {
        Seq::empty()
    }
}

/// What the rows of three indexes state of the votes. The votes, their
/// addresses, dates and outcome phrases are those of the Italian rows; each
/// list of titles is that of its own rows, whatever its length. A date that
/// does not read is the one error.
pub open spec fn summary_from(
    rows_it: Seq<SectionContent>,
    rows_de: Seq<SectionContent>,
    rows_fr: Seq<SectionContent>,
) -> Result<SummaryContent, StructureError> {
    let votes = vote_rows(rows_it);
    if dates_read(votes) {
        Ok(
            SummaryContent {
                url: votes.map_values(|row: SectionContent| vote_address_of(row)),
                date_of_voting: votes.map_values(|row: SectionContent| vote_date_of(row)->0),
                outcome: votes.map_values(|row: SectionContent| outcome_phrase_of(row.texts)),
                title_it: titles_of(votes),
                title_de: titles_of(vote_rows(rows_de)),
                title_fr: titles_of(vote_rows(rows_fr)),
            },
        )
    } else {
        Err(StructureError::MalformedDate)
    }
}

/// What three index pages state of the votes.
pub open spec fn summary_of(page_it: Seq<char>, page_de: Seq<char>, page_fr: Seq<char>) -> Result<
    SummaryContent,
    StructureError,
> {
    summary_from(page_rows_of(page_it), page_rows_of(page_de), page_rows_of(page_fr))
}

/// The rows of `document` with the hyperlinks in each.
pub fn rows_of(document: &str) -> (rows: Vec<Section>)
    ensures
        section_contents(rows@) == page_rows_of(document@),
{
    match select_sections(document, SELECT_ROWS, SELECT_LINKS, LINK_TARGET) {
        Some(rows) => rows,
        None => {
            let rows: Vec<Section> = Vec::new();
            assert(section_contents(rows@) =~= Seq::empty());
            rows
        },
    }
}

/// The rows that `places` point to, in the order of `places`.
pub open spec fn rows_at(rows: Seq<Section>, places: Seq<usize>) -> Seq<SectionContent> {
    places.map_values(|place: usize| rows[place as int]@)
}

/// The places of the rows of an index that name a vote, in order.
pub fn vote_places(rows: &Vec<Section>) -> (places: Vec<usize>)
    ensures
        rows_at(rows@, places@) == vote_rows(section_contents(rows@)),
        forall|k: int| 0 <= k < places@.len() ==> #[trigger] places@[k] < rows@.len(),
        forall|k: int| 0 <= k < places@.len() ==> rows@[#[trigger] places@[k] as int].inner@.len() >= 2,
{
    let ghost body = body_rows(section_contents(rows@));
    let ghost named = |row: SectionContent| names_a_vote(row);
    let mut places: Vec<usize> = Vec::new();
    if rows.len() == 0 {
        proof {
            reveal(Seq::filter);
            assert(rows_at(rows@, places@) =~= body.filter(named));
        }
        return places;
    }
    let mut at: usize = 1;
    proof {
        reveal(Seq::filter);
        assert(body.take(0).filter(named) =~= Seq::empty());
        assert(rows_at(rows@, places@) =~= Seq::empty());
    }
    while at < rows.len()
        invariant
            1 <= at <= rows.len(),
            body == body_rows(section_contents(rows@)),
            named == |row: SectionContent| names_a_vote(row),
            rows_at(rows@, places@) == body.take(at - 1).filter(named),
            forall|k: int| 0 <= k < places@.len() ==> #[trigger] places@[k] < rows@.len(),
            forall|k: int|
                0 <= k < places@.len() ==> rows@[#[trigger] places@[k] as int].inner@.len() >= 2,
        decreases rows.len() - at,
    {
        let ghost before = rows_at(rows@, places@);
        proof {
            reveal(Seq::filter);
            assert(body.take(at as int).drop_last() =~= body.take(at - 1));
            assert(body.take(at as int).last() == rows@[at as int]@);
            assert(rows@[at as int]@.inner.len() == rows@[at as int].inner@.len());
        }
        if rows[at].inner.len() >= 2 {
            places.push(at);
            assert(rows_at(rows@, places@) =~= before.push(rows@[at as int]@));
        }
        at += 1;
    }
    assert(body.take(at - 1) =~= body);
    places
}

/// The titles of the votes that the rows at `places` name.
fn titles_at(rows: &Vec<Section>, places: &Vec<usize>) -> (titles: Vec<String>)
    requires
        forall|k: int| 0 <= k < places@.len() ==> #[trigger] places@[k] < rows@.len(),
        forall|k: int| 0 <= k < places@.len() ==> rows@[#[trigger] places@[k] as int].inner@.len() >= 2,
    ensures
        texts_of(titles@) == titles_of(rows_at(rows@, places@)),
{
    let mut titles: Vec<String> = Vec::new();
    let mut at: usize = 0;
    while at < places.len()
        invariant
            at <= places.len(),
            forall|k: int| 0 <= k < places@.len() ==> #[trigger] places@[k] < rows@.len(),
            forall|k: int|
                0 <= k < places@.len() ==> rows@[#[trigger] places@[k] as int].inner@.len() >= 2,
            texts_of(titles@) == titles_of(rows_at(rows@, places@)).take(at as int),
        decreases places.len() - at,
    {
        let ghost done = texts_of(titles@);
        let row = &rows[places[at]];
        let link = &row.inner[1];
        let whole = join(&link.texts, "");
        let title = String::from_str(trim(whole.as_str()));
        titles.push(title);
        proof {
            let all = titles_of(rows_at(rows@, places@));
            assert(row@.inner[1] == link@);
            assert(link@.texts == texts_of(link.texts@));
            assert(all[at as int] == title@);
            assert(texts_of(titles@) =~= done.push(title@));
            assert(all.take(at + 1) =~= all.take(at as int).push(all[at as int]));
        }
        at += 1;
    }
    proof {
        let all = titles_of(rows_at(rows@, places@));
        assert(all.take(at as int) =~= all);
    }
    titles
}

/// The title in line `at` of a list of titles; the empty text where the list
/// does not reach that far.
pub fn title_in_line(titles: &Vec<String>, at: usize) -> (title: String)
    ensures
        title@ == title_at(texts_of(titles@), at as int),
{
    if at < titles.len() {
        assert(texts_of(titles@)[at as int] == titles@[at as int]@);
        titles[at].clone()
    } else {
        String::new()
    }
}

/// The titles of the votes that the rows of an index name.
pub fn titles_in(rows: &Vec<Section>) -> (titles: Vec<String>)
    ensures
        texts_of(titles@) == titles_of(vote_rows(section_contents(rows@))),
{
    let places = vote_places(rows);
    titles_at(rows, &places)
}

/// Reads the titles of the votes off an index page.
pub fn extract_title(document: &str) -> (titles: Vec<String>)
    ensures
        texts_of(titles@) == titles_of(page_votes_of(document@)),
{
    titles_in(&rows_of(document))
}

/// Finds the outcome phrase among the text nodes of a row.
pub fn outcome_phrase(texts: &Vec<String>) -> (phrase: String)
    ensures
        phrase@ == outcome_phrase_of(texts_of(texts@)),
{
    let ghost all = texts_of(texts@);
    let mut at: usize = 0;
    assert(all.skip(0) =~= all);
    while at < texts.len()
        invariant
            at <= texts.len(),
            all == texts_of(texts@),
            outcome_phrase_of(all) == outcome_phrase_of(all.skip(at as int)),
        decreases texts.len() - at,
    {
        proof {
            assert(all.skip(at as int).first() == texts@[at as int]@);
            assert(all.skip(at as int).drop_first() =~= all.skip(at + 1));
        }
        if starts_with(texts[at].as_str(), OUTCOME_MARKER) {
            return String::from_str(trim(texts[at].as_str()));
        }
        at += 1;
    }
    String::new()
}

/// The address of the page of the vote that a row names.
fn vote_address(row: &Section) -> (address: String)
    requires
        row.inner@.len() >= 2,
    ensures
        address@ == vote_address_of(row@),
{
    let mut address = String::from_str(VOTE_ADDRESS_BASE);
    match &row.inner[1].attribute {
        Some(target) => {
            address.append(target.as_str());
        },
        None => {
            assert(address@ + Seq::<char>::empty() =~= address@);
        },
    }
    assert(row@.inner[1] == row.inner@[1]@);
    address
}

/// The day of the vote that a row names, year first, where its date reads.
fn vote_date(row: &Section) -> (date: Option<String>)
    requires
        row.inner@.len() >= 2,
    ensures
        text_in(date) == vote_date_of(row@),
{
    let link = &row.inner[0];
    assert(row@.inner[0] == link@);
    assert(link@.texts == texts_of(link.texts@));
    let whole = join(&link.texts, "");
    convert_date_to_us_format(trim(whole.as_str()))
}

/// Reads off the rows of the indexes in the three languages what they state
/// of the votes.
pub fn summary_from_rows(rows_it: &Vec<Section>, rows_de: &Vec<Section>, rows_fr: &Vec<Section>) -> (summary:
    Result<Summary, StructureError>)
    ensures
        match summary {
            Ok(columns) => summary_from(
                section_contents(rows_it@),
                section_contents(rows_de@),
                section_contents(rows_fr@),
            ) == Ok::<SummaryContent, StructureError>(columns@) && columns@.wf(),
            Err(error) => summary_from(
                section_contents(rows_it@),
                section_contents(rows_de@),
                section_contents(rows_fr@),
            ) == Err::<SummaryContent, StructureError>(error),
        },
{
    let places = vote_places(rows_it);
    let ghost votes = vote_rows(section_contents(rows_it@));
    let mut url: Vec<String> = Vec::new();
    let mut date_of_voting: Vec<String> = Vec::new();
    let mut outcome: Vec<String> = Vec::new();
    let mut at: usize = 0;
    while at < places.len()
        invariant
            at <= places.len(),
            votes == rows_at(rows_it@, places@),
            votes == vote_rows(section_contents(rows_it@)),
            forall|k: int| 0 <= k < places@.len() ==> #[trigger] places@[k] < rows_it@.len(),
            forall|k: int|
                0 <= k < places@.len() ==> rows_it@[#[trigger] places@[k] as int].inner@.len() >= 2,
            forall|k: int| 0 <= k < at ==> (#[trigger] vote_date_of(votes[k])) is Some,
            texts_of(url@) == votes.map_values(|row: SectionContent| vote_address_of(row)).take(
                at as int,
            ),
            texts_of(date_of_voting@) == votes.map_values(
                |row: SectionContent| vote_date_of(row)->0,
            ).take(at as int),
            texts_of(outcome@) == votes.map_values(
                |row: SectionContent| outcome_phrase_of(row.texts),
            ).take(at as int),
        decreases places.len() - at,
    {
        let ghost urls = texts_of(url@);
        let ghost dates = texts_of(date_of_voting@);
        let ghost outcomes = texts_of(outcome@);
        let row = &rows_it[places[at]];
        assert(votes[at as int] == row@);
        let address = vote_address(row);
        let date = match vote_date(row) {
            Some(date) => date,
            None => {
                assert(vote_date_of(votes[at as int]) is None);
                return Err(StructureError::MalformedDate);
            },
        };
        assert(row@.texts == texts_of(row.texts@));
        let phrase = outcome_phrase(&row.texts);
        url.push(address);
        date_of_voting.push(date);
        outcome.push(phrase);
        proof {
            let all_urls = votes.map_values(|row: SectionContent| vote_address_of(row));
            let all_dates = votes.map_values(|row: SectionContent| vote_date_of(row)->0);
            let all_outcomes = votes.map_values(|row: SectionContent| outcome_phrase_of(row.texts));
            assert(texts_of(url@) =~= urls.push(address@));
            assert(texts_of(date_of_voting@) =~= dates.push(date@));
            assert(texts_of(outcome@) =~= outcomes.push(phrase@));
            assert(all_urls.take(at + 1) =~= all_urls.take(at as int).push(all_urls[at as int]));
            assert(all_dates.take(at + 1) =~= all_dates.take(at as int).push(all_dates[at as int]));
            assert(all_outcomes.take(at + 1) =~= all_outcomes.take(at as int).push(
                all_outcomes[at as int],
            ));
        }
        at += 1;
    }
    proof {
        let all_urls = votes.map_values(|row: SectionContent| vote_address_of(row));
        let all_dates = votes.map_values(|row: SectionContent| vote_date_of(row)->0);
        let all_outcomes = votes.map_values(|row: SectionContent| outcome_phrase_of(row.texts));
        assert(all_urls.take(at as int) =~= all_urls);
        assert(all_dates.take(at as int) =~= all_dates);
        assert(all_outcomes.take(at as int) =~= all_outcomes);
    }
    let title_it = titles_at(rows_it, &places);
    let title_de = titles_in(rows_de);
    let title_fr = titles_in(rows_fr);
    Ok(Summary { url, date_of_voting, outcome, title_it, title_de, title_fr })
}

/// Reads off the index pages in the three languages what they state of the
/// votes.
pub fn extract_information_from_summary_page(page_it: &str, page_de: &str, page_fr: &str) -> (summary:
    Result<Summary, StructureError>)
    ensures
        match summary {
            Ok(columns) => summary_of(page_it@, page_de@, page_fr@) == Ok::<
                SummaryContent,
                StructureError,
            >(columns@) && columns@.wf(),
            Err(error) => summary_of(page_it@, page_de@, page_fr@) == Err::<
                SummaryContent,
                StructureError,
            >(error),
        },
{
    summary_from_rows(&rows_of(page_it), &rows_of(page_de), &rows_of(page_fr))
}

} // verus!
