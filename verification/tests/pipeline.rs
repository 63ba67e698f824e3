use swiss_votes::data::{Data, Row};
use swiss_votes::extractors::{extract_information_from_summary_page, Summary};
use swiss_votes::pipeline::{build_row, Extraction};
use swiss_votes::table::{scan_cells, Field, TableData};

fn index_of_two_votes(first: &str, second: &str) -> String {
    format!(
        "<html><body><table>\
         <tr><th>Data</th><th>Oggetto</th></tr>\
         <tr><td><a href=\"x\">09.02.2014</a></td><td><a href=\"20140209/det580.html\">{}</a></td>\
         <td>L'oggetto è stato accettato</td></tr>\
         <tr><td><a href=\"x\">18.05.2014</a></td><td><a href=\"20140518/det584.html\">{}</a></td>\
         <td>L'oggetto è stato respinto</td></tr>\
         </table></body></html>",
        first, second
    )
}

fn summary_of_two_votes() -> Summary {
    extract_information_from_summary_page(
        &index_of_two_votes("Iniziativa popolare «Contro l'immigrazione di massa»", "Decreto federale"),
        &index_of_two_votes("Volksinitiative", "Bundesbeschluss"),
        &index_of_two_votes("Initiative populaire", "Arrêté fédéral"),
    )
    .unwrap()
}

const FIRST_PAGE: &str = "<html><body><table>\
    <tr><td>Totale elettori</td><td>100'000</td></tr>\
    <tr><td>di cui Svizzeri all'estero</td><td>5'000</td></tr>\
    <tr><td>Bollettini rientrati</td><td>56'000</td></tr>\
    <tr><td>Partecipazione</td><td>56.0%</td></tr>\
    <tr><td>bianche</td><td>600</td></tr>\
    <tr><td>nulle</td><td>400</td></tr>\
    <tr><td>Schede di voto valide</td><td>55'000</td></tr>\
    <tr><td>Sì</td><td>27'775</td><td>50.5%</td></tr>\
    <tr><td>No</td><td>27'225</td><td>49.5%</td></tr>\
    <tr><td>Voto dei Cantoni sì</td><td>12 5/2</td></tr>\
    <tr><td>Voto dei Cantoni no</td><td>8 1/2</td></tr>\
    </table>\
    <a href=\"/ch/i/pore/vi/vis413.html\">Informazioni supplementari sull'iniziativa popolare</a>\
    </body></html>";

const FIRST_SUPPLEMENT: &str = "<html><body><table>\
    <tr><td>Titolo</td><td>Contro l'immigrazione di massa</td></tr>\
    <tr><td>Raccomandazione del Parlamento: Rigetto</td></tr>\
    </table></body></html>";

const SECOND_PAGE: &str = "<html><body><table>\
    <tr><td>Totale elettori</td><td>5'221'519</td></tr>\
    <tr><td>Partecipazione</td><td>n.d.</td></tr>\
    <tr><td>Sì</td><td>molti</td><td>88%</td></tr>\
    <tr><td>Voto dei Cantoni sì</td><td>20 6/2</td></tr>\
    </table></body></html>";

#[test]
fn two_votes_give_two_records() {
    let mut run = Extraction::new(summary_of_two_votes());
    assert_eq!(run.votes(), 2);
    assert_eq!(run.records(), 0);
    assert_eq!(
        run.next_request(),
        Some("https://www.bk.admin.ch/ch/i/pore/va/20140209/det580.html".to_string())
    );
    run = run.receive(FIRST_PAGE);
    assert_eq!(run.records(), 0);
    assert_eq!(
        run.next_request(),
        Some("https://www.bk.admin.ch/ch/i/pore/vi/vis413.html".to_string())
    );
    run = run.receive(FIRST_SUPPLEMENT);
    assert_eq!(run.records(), 1);
    assert_eq!(
        run.next_request(),
        Some("https://www.bk.admin.ch/ch/i/pore/va/20140518/det584.html".to_string())
    );
    run = run.receive(SECOND_PAGE);
    assert_eq!(run.records(), 2);
    assert_eq!(run.next_request(), None);

    let data = run.into_data();
    assert_eq!(data.no, vec![Some(580), Some(584)]);
    assert_eq!(data.date_of_voting, vec!["2014-02-09".to_string(), "2014-05-18".to_string()]);
    assert_eq!(
        data.title_it,
        vec![
            "Iniziativa popolare «Contro l'immigrazione di massa»".to_string(),
            "Decreto federale".to_string()
        ]
    );
    assert_eq!(data.title_de, vec!["Volksinitiative".to_string(), "Bundesbeschluss".to_string()]);
    assert_eq!(data.title_fr, vec!["Initiative populaire".to_string(), "Arrêté fédéral".to_string()]);
    assert_eq!(data.kind, vec!["initiative".to_string(), "decree".to_string()]);
    assert_eq!(data.recommendation, vec![Some("reject".to_string()), None]);
    assert_eq!(data.total_voters, vec![Some(100000), Some(5221519)]);
    assert_eq!(data.overseas_voters, vec![Some(5000), None]);
    assert_eq!(data.domestic_voters, vec![Some(105000), None]);
    assert_eq!(data.ballots_returned, vec![Some(56000), None]);
    assert_eq!(data.participation, vec![Some("56.0".to_string()), Some("n.d.".to_string())]);
    assert_eq!(data.invalid_voting_ballots, vec![Some(400), None]);
    assert_eq!(data.blank_voting_ballots, vec![Some(600), None]);
    assert_eq!(data.valid_voting_ballots, vec![Some(55000), None]);
    assert_eq!(data.total_yes, vec![Some(27775), None]);
    assert_eq!(data.ratio_yes, vec![Some("50.5".to_string()), Some("88".to_string())]);
    assert_eq!(data.total_no, vec![Some(27225), None]);
    assert_eq!(data.ratio_no, vec![Some("49.5".to_string()), None]);
    assert_eq!(data.outcome, vec![Some("accepted".to_string()), Some("not accepted".to_string())]);

    let yes = data.cantons_voting_yes[0].as_ref().unwrap();
    assert_eq!(yes.whole, "12");
    assert_eq!(yes.fraction, Some(("5".to_string(), "2".to_string())));
    let no = data.cantons_voting_no[0].as_ref().unwrap();
    assert_eq!(no.whole, "8");
    assert_eq!(no.fraction, Some(("1".to_string(), "2".to_string())));
    let yes = data.cantons_voting_yes[1].as_ref().unwrap();
    assert_eq!(yes.whole, "20");
    assert_eq!(yes.fraction, Some(("6".to_string(), "2".to_string())));
    assert!(data.cantons_voting_no[1].is_none());
}

#[test]
fn page_that_was_not_asked_for_changes_nothing() {
    let mut run = Extraction::new(summary_of_two_votes());
    run = run.receive(SECOND_PAGE);
    run = run.receive(SECOND_PAGE);
    assert_eq!(run.next_request(), None);
    run = run.receive(FIRST_PAGE);
    assert_eq!(run.records(), 2);
    assert_eq!(run.next_request(), None);
    let data = run.into_data();
    assert_eq!(data.no.len(), 2);
    assert_eq!(data.outcome.len(), 2);
}

#[test]
fn shorter_index_in_another_language_leaves_titles_empty() {
    let one_vote = "<table><tr><th>Data</th></tr>\
        <tr><td><a href=\"x\">09.02.2014</a></td><td><a href=\"y\">Volksinitiative</a></td></tr></table>";
    let summary = extract_information_from_summary_page(
        &index_of_two_votes("Iniziativa popolare", "Decreto federale"),
        one_vote,
        "",
    )
    .unwrap();
    let mut run = Extraction::new(summary);
    assert_eq!(run.votes(), 2);
    run = run.receive(SECOND_PAGE);
    run = run.receive(SECOND_PAGE);
    assert_eq!(run.next_request(), None);
    let data = run.into_data();
    assert_eq!(data.no, vec![Some(580), Some(584)]);
    assert_eq!(data.title_it, vec!["Iniziativa popolare".to_string(), "Decreto federale".to_string()]);
    assert_eq!(data.title_de, vec!["Volksinitiative".to_string(), "".to_string()]);
    assert_eq!(data.title_fr, vec!["".to_string(), "".to_string()]);
    assert_eq!(data.kind, vec!["initiative".to_string(), "decree".to_string()]);
    assert_eq!(data.date_of_voting, vec!["2014-02-09".to_string(), "2014-05-18".to_string()]);
    assert_eq!(data.total_voters, vec![Some(5221519), Some(5221519)]);
}

#[test]
fn empty_index_asks_for_nothing() {
    let summary = extract_information_from_summary_page("", "", "").unwrap();
    let run = Extraction::new(summary);
    assert_eq!(run.votes(), 0);
    assert_eq!(run.next_request(), None);
    assert!(run.into_data().no.is_empty());
}

#[test]
fn supplement_without_the_marker_leaves_the_recommendation_absent() {
    let mut run = Extraction::new(summary_of_two_votes());
    run = run.receive(FIRST_PAGE);
    run = run.receive("<html><body><p>niente</p></body></html>");
    assert_eq!(run.records(), 1);
    let data = run.into_data();
    assert_eq!(data.recommendation, vec![None]);
    assert_eq!(data.total_voters, vec![Some(100000)]);
}

#[test]
fn record_is_built_from_the_index_and_the_table() {
    let summary = summary_of_two_votes();
    let cells: Vec<String> =
        ["Totale elettori", "1'000", "di cui Svizzeri all'estero", "x"].iter().map(|c| c.to_string()).collect();
    let table = scan_cells(&cells);
    let row = build_row(&summary, 1, &table, Some("accept".to_string()));
    assert_eq!(row.no, Some(584));
    assert_eq!(row.date_of_voting, "2014-05-18");
    assert_eq!(row.title_de, "Bundesbeschluss");
    assert_eq!(row.kind, "decree");
    assert_eq!(row.recommendation, Some("accept".to_string()));
    assert_eq!(row.total_voters, Some(1000));
    assert_eq!(row.overseas_voters, None);
    assert_eq!(row.domestic_voters, None);
    assert_eq!(row.outcome, Some("not accepted".to_string()));
}

#[test]
fn table_of_records_grows_by_one_line() {
    let mut data = Data::default();
    assert!(data.no.is_empty());
    let mut row = Row::default();
    row.no = Some(1);
    row.kind = "decree".to_string();
    data.update(row);
    let mut row = Row::default();
    row.no = Some(2);
    row.outcome = Some("accepted".to_string());
    data.update(row);
    assert_eq!(data.no, vec![Some(1), Some(2)]);
    assert_eq!(data.kind, vec!["decree".to_string(), "".to_string()]);
    assert_eq!(data.outcome, vec![None, Some("accepted".to_string())]);
    assert_eq!(data.date_of_voting.len(), 2);
    assert_eq!(data.title_it.len(), 2);
    assert_eq!(data.title_fr.len(), 2);
    assert_eq!(data.title_de.len(), 2);
    assert_eq!(data.recommendation.len(), 2);
    assert_eq!(data.total_voters.len(), 2);
    assert_eq!(data.domestic_voters.len(), 2);
    assert_eq!(data.overseas_voters.len(), 2);
    assert_eq!(data.ballots_returned.len(), 2);
    assert_eq!(data.participation.len(), 2);
    assert_eq!(data.invalid_voting_ballots.len(), 2);
    assert_eq!(data.blank_voting_ballots.len(), 2);
    assert_eq!(data.valid_voting_ballots.len(), 2);
    assert_eq!(data.total_yes.len(), 2);
    assert_eq!(data.ratio_yes.len(), 2);
    assert_eq!(data.total_no.len(), 2);
    assert_eq!(data.ratio_no.len(), 2);
    assert_eq!(data.cantons_voting_yes.len(), 2);
    assert_eq!(data.cantons_voting_no.len(), 2);
}

#[test]
fn scan_takes_the_cells_after_a_label() {
    let cells: Vec<String> = ["x", "Sì", "10", "60%", "No", "5"].iter().map(|c| c.to_string()).collect();
    let table: TableData = scan_cells(&cells);
    assert_eq!(table.get(Field::TotalYes), Some(&"10".to_string()));
    assert_eq!(table.get(Field::RatioYes), Some(&"60%".to_string()));
    assert_eq!(table.get(Field::TotalNo), Some(&"5".to_string()));
    assert_eq!(table.get(Field::RatioNo), None);
}

#[test]
fn scan_does_not_read_a_value_as_a_label() {
    let cells: Vec<String> =
        ["Totale elettori", "Bollettini rientrati", "5", "nulle"].iter().map(|c| c.to_string()).collect();
    let table = scan_cells(&cells);
    assert_eq!(table.get(Field::TotalVoters), Some(&"Bollettini rientrati".to_string()));
    assert_eq!(table.get(Field::BallotsReturned), None);
    assert_eq!(table.get(Field::InvalidVotingBallots), None);
}

#[test]
fn scan_matches_a_label_once() {
    let cells: Vec<String> =
        ["bianche", "1", "bianche", "nulle", "2"].iter().map(|c| c.to_string()).collect();
    let table = scan_cells(&cells);
    assert_eq!(table.get(Field::BlankVotingBallots), Some(&"1".to_string()));
    assert_eq!(table.get(Field::InvalidVotingBallots), Some(&"2".to_string()));
}

#[test]
fn scan_of_no_cells_finds_nothing() {
    let table = scan_cells(&Vec::new());
    assert_eq!(table.get(Field::TotalVoters), None);
    assert_eq!(table.get(Field::CantonsVotingNo), None);
}
