use botcore::api::{receive, ApiResult, ErrorKind, Exchange, FailureKind, Format};
use botcore::column::Column;
use botcore::commands::f1::{
    constructor_standings, driver_standings, get_constructor_standings, get_driver_standings,
    get_recent_race_name, get_recent_race_results, get_season_calendar, get_season_year,
    get_total_rounds, recent_race_results, season_bound, season_calendar, FOOTER, THUMBNAIL_URL,
};
use botcore::decode::decode;
use botcore::json::Json;
use botcore::render::create_embed;
use botcore::reply::{Colour, FieldBody, Reply, ReplyEmbed};

const TEAMS: [(&str, &str); 10] = [
    ("Red Bull", "860"),
    ("Mercedes", "409"),
    ("Ferrari", "406"),
    ("McLaren", "302"),
    ("Aston Martin", "280"),
    ("Alpine F1 Team", "120"),
    ("Williams", "28"),
    ("AlphaTauri", "25"),
    ("Alfa Romeo", "16"),
    ("Haas F1 Team", "12"),
];

fn constructors_body(total: &str, teams: &[(&str, &str)]) -> String {
    let rows: Vec<String> = teams
        .iter()
        .enumerate()
        .map(|(i, (name, points))| {
            format!(
                "{{\"position\": \"{}\", \"points\": \"{}\", \"Constructor\": {{\"constructorId\": \"c{}\", \"name\": \"{}\"}}}}",
                i + 1,
                points,
                i,
                name
            )
        })
        .collect();
    format!(
        "{{\"MRData\": {{\"total\": \"{}\", \"StandingsTable\": {{\"season\": \"2023\", \"StandingsLists\": [{{\"round\": \"22\", \"ConstructorStandings\": [{}]}}]}}}}}}",
        total,
        rows.join(", ")
    )
}

fn answered(body: &str) -> ApiResult {
    receive(Exchange::Answered(200, body.to_string()), Format::Document)
}

fn embed_of(reply: Reply) -> ReplyEmbed {
    match reply {
        Reply::Embed(e) => e,
        Reply::Text(t) => panic!("expected a rich message, got the text {:?}", t),
    }
}

fn rows_of(e: &ReplyEmbed, i: usize) -> Vec<String> {
    match &e.fields()[i].body {
        FieldBody::Column(c) => c.rows.clone(),
        FieldBody::Note(t) => panic!("expected a column, got the note {:?}", t),
    }
}

fn strings(rows: &[&str]) -> Vec<String> {
    rows.iter().map(|r| r.to_string()).collect()
}

#[test]
fn constructor_standings_for_ten_constructors_have_ten_lines_in_provider_order() {
    let result = answered(&constructors_body("10", &TEAMS));
    let e = embed_of(constructor_standings(&result));
    assert_eq!(e.title(), "Current Constructor Standings");
    assert_eq!(e.colour(), Colour::DarkRed);
    assert_eq!(e.thumbnail_url(), &Some(THUMBNAIL_URL.to_string()));
    assert_eq!(e.footer_text(), &Some(FOOTER.to_string()));
    assert_eq!(e.fields().len(), 2);
    assert_eq!(e.fields()[0].name, "Constructor");
    assert_eq!(e.fields()[1].name, "Points");
    assert!(e.fields()[0].inline && e.fields()[1].inline);
    assert_eq!(e.rows(), Some(10));
    let names: Vec<String> = TEAMS.iter().map(|t| t.0.to_string()).collect();
    let points: Vec<String> = TEAMS.iter().map(|t| t.1.to_string()).collect();
    assert_eq!(rows_of(&e, 0), names);
    assert_eq!(rows_of(&e, 1), points);

    let payload = create_embed(&e);
    let fields = payload.0.get("fields").unwrap().as_array().unwrap();
    assert_eq!(fields.len(), 2);
    let constructor = fields[0].get("value").unwrap().as_str().unwrap();
    let score = fields[1].get("value").unwrap().as_str().unwrap();
    assert_eq!(constructor.matches('\n').count(), 10);
    assert_eq!(score.matches('\n').count(), 10);
    assert_eq!(
        constructor,
        "Red Bull\nMercedes\nFerrari\nMcLaren\nAston Martin\nAlpine F1 Team\nWilliams\nAlphaTauri\nAlfa Romeo\nHaas F1 Team\n"
    );
    assert_eq!(score, "860\n409\n406\n302\n280\n120\n28\n25\n16\n12\n");
}

#[test]
fn a_provider_that_answers_500_gives_a_failure_reply() {
    let result = receive(Exchange::Answered(500, "Internal Server Error".to_string()), Format::Document);
    assert_eq!(result, ApiResult::Failure(FailureKind::Transport, "status 500".to_string()));
    let text = Reply::Text("Did not receive a response from the provider :(".to_string());
    assert_eq!(constructor_standings(&result), text);
    assert_eq!(driver_standings(&result), text);
    assert_eq!(recent_race_results(&result), text);
    assert_eq!(season_calendar(&result, &result), text);
}

#[test]
fn a_provider_that_does_not_answer_gives_a_failure_reply() {
    let result = receive(Exchange::Unanswered("timed out".to_string()), Format::Document);
    assert_eq!(constructor_standings(&result), ErrorKind::Transport.reply());
}

#[test]
fn a_body_that_is_no_json_gives_a_failure_reply() {
    let result = answered("<html>Bad Gateway</html>");
    assert_eq!(constructor_standings(&result), ErrorKind::Decode.reply());
    let text = receive(Exchange::Answered(200, "{}".to_string()), Format::Text);
    assert_eq!(constructor_standings(&text), ErrorKind::Decode.reply());
}

#[test]
fn the_count_comes_from_the_document_and_not_from_a_literal() {
    let three = answered(&constructors_body("3", &TEAMS));
    let e = embed_of(constructor_standings(&three));
    assert_eq!(rows_of(&e, 0), strings(&["Red Bull", "Mercedes", "Ferrari"]));
    assert_eq!(rows_of(&e, 1), strings(&["860", "409", "406"]));
    let none = answered(&constructors_body("0", &TEAMS));
    let e = embed_of(constructor_standings(&none));
    assert_eq!(e.rows(), Some(0));
    assert_eq!(rows_of(&e, 0), Vec::<String>::new());
}

#[test]
fn a_count_beyond_the_list_is_a_missing_field_and_no_truncation() {
    let result = answered(&constructors_body("11", &TEAMS));
    assert_eq!(constructor_standings(&result), ErrorKind::FieldMissing.reply());
    let doc = decode(&constructors_body("11", &TEAMS)).unwrap();
    assert_eq!(get_constructor_standings(&doc), Err(ErrorKind::FieldMissing));
}

#[test]
fn get_total_rounds_reads_the_count() {
    let doc = decode("{\"MRData\": {\"total\": \"22\"}}").unwrap();
    assert_eq!(get_total_rounds(&doc), Ok(22));
    let doc = decode("{\"MRData\": {\"total\": \"255\"}}").unwrap();
    assert_eq!(get_total_rounds(&doc), Ok(255));
}

#[test]
fn get_total_rounds_reports_what_is_wrong_with_the_count() {
    let missing = decode("{\"MRData\": {}}").unwrap();
    assert_eq!(get_total_rounds(&missing), Err(ErrorKind::FieldMissing));
    let number = decode("{\"MRData\": {\"total\": 22}}").unwrap();
    assert_eq!(get_total_rounds(&number), Err(ErrorKind::TypeMismatch));
    let words = decode("{\"MRData\": {\"total\": \"many\"}}").unwrap();
    assert_eq!(get_total_rounds(&words), Err(ErrorKind::Decode));
    let large = decode("{\"MRData\": {\"total\": \"256\"}}").unwrap();
    assert_eq!(get_total_rounds(&large), Err(ErrorKind::Decode));
    let scalar = decode("{\"MRData\": \"x\"}").unwrap();
    assert_eq!(get_total_rounds(&scalar), Err(ErrorKind::TypeMismatch));
    assert_eq!(get_total_rounds(&Json::Null), Err(ErrorKind::TypeMismatch));
}

#[test]
fn get_constructor_standings_has_no_column_of_drivers() {
    let doc = decode(&constructors_body("2", &TEAMS)).unwrap();
    let s = get_constructor_standings(&doc).unwrap();
    assert_eq!(s.drivers, None);
    assert_eq!(s.constructors, Some(Column { rows: strings(&["Red Bull", "Mercedes"]) }));
    assert_eq!(s.points, Some(Column { rows: strings(&["860", "409"]) }));
}

fn drivers_body() -> String {
    "{\"MRData\": {\"total\": \"2\", \"StandingsTable\": {\"StandingsLists\": [{\"DriverStandings\": [\
     {\"points\": \"575\", \"Driver\": {\"givenName\": \"Max\", \"familyName\": \"Verstappen\"}, \"Constructors\": [{\"name\": \"Red Bull\"}]},\
     {\"points\": \"285\", \"Driver\": {\"givenName\": \"Sergio\", \"familyName\": \"Pérez\"}, \"Constructors\": [{\"name\": \"Red Bull\"}, {\"name\": \"Other\"}]}\
     ]}]}}}"
        .to_string()
}

#[test]
fn driver_standings_show_name_constructor_and_points() {
    let e = embed_of(driver_standings(&answered(&drivers_body())));
    assert_eq!(e.title(), "Current Driver Standings");
    assert_eq!(e.colour(), Colour::DarkRed);
    let labels: Vec<&str> = e.fields().iter().map(|f| f.name.as_str()).collect();
    assert_eq!(labels, vec!["Name", "Constructor", "Points"]);
    assert_eq!(rows_of(&e, 0), strings(&["Verstappen", "Pérez"]));
    assert_eq!(rows_of(&e, 1), strings(&["Red Bull", "Red Bull"]));
    assert_eq!(rows_of(&e, 2), strings(&["575", "285"]));
    assert_eq!(e.rows(), Some(2));
    assert_eq!(e.footer_text(), &Some(FOOTER.to_string()));
}

#[test]
fn get_driver_standings_reports_a_driver_without_constructor() {
    let doc = decode(
        "{\"MRData\": {\"total\": \"1\", \"StandingsTable\": {\"StandingsLists\": [{\"DriverStandings\": [\
         {\"points\": \"1\", \"Driver\": {\"familyName\": \"A\"}, \"Constructors\": []}]}]}}}",
    )
    .unwrap();
    assert_eq!(get_driver_standings(&doc), Err(ErrorKind::FieldMissing));
}

fn season_body(total: &str) -> String {
    format!(
        "{{\"MRData\": {{\"total\": \"{}\", \"RaceTable\": {{\"season\": \"2023\", \"Races\": [\
         {{\"season\": \"2023\", \"round\": \"1\", \"raceName\": \"Bahrain Grand Prix\", \"date\": \"2023-03-05\", \"Circuit\": {{\"Location\": {{\"country\": \"Bahrain\"}}}}}},\
         {{\"season\": \"2023\", \"round\": \"2\", \"raceName\": \"Saudi Arabian Grand Prix\", \"date\": \"2023-03-19\", \"Circuit\": {{\"Location\": {{\"country\": \"Saudi Arabia\"}}}}}},\
         {{\"season\": \"2023\", \"round\": \"3\", \"raceName\": \"Australian Grand Prix\", \"date\": \"2023-04-02\", \"Circuit\": {{\"Location\": {{\"country\": \"Australia\"}}}}}}\
         ]}}}}}}",
        total
    )
}

#[test]
fn season_calendar_shows_round_country_and_date() {
    let count = answered(&season_body("3"));
    let races = answered(&season_body("3"));
    let e = embed_of(season_calendar(&count, &races));
    assert_eq!(e.title(), "2023 Season Calendar");
    let labels: Vec<&str> = e.fields().iter().map(|f| f.name.as_str()).collect();
    assert_eq!(labels, vec!["Round", "GP", "Date"]);
    assert_eq!(rows_of(&e, 0), strings(&["1", "2", "3"]));
    assert_eq!(rows_of(&e, 1), strings(&["Bahrain", "Saudi Arabia", "Australia"]));
    assert_eq!(rows_of(&e, 2), strings(&["2023-03-05", "2023-03-19", "2023-04-02"]));
    assert_eq!(e.thumbnail_url(), &Some(THUMBNAIL_URL.to_string()));
}

#[test]
fn season_calendar_takes_its_bound_from_the_first_request() {
    let count = answered("{\"MRData\": {\"total\": \"2\"}}");
    let races = answered(&season_body("3"));
    let e = embed_of(season_calendar(&count, &races));
    assert_eq!(rows_of(&e, 0), strings(&["1", "2"]));
    let too_many = answered("{\"MRData\": {\"total\": \"4\"}}");
    assert_eq!(season_calendar(&too_many, &races), ErrorKind::FieldMissing.reply());
}

#[test]
fn season_calendar_reports_the_first_request_that_failed() {
    let down = receive(Exchange::Answered(502, String::new()), Format::Document);
    let races = answered(&season_body("3"));
    assert_eq!(season_calendar(&down, &races), ErrorKind::Transport.reply());
    let count = answered(&season_body("3"));
    let garbled = answered("{");
    assert_eq!(season_calendar(&count, &garbled), ErrorKind::Decode.reply());
    assert_eq!(season_calendar(&garbled, &down), ErrorKind::Decode.reply());
}

#[test]
fn get_season_calendar_reads_the_year_from_the_first_race() {
    let doc = decode(&season_body("3")).unwrap();
    let c = get_season_calendar(&doc, 1).unwrap();
    assert_eq!(c.season_year, "2023");
    assert_eq!(c.rounds.rows, strings(&["1"]));
    assert_eq!(c.race_names.rows, strings(&["Bahrain"]));
    assert_eq!(c.race_dates.rows, strings(&["2023-03-05"]));
    let empty = decode("{\"MRData\": {\"RaceTable\": {\"Races\": []}}}").unwrap();
    assert_eq!(get_season_calendar(&empty, 0), Err(ErrorKind::FieldMissing));
    let none = decode("{\"MRData\": {}}").unwrap();
    assert_eq!(get_season_calendar(&none, 0), Err(ErrorKind::FieldMissing));
}

#[test]
fn get_season_year_wants_a_string() {
    let races = decode("[{\"season\": \"2024\"}]").unwrap();
    assert_eq!(get_season_year(&races), Ok("2024".to_string()));
    let number = decode("[{\"season\": 2024}]").unwrap();
    assert_eq!(get_season_year(&number), Err(ErrorKind::TypeMismatch));
    let empty = decode("[]").unwrap();
    assert_eq!(get_season_year(&empty), Err(ErrorKind::FieldMissing));
}

fn results_body() -> String {
    "{\"MRData\": {\"total\": \"2\", \"RaceTable\": {\"Races\": [{\"raceName\": \"Abu Dhabi Grand Prix\", \"Results\": [\
     {\"points\": \"26\", \"Driver\": {\"familyName\": \"Verstappen\"}, \"Constructor\": {\"name\": \"Red Bull\"}},\
     {\"points\": \"18\", \"Driver\": {\"familyName\": \"Leclerc\"}, \"Constructor\": {\"name\": \"Ferrari\"}}\
     ]}]}}}"
        .to_string()
}

#[test]
fn recent_race_results_are_titled_with_the_race() {
    let e = embed_of(recent_race_results(&answered(&results_body())));
    assert_eq!(e.title(), "Abu Dhabi Grand Prix Results");
    let labels: Vec<&str> = e.fields().iter().map(|f| f.name.as_str()).collect();
    assert_eq!(labels, vec!["Name", "Constructor", "Points"]);
    assert_eq!(rows_of(&e, 0), strings(&["Verstappen", "Leclerc"]));
    assert_eq!(rows_of(&e, 1), strings(&["Red Bull", "Ferrari"]));
    assert_eq!(rows_of(&e, 2), strings(&["26", "18"]));
}

#[test]
fn get_recent_race_results_and_name_read_the_first_race() {
    let doc = decode(&results_body()).unwrap();
    let s = get_recent_race_results(&doc).unwrap();
    assert_eq!(s.drivers, Some(Column { rows: strings(&["Verstappen", "Leclerc"]) }));
    assert_eq!(s.constructors, Some(Column { rows: strings(&["Red Bull", "Ferrari"]) }));
    assert_eq!(s.points, Some(Column { rows: strings(&["26", "18"]) }));
    assert_eq!(get_recent_race_name(&doc), Ok("Abu Dhabi Grand Prix".to_string()));
    let nameless =
        decode("{\"MRData\": {\"total\": \"0\", \"RaceTable\": {\"Races\": [{\"Results\": []}]}}}").unwrap();
    assert_eq!(get_recent_race_name(&nameless), Err(ErrorKind::FieldMissing));
    assert_eq!(recent_race_results(&answered("{\"MRData\": {\"total\": \"0\", \"RaceTable\": {\"Races\": [{\"Results\": []}]}}}")), ErrorKind::FieldMissing.reply());
}

#[test]
fn the_same_document_gives_the_same_reply_every_time() {
    let result = answered(&constructors_body("10", &TEAMS));
    let first = constructor_standings(&result);
    let second = constructor_standings(&result);
    assert_eq!(first, second);
    let a = create_embed(&embed_of(first)).0;
    let b = create_embed(&embed_of(second)).0;
    assert_eq!(a, b);
}

#[test]
fn season_bound_reads_the_number_of_races_from_the_first_outcome() {
    assert_eq!(season_bound(&answered("{\"MRData\": {\"total\": \"23\"}}")), Ok(23));
    assert_eq!(season_bound(&answered("{}")), Err(ErrorKind::FieldMissing));
    assert_eq!(season_bound(&answered("nonsense")), Err(ErrorKind::Decode));
    let down = receive(Exchange::Unanswered("x".to_string()), Format::Document);
    assert_eq!(season_bound(&down), Err(ErrorKind::Transport));
}
