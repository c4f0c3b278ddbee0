//! Formula 1: standings, the calendar of the season and the result of the
//! last race, from the documents of the statistics provider.
//!
//! The number of rows is never assumed. It is read from the count that the
//! provider states in the document, and a row that is then not there is an
//! error.

use crate::api::{document_in, failure, ApiResult, ApiResultValue, ErrorKind};
use crate::column::{column_at, column_of, lemma_column_of_len, Column};
use crate::commands::util::generate_embed_message;
use crate::json::{
    extract_str, key, keys1, keys2, path1, path2, path_of, Json, JsonValue, Step, StepValue,
};
use crate::reply::{
    column_field, columns_have, Colour, EmbedValue, FieldValue, Reply, ReplyEmbed, ReplyValue,
};
use crate::text::{joined, parse_u8, parsed_u8};
use vstd::pervasive::unreached;
use vstd::prelude::*;

verus! {

/// Where the constructor standings are asked for.
pub const CONSTRUCTOR_STANDINGS_URL: &'static str =
    "https://ergast.com/api/f1/current/constructorStandings.json";

/// Where the driver standings are asked for.
pub const DRIVER_STANDINGS_URL: &'static str =
    "https://ergast.com/api/f1/current/driverStandings.json";

/// Where the races of the season, and their number, are asked for.
pub const SEASON_URL: &'static str = "https://ergast.com/api/f1/current.json";

/// Where the result of the last race is asked for.
pub const LAST_RESULTS_URL: &'static str = "https://ergast.com/api/f1/current/last/results.json";

/// The small picture of every Formula 1 reply.
pub const THUMBNAIL_URL: &'static str =
    "https://1000logos.net/wp-content/uploads/2020/02/F1-Logo-500x281.png";

/// The footer of every Formula 1 reply.
pub const FOOTER: &'static str = "Message formatting may appear inconsistent on smaller screens";

// ---------------------------------------------------------------------------
// Paths into the provider's documents
// ---------------------------------------------------------------------------

/// The path to the count of items that the provider states.
pub open spec fn total_path() -> Seq<StepValue> {
    seq![key("MRData"@), key("total"@)]
}

/// The path to a list of standings, by the name of the list.
pub open spec fn standings_path(list: Seq<char>) -> Seq<StepValue> {
    seq![
        key("MRData"@),
        key("StandingsTable"@),
        key("StandingsLists"@),
        StepValue::Index(0),
        key(list),
    ]
}

/// The path to the races of the season.
pub open spec fn races_path() -> Seq<StepValue> {
    seq![key("MRData"@), key("RaceTable"@), key("Races"@)]
}

/// The path to a member of the first race.
pub open spec fn first_race_path(member: Seq<char>) -> Seq<StepValue> {
    seq![key("MRData"@), key("RaceTable"@), key("Races"@), StepValue::Index(0), key(member)]
}

/// The path from a list of races to the year of the season.
pub open spec fn season_path() -> Seq<StepValue> {
    seq![StepValue::Index(0), key("season"@)]
}

fn path_total() -> (p: Vec<Step>)
    ensures
        path_of(p@) == total_path(),
{
    let mut p: Vec<Step> = Vec::new();
    p.push(Step::key("MRData"));
    p.push(Step::key("total"));
    assert(path_of(p@) =~= total_path());
    p
}

fn path_standings(list: &str) -> (p: Vec<Step>)
    ensures
        path_of(p@) == standings_path(list@),
{
    let mut p: Vec<Step> = Vec::new();
    p.push(Step::key("MRData"));
    p.push(Step::key("StandingsTable"));
    p.push(Step::key("StandingsLists"));
    p.push(Step::Index(0));
    p.push(Step::key(list));
    assert(path_of(p@) =~= standings_path(list@));
    p
}

fn path_races() -> (p: Vec<Step>)
    ensures
        path_of(p@) == races_path(),
{
    let mut p: Vec<Step> = Vec::new();
    p.push(Step::key("MRData"));
    p.push(Step::key("RaceTable"));
    p.push(Step::key("Races"));
    assert(path_of(p@) =~= races_path());
    p
}

fn path_first_race(member: &str) -> (p: Vec<Step>)
    ensures
        path_of(p@) == first_race_path(member@),
{
    let mut p: Vec<Step> = Vec::new();
    p.push(Step::key("MRData"));
    p.push(Step::key("RaceTable"));
    p.push(Step::key("Races"));
    p.push(Step::Index(0));
    p.push(Step::key(member));
    assert(path_of(p@) =~= first_race_path(member@));
    p
}

fn path_season() -> (p: Vec<Step>)
    ensures
        path_of(p@) == season_path(),
{
    let mut p: Vec<Step> = Vec::new();
    p.push(Step::Index(0));
    p.push(Step::key("season"));
    assert(path_of(p@) =~= season_path());
    p
}

// ---------------------------------------------------------------------------
// What the documents hold
// ---------------------------------------------------------------------------

/// The string at a path, or the kind of failure that its absence is.
pub open spec fn string_at(doc: JsonValue, path: Seq<StepValue>) -> Result<Seq<char>, ErrorKind> {
    match doc.extracted_str(path) {
        Ok(t) => Ok(t),
        Err(e) => Err(ErrorKind::of_extract(e)),
    }
}

/// A column of `n` rows, or the kind of failure of the first row that
/// fails.
pub open spec fn rows_at(
    doc: JsonValue,
    base: Seq<StepValue>,
    field: Seq<StepValue>,
    n: nat,
) -> Result<Seq<Seq<char>>, ErrorKind> {
    match column_of(doc, base, field, n) {
        Ok(rows) => Ok(rows),
        Err(e) => Err(ErrorKind::of_extract(e)),
    }
}

/// The count that the provider states: a string that writes a number below
/// 256. A string that writes none is a failure to decode.
pub open spec fn total_of(doc: JsonValue) -> Result<u8, ErrorKind> {
    match string_at(doc, total_path()) {
        Ok(t) => match parsed_u8(t) {
            Some(n) => Ok(n),
            None => Err(ErrorKind::Decode),
        },
        Err(k) => Err(k),
    }
}

/// Standings, as a mathematical value: the columns that are there.
pub struct StandingsValue {
    pub drivers: Option<Seq<Seq<char>>>,
    pub constructors: Option<Seq<Seq<char>>>,
    pub points: Option<Seq<Seq<char>>>,
}

/// The calendar of a season, as a mathematical value.
pub struct CalendarValue {
    pub season_year: Seq<char>,
    pub rounds: Seq<Seq<char>>,
    pub race_names: Seq<Seq<char>>,
    pub race_dates: Seq<Seq<char>>,
}

/// The constructor standings that a document holds: for each constructor
/// its name and its points, in the order of the provider.
pub open spec fn constructor_standings_of(doc: JsonValue) -> Result<StandingsValue, ErrorKind> {
    let base = standings_path("ConstructorStandings"@);
    match total_of(doc) {
        Err(k) => Err(k),
        Ok(n) => match rows_at(doc, base, keys2("Constructor"@, "name"@), n as nat) {
            Err(k) => Err(k),
            Ok(names) => match rows_at(doc, base, keys1("points"@), n as nat) {
                Err(k) => Err(k),
                Ok(points) => Ok(
                    StandingsValue { drivers: None, constructors: Some(names), points: Some(points) },
                ),
            },
        },
    }
}

/// The path from a driver's row to the name of the driver's first
/// constructor.
pub open spec fn first_constructor_path() -> Seq<StepValue> {
    seq![key("Constructors"@), StepValue::Index(0), key("name"@)]
}

/// The driver standings that a document holds: for each driver the family
/// name, the first constructor and the points.
pub open spec fn driver_standings_of(doc: JsonValue) -> Result<StandingsValue, ErrorKind> {
    let base = standings_path("DriverStandings"@);
    match total_of(doc) {
        Err(k) => Err(k),
        Ok(n) => match rows_at(doc, base, keys2("Driver"@, "familyName"@), n as nat) {
            Err(k) => Err(k),
            Ok(names) => match rows_at(doc, base, first_constructor_path(), n as nat) {
                Err(k) => Err(k),
                Ok(constructors) => match rows_at(doc, base, keys1("points"@), n as nat) {
                    Err(k) => Err(k),
                    Ok(points) => Ok(
                        StandingsValue {
                            drivers: Some(names),
                            constructors: Some(constructors),
                            points: Some(points),
                        },
                    ),
                },
            },
        },
    }
}

/// The path from a race's row to the country of its circuit.
pub open spec fn country_path() -> Seq<StepValue> {
    seq![key("Circuit"@), key("Location"@), key("country"@)]
}

/// The year of the season that a list of races belongs to: the season of
/// its first race.
pub open spec fn season_year_of(races: JsonValue) -> Result<Seq<char>, ErrorKind> {
    string_at(races, season_path())
}

/// The calendar that a document holds, for a season of `total_rounds`
/// races: the year, and for each race its round, the country and the date.
pub open spec fn season_calendar_of(doc: JsonValue, total_rounds: u8) -> Result<
    CalendarValue,
    ErrorKind,
> {
    let base = races_path();
    let n = total_rounds as nat;
    match doc.resolve(base) {
        Err(e) => Err(ErrorKind::of_extract(e)),
        Ok(races) => match season_year_of(races) {
            Err(k) => Err(k),
            Ok(year) => match rows_at(doc, base, keys1("round"@), n) {
                Err(k) => Err(k),
                Ok(rounds) => match rows_at(doc, base, country_path(), n) {
                    Err(k) => Err(k),
                    Ok(names) => match rows_at(doc, base, keys1("date"@), n) {
                        Err(k) => Err(k),
                        Ok(dates) => Ok(
                            CalendarValue {
                                season_year: year,
                                rounds,
                                race_names: names,
                                race_dates: dates,
                            },
                        ),
                    },
                },
            },
        },
    }
}

/// The result of the last race that a document holds: for each driver the
/// family name, the constructor and the points.
pub open spec fn recent_race_results_of(doc: JsonValue) -> Result<StandingsValue, ErrorKind> {
    let base = first_race_path("Results"@);
    match total_of(doc) {
        Err(k) => Err(k),
        Ok(n) => match rows_at(doc, base, keys2("Driver"@, "familyName"@), n as nat) {
            Err(k) => Err(k),
            Ok(names) => match rows_at(doc, base, keys2("Constructor"@, "name"@), n as nat) {
                Err(k) => Err(k),
                Ok(constructors) => match rows_at(doc, base, keys1("points"@), n as nat) {
                    Err(k) => Err(k),
                    Ok(points) => Ok(
                        StandingsValue {
                            drivers: Some(names),
                            constructors: Some(constructors),
                            points: Some(points),
                        },
                    ),
                },
            },
        },
    }
}

/// The name of the last race that a document holds.
pub open spec fn recent_race_name_of(doc: JsonValue) -> Result<Seq<char>, ErrorKind> {
    string_at(doc, first_race_path("raceName"@))
}

/// The rows of an optional column.
pub open spec fn opt_rows(c: Option<Column>) -> Option<Seq<Seq<char>>> {
    match c {
        Some(c) => Some(c@),
        None => None,
    }
}

/// Standings: a column for each of the drivers, the constructors and the
/// points, as far as the list has them.
#[derive(Debug, PartialEq, Eq)]
pub struct Standings {
    pub drivers: Option<Column>,
    pub constructors: Option<Column>,
    pub points: Option<Column>,
}

impl View for Standings {
    type V = StandingsValue;

    open spec fn view(&self) -> StandingsValue {
        StandingsValue {
            drivers: opt_rows(self.drivers),
            constructors: opt_rows(self.constructors),
            points: opt_rows(self.points),
        }
    }
}

/// The calendar of a season.
#[derive(Debug, PartialEq, Eq)]
pub struct SeasonCalendar {
    pub season_year: String,
    pub rounds: Column,
    pub race_names: Column,
    pub race_dates: Column,
}

impl View for SeasonCalendar {
    type V = CalendarValue;

    open spec fn view(&self) -> CalendarValue {
        CalendarValue {
            season_year: self.season_year@,
            rounds: self.rounds@,
            race_names: self.race_names@,
            race_dates: self.race_dates@,
        }
    }
}

/// Whether standings, as a function returns them, are the given
/// mathematical result.
pub open spec fn standings_result_is(
    r: Result<Standings, ErrorKind>,
    expected: Result<StandingsValue, ErrorKind>,
) -> bool {
    match r {
        Ok(s) => expected == Ok::<StandingsValue, ErrorKind>(s@),
        Err(k) => expected == Err::<StandingsValue, ErrorKind>(k),
    }
}

/// Whether a text, as a function returns it, is the given mathematical
/// result.
pub open spec fn string_result_is(
    r: Result<String, ErrorKind>,
    expected: Result<Seq<char>, ErrorKind>,
) -> bool {
    match r {
        Ok(s) => expected == Ok::<Seq<char>, ErrorKind>(s@),
        Err(k) => expected == Err::<Seq<char>, ErrorKind>(k),
    }
}

fn string_in(doc: &Json, path: &Vec<Step>) -> (r: Result<String, ErrorKind>)
    ensures
        string_result_is(r, string_at(doc@, path_of(path@))),
{
    match extract_str(doc, path) {
        Ok(t) => Ok(t),
        Err(e) => Err(ErrorKind::from_extract(e)),
    }
}

fn rows_in(doc: &Json, base: &Vec<Step>, field: &Vec<Step>, n: usize) -> (r: Result<
    Column,
    ErrorKind,
>)
    ensures
        match r {
            Ok(c) => rows_at(doc@, path_of(base@), path_of(field@), n as nat) == Ok::<
                Seq<Seq<char>>,
                ErrorKind,
            >(c@) && c@.len() == n,
            Err(k) => rows_at(doc@, path_of(base@), path_of(field@), n as nat) == Err::<
                Seq<Seq<char>>,
                ErrorKind,
            >(k),
        },
{
    proof {
        lemma_column_of_len(doc@, path_of(base@), path_of(field@), n as nat);
    }
    match column_at(doc, base, field, n) {
        Ok(c) => Ok(c),
        Err(e) => Err(ErrorKind::from_extract(e)),
    }
}

/// Reads the count that the provider states in a document.
pub fn get_total_rounds(doc: &Json) -> (r: Result<u8, ErrorKind>)
    ensures
        r == total_of(doc@),
{
    let path = path_total();
    match string_in(doc, &path) {
        Ok(t) => match parse_u8(t.as_str()) {
            Some(n) => Ok(n),
            None => Err(ErrorKind::Decode),
        },
        Err(k) => Err(k),
    }
}

/// Reads the constructor standings from a document.
pub fn get_constructor_standings(doc: &Json) -> (r: Result<Standings, ErrorKind>)
    ensures
        standings_result_is(r, constructor_standings_of(doc@)),
        r matches Ok(s) ==> s@.constructors is Some && s@.points is Some && s@.constructors->0.len()
            == s@.points->0.len(),
{
    let n = get_total_rounds(doc)? as usize;
    let base = path_standings("ConstructorStandings");
    let constructor_names = rows_in(doc, &base, &path2("Constructor", "name"), n)?;
    let constructor_points = rows_in(doc, &base, &path1("points"), n)?;
    Ok(
        Standings {
            drivers: None,
            constructors: Some(constructor_names),
            points: Some(constructor_points),
        },
    )
}

fn path_first_constructor() -> (p: Vec<Step>)
    ensures
        path_of(p@) == first_constructor_path(),
{
    let mut p: Vec<Step> = Vec::new();
    p.push(Step::key("Constructors"));
    p.push(Step::Index(0));
    p.push(Step::key("name"));
    assert(path_of(p@) =~= first_constructor_path());
    p
}

fn path_country() -> (p: Vec<Step>)
    ensures
        path_of(p@) == country_path(),
{
    let mut p: Vec<Step> = Vec::new();
    p.push(Step::key("Circuit"));
    p.push(Step::key("Location"));
    p.push(Step::key("country"));
    assert(path_of(p@) =~= country_path());
    p
}

/// Whether all three columns are there and have the same number of rows.
pub open spec fn three_even(s: StandingsValue) -> bool {
    &&& s.drivers is Some
    &&& s.constructors is Some
    &&& s.points is Some
    &&& s.drivers->0.len() == s.constructors->0.len()
    &&& s.drivers->0.len() == s.points->0.len()
}

/// Reads the driver standings from a document.
pub fn get_driver_standings(doc: &Json) -> (r: Result<Standings, ErrorKind>)
    ensures
        standings_result_is(r, driver_standings_of(doc@)),
        r matches Ok(s) ==> three_even(s@),
{
    let n = get_total_rounds(doc)? as usize;
    let base = path_standings("DriverStandings");
    let driver_names = rows_in(doc, &base, &path2("Driver", "familyName"), n)?;
    let driver_constructors = rows_in(doc, &base, &path_first_constructor(), n)?;
    let driver_points = rows_in(doc, &base, &path1("points"), n)?;
    Ok(
        Standings {
            drivers: Some(driver_names),
            constructors: Some(driver_constructors),
            points: Some(driver_points),
        },
    )
}

/// Reads the year of the season from the list of its races.
pub fn get_season_year(info: &Json) -> (r: Result<String, ErrorKind>)
    ensures
        string_result_is(r, season_year_of(info@)),
{
    string_in(info, &path_season())
}

/// Reads the calendar of a season of `total_rounds` races from a document.
pub fn get_season_calendar(doc: &Json, total_rounds: u8) -> (r: Result<SeasonCalendar, ErrorKind>)
    ensures
        match r {
            Ok(c) => season_calendar_of(doc@, total_rounds) == Ok::<CalendarValue, ErrorKind>(c@)
                && c@.rounds.len() == total_rounds && c@.race_names.len() == total_rounds
                && c@.race_dates.len() == total_rounds,
            Err(k) => season_calendar_of(doc@, total_rounds) == Err::<CalendarValue, ErrorKind>(k),
        },
{
    let base = path_races();
    let n = total_rounds as usize;
    let info = match doc.at(&base) {
        Ok(info) => info,
        Err(e) => {
            return Err(ErrorKind::from_extract(e));
        },
    };
    let current_season = get_season_year(info)?;
    let season_rounds = rows_in(doc, &base, &path1("round"), n)?;
    let race_names = rows_in(doc, &base, &path_country(), n)?;
    let race_dates = rows_in(doc, &base, &path1("date"), n)?;
    Ok(
        SeasonCalendar {
            season_year: current_season,
            rounds: season_rounds,
            race_names,
            race_dates,
        },
    )
}

/// Reads the result of the last race from a document.
pub fn get_recent_race_results(doc: &Json) -> (r: Result<Standings, ErrorKind>)
    ensures
        standings_result_is(r, recent_race_results_of(doc@)),
        r matches Ok(s) ==> three_even(s@),
{
    let total_drivers = get_total_rounds(doc)? as usize;
    let base = path_first_race("Results");
    let driver_names = rows_in(doc, &base, &path2("Driver", "familyName"), total_drivers)?;
    let driver_constructors = rows_in(doc, &base, &path2("Constructor", "name"), total_drivers)?;
    let driver_points = rows_in(doc, &base, &path1("points"), total_drivers)?;
    Ok(
        Standings {
            drivers: Some(driver_names),
            constructors: Some(driver_constructors),
            points: Some(driver_points),
        },
    )
}

/// Reads the name of the last race from a document.
pub fn get_recent_race_name(doc: &Json) -> (r: Result<String, ErrorKind>)
    ensures
        string_result_is(r, recent_race_name_of(doc@)),
{
    string_in(doc, &path_first_race("raceName"))
}

// ---------------------------------------------------------------------------
// The replies
// ---------------------------------------------------------------------------

/// The rich message of every Formula 1 reply: dark red, with the small
/// picture and the footer, and the given title and fields.
pub open spec fn f1_embed(title: Seq<char>, fields: Seq<FieldValue>) -> EmbedValue {
    EmbedValue {
        title,
        colour: Colour::DarkRed,
        thumbnail: Some(THUMBNAIL_URL@),
        image: None,
        description: None,
        fields,
        footer: Some(FOOTER@),
    }
}

/// The reply to a request for the constructor standings.
pub open spec fn constructor_standings_reply(result: ApiResultValue) -> ReplyValue {
    match document_in(result) {
        Err(k) => failure(k),
        Ok(doc) => match constructor_standings_of(doc) {
            Err(k) => failure(k),
            Ok(s) => ReplyValue::Embed(
                f1_embed(
                    "Current Constructor Standings"@,
                    seq![
                        column_field("Constructor"@, s.constructors->0),
                        column_field("Points"@, s.points->0),
                    ],
                ),
            ),
        },
    }
}

/// The three fields of a list of drivers.
pub open spec fn driver_fields(s: StandingsValue) -> Seq<FieldValue> {
    seq![
        column_field("Name"@, s.drivers->0),
        column_field("Constructor"@, s.constructors->0),
        column_field("Points"@, s.points->0),
    ]
}

/// The reply to a request for the driver standings.
pub open spec fn driver_standings_reply(result: ApiResultValue) -> ReplyValue {
    match document_in(result) {
        Err(k) => failure(k),
        Ok(doc) => match driver_standings_of(doc) {
            Err(k) => failure(k),
            Ok(s) => ReplyValue::Embed(f1_embed("Current Driver Standings"@, driver_fields(s))),
        },
    }
}

/// The rich message that shows a calendar.
pub open spec fn calendar_embed(c: CalendarValue) -> EmbedValue {
    f1_embed(
        c.season_year + " Season Calendar"@,
        seq![
            column_field("Round"@, c.rounds),
            column_field("GP"@, c.race_names),
            column_field("Date"@, c.race_dates),
        ],
    )
}

/// The number of races that the request for it brought.
pub open spec fn bound_in(count: ApiResultValue) -> Result<u8, ErrorKind> {
    match document_in(count) {
        Err(k) => Err(k),
        Ok(counted) => total_of(counted),
    }
}

/// The calendar that two requests brought: `count` is what the request for
/// the number of races brought, `races` what the request for the races
/// brought.
pub open spec fn calendar_in(count: ApiResultValue, races: ApiResultValue) -> Result<
    CalendarValue,
    ErrorKind,
> {
    match bound_in(count) {
        Err(k) => Err(k),
        Ok(total_rounds) => match document_in(races) {
            Err(k) => Err(k),
            Ok(doc) => season_calendar_of(doc, total_rounds),
        },
    }
}

/// The reply to a request for the calendar.
pub open spec fn season_calendar_reply(count: ApiResultValue, races: ApiResultValue) -> ReplyValue {
    match calendar_in(count, races) {
        Err(k) => failure(k),
        Ok(c) => ReplyValue::Embed(calendar_embed(c)),
    }
}

/// The reply to a request for the result of the last race.
pub open spec fn recent_race_results_reply(result: ApiResultValue) -> ReplyValue {
    match document_in(result) {
        Err(k) => failure(k),
        Ok(doc) => match recent_race_results_of(doc) {
            Err(k) => failure(k),
            Ok(s) => match recent_race_name_of(doc) {
                Err(k) => failure(k),
                Ok(name) => ReplyValue::Embed(f1_embed(name + " Results"@, driver_fields(s))),
            },
        },
    }
}

fn embed(title: String) -> (e: ReplyEmbed)
    ensures
        e@ == f1_embed(title@, Seq::empty()),
{
    ReplyEmbed::new(title, Colour::DarkRed).thumbnail(THUMBNAIL_URL.to_owned()).footer(
        FOOTER.to_owned(),
    )
}

fn driver_embed(title: String, standings: Standings) -> (e: ReplyEmbed)
    requires
        three_even(standings@),
    ensures
        e@ == f1_embed(title@, driver_fields(standings@)),
{
    let e = embed(title);
    let ghost fields = driver_fields(standings@);
    match (standings.drivers, standings.constructors, standings.points) {
        (Some(drivers), Some(constructors), Some(points)) => {
            let e = e.inline_column("Name", drivers);
            let e = e.inline_column("Constructor", constructors);
            let e = e.inline_column("Points", points);
            assert(e@.fields =~= fields);
            e
        },
        _ => unreached(),
    }
}

/// Answers a request for the constructor standings, given what the request
/// to the provider brought: a rich message with the columns `Constructor`
/// and `Points`, or the text that tells of the failure.
pub fn constructor_standings(result: &ApiResult) -> (r: Reply)
    ensures
        r@ == constructor_standings_reply(result@),
{
    let doc = match result.document() {
        Ok(doc) => doc,
        Err(k) => {
            return k.reply();
        },
    };
    let standings = match get_constructor_standings(doc) {
        Ok(standings) => standings,
        Err(k) => {
            return k.reply();
        },
    };
    let ghost s = standings@;
    let e = embed("Current Constructor Standings".to_owned());
    match (standings.constructors, standings.points) {
        (Some(constructors), Some(points)) => {
            let e = e.inline_column("Constructor", constructors);
            let e = e.inline_column("Points", points);
            assert(e@.fields =~= seq![
                column_field("Constructor"@, s.constructors->0),
                column_field("Points"@, s.points->0),
            ]);
            generate_embed_message(e)
        },
        _ => unreached(),
    }
}

/// Answers a request for the driver standings, given what the request to
/// the provider brought: a rich message with the columns `Name`,
/// `Constructor` and `Points`, or the text that tells of the failure.
pub fn driver_standings(result: &ApiResult) -> (r: Reply)
    ensures
        r@ == driver_standings_reply(result@),
{
    let doc = match result.document() {
        Ok(doc) => doc,
        Err(k) => {
            return k.reply();
        },
    };
    match get_driver_standings(doc) {
        Ok(standings) => generate_embed_message(
            driver_embed("Current Driver Standings".to_owned(), standings),
        ),
        Err(k) => k.reply(),
    }
}

/// Reads the number of races of the season from what the request for it
/// brought. The request for the races is made only once this number is
/// there.
pub fn season_bound(count: &ApiResult) -> (r: Result<u8, ErrorKind>)
    ensures
        r == bound_in(count@),
{
    get_total_rounds(count.document()?)
}

fn calendar(count: &ApiResult, races: &ApiResult) -> (r: Result<SeasonCalendar, ErrorKind>)
    ensures
        match r {
            Ok(c) => calendar_in(count@, races@) == Ok::<CalendarValue, ErrorKind>(c@)
                && c@.rounds.len() == c@.race_names.len() && c@.rounds.len()
                == c@.race_dates.len(),
            Err(k) => calendar_in(count@, races@) == Err::<CalendarValue, ErrorKind>(k),
        },
{
    let total_rounds = season_bound(count)?;
    get_season_calendar(races.document()?, total_rounds)
}

/// Answers a request for the calendar of the season, given what the two
/// requests to the provider brought: first the one for the number of races,
/// then the one for the races. A rich message with the columns `Round`,
/// `GP` and `Date`, or the text that tells of the failure.
pub fn season_calendar(count: &ApiResult, races: &ApiResult) -> (r: Reply)
    ensures
        r@ == season_calendar_reply(count@, races@),
{
    let c = match calendar(count, races) {
        Ok(c) => c,
        Err(k) => {
            return k.reply();
        },
    };
    let ghost value = c@;
    let e = embed(joined(c.season_year.as_str(), " Season Calendar"));
    let e = e.inline_column("Round", c.rounds);
    let e = e.inline_column("GP", c.race_names);
    let e = e.inline_column("Date", c.race_dates);
    assert(e@.fields =~= calendar_embed(value).fields);
    generate_embed_message(e)
}

/// Answers a request for the result of the last race, given what the
/// request to the provider brought: a rich message with the columns `Name`,
/// `Constructor` and `Points`, titled with the name of the race, or the
/// text that tells of the failure.
pub fn recent_race_results(result: &ApiResult) -> (r: Reply)
    ensures
        r@ == recent_race_results_reply(result@),
{
    let doc = match result.document() {
        Ok(doc) => doc,
        Err(k) => {
            return k.reply();
        },
    };
    let standings = match get_recent_race_results(doc) {
        Ok(standings) => standings,
        Err(k) => {
            return k.reply();
        },
    };
    let race_name = match get_recent_race_name(doc) {
        Ok(race_name) => race_name,
        Err(k) => {
            return k.reply();
        },
    };
    generate_embed_message(driver_embed(joined(race_name.as_str(), " Results"), standings))
}

// ---------------------------------------------------------------------------
// Laws of the replies
// ---------------------------------------------------------------------------

/// The rows of a column that was read.
proof fn lemma_rows_at_len(doc: JsonValue, base: Seq<StepValue>, field: Seq<StepValue>, n: nat)
    ensures
        rows_at(doc, base, field, n) matches Ok(rows) ==> rows.len() == n,
{
    lemma_column_of_len(doc, base, field, n);
}

/// In every rich message that answers a Formula 1 command all columns have
/// the same number of rows: the number that the provider states.
pub proof fn law_columns_of_a_reply_are_even(count: ApiResultValue, result: ApiResultValue)
    ensures
        constructor_standings_reply(result) matches ReplyValue::Embed(e) ==> columns_have(
            e.fields,
            total_of(document_in(result)->Ok_0)->Ok_0 as nat,
        ),
        driver_standings_reply(result) matches ReplyValue::Embed(e) ==> columns_have(
            e.fields,
            total_of(document_in(result)->Ok_0)->Ok_0 as nat,
        ),
        recent_race_results_reply(result) matches ReplyValue::Embed(e) ==> columns_have(
            e.fields,
            total_of(document_in(result)->Ok_0)->Ok_0 as nat,
        ),
        season_calendar_reply(count, result) matches ReplyValue::Embed(e) ==> columns_have(
            e.fields,
            bound_in(count)->Ok_0 as nat,
        ),
{
    if document_in(result) is Ok {
        let doc = document_in(result)->Ok_0;
        if total_of(doc) is Ok {
            let n = total_of(doc)->Ok_0 as nat;
            let standings = standings_path("ConstructorStandings"@);
            lemma_rows_at_len(doc, standings, keys2("Constructor"@, "name"@), n);
            lemma_rows_at_len(doc, standings, keys1("points"@), n);
            let drivers = standings_path("DriverStandings"@);
            lemma_rows_at_len(doc, drivers, keys2("Driver"@, "familyName"@), n);
            lemma_rows_at_len(doc, drivers, first_constructor_path(), n);
            lemma_rows_at_len(doc, drivers, keys1("points"@), n);
            let results = first_race_path("Results"@);
            lemma_rows_at_len(doc, results, keys2("Driver"@, "familyName"@), n);
            lemma_rows_at_len(doc, results, keys2("Constructor"@, "name"@), n);
            lemma_rows_at_len(doc, results, keys1("points"@), n);
        }
        if bound_in(count) is Ok {
            let n = bound_in(count)->Ok_0 as nat;
            lemma_rows_at_len(doc, races_path(), keys1("round"@), n);
            lemma_rows_at_len(doc, races_path(), country_path(), n);
            lemma_rows_at_len(doc, races_path(), keys1("date"@), n);
        }
    }
}

} // verus!
