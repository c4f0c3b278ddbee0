use botcore::api::ErrorKind;
use botcore::dispatch::{
    command_table, dispatch, fallback, step, Action, Command, CommandCounter, Completion, Event,
    OptionKind, Phase, Route, PRESENCE,
};

fn command(name: &str, option: Option<&str>) -> Command {
    Command {
        name: name.to_string(),
        sub_option: option.map(|o| o.to_string()),
        arguments: Vec::new(),
    }
}

#[test]
fn dispatch_finds_the_handler_of_each_command() {
    assert_eq!(dispatch(&command("ping", None)), Route::Ping);
    assert_eq!(dispatch(&command("ping", Some("anything"))), Route::Ping);
    assert_eq!(dispatch(&command("ai", Some("prompt"))), Route::Prompt);
    assert_eq!(dispatch(&command("f1", Some("constructors"))), Route::Constructors);
    assert_eq!(dispatch(&command("f1", Some("drivers"))), Route::Drivers);
    assert_eq!(dispatch(&command("f1", Some("calendar"))), Route::Calendar);
    assert_eq!(dispatch(&command("f1", Some("recent_race_results"))), Route::RecentRaceResults);
}

#[test]
fn dispatch_of_an_unknown_option_is_invalid_option() {
    assert_eq!(dispatch(&command("f1", Some("teams"))), Route::InvalidOption);
    assert_eq!(dispatch(&command("f1", Some("prompt"))), Route::InvalidOption);
    assert_eq!(dispatch(&command("ai", Some("drivers"))), Route::InvalidOption);
    assert_eq!(dispatch(&command("ai", Some(""))), Route::InvalidOption);
    assert_eq!(dispatch(&command("f1", Some("Drivers"))), Route::InvalidOption);
}

#[test]
fn dispatch_without_an_option_is_invalid_option() {
    assert_eq!(dispatch(&command("f1", None)), Route::InvalidOption);
    assert_eq!(dispatch(&command("ai", None)), Route::InvalidOption);
}

#[test]
fn dispatch_of_an_unknown_command_is_not_implemented() {
    assert_eq!(dispatch(&command("pong", None)), Route::NotImplemented);
    assert_eq!(dispatch(&command("", None)), Route::NotImplemented);
    assert_eq!(dispatch(&command("F1", Some("drivers"))), Route::NotImplemented);
    assert_eq!(dispatch(&command("ping ", None)), Route::NotImplemented);
    assert_eq!(dispatch(&command("corgi", Some("prompt"))), Route::NotImplemented);
}

#[test]
fn fallback_texts_are_fixed() {
    assert_eq!(fallback(Route::NotImplemented), Some("Not implemented :(".to_string()));
    assert_eq!(fallback(Route::InvalidOption), Some("Invalid option".to_string()));
    for route in [
        Route::Ping,
        Route::Prompt,
        Route::Constructors,
        Route::Drivers,
        Route::Calendar,
        Route::RecentRaceResults,
    ] {
        assert_eq!(fallback(route), None);
    }
}

#[test]
fn a_new_counter_holds_zero_everywhere() {
    let c = CommandCounter::new();
    for name in ["ping", "ai", "f1", "other", ""] {
        assert_eq!(c.invocations(name), 0);
    }
}

#[test]
fn record_counts_under_the_name_of_the_command() {
    let mut c = CommandCounter::new();
    c.record("ping");
    c.record("f1");
    c.record("f1");
    c.record("ai");
    c.record("ai");
    c.record("ai");
    assert_eq!(c.invocations("ping"), 1);
    assert_eq!(c.invocations("f1"), 2);
    assert_eq!(c.invocations("ai"), 3);
    assert_eq!(c.invocations("unknown"), 0);
}

#[test]
fn unknown_names_share_one_entry() {
    let mut c = CommandCounter::new();
    c.record("pong");
    c.record("corgi");
    c.record("");
    assert_eq!(c.invocations("pong"), 3);
    assert_eq!(c.invocations("whatever"), 3);
    assert_eq!(c.invocations("ping"), 0);
    assert_eq!(c.invocations("ai"), 0);
    assert_eq!(c.invocations("f1"), 0);
}

#[test]
fn an_unknown_command_gets_the_fallback_and_touches_no_known_entry() {
    let mut counter = CommandCounter::new();
    counter.record("ping");
    let event = Event::Received(command("weather", Some("today")));
    let (phase, action) = step(Phase::Idle, &event, &mut counter);
    assert_eq!(phase, Phase::Dispatching);
    assert_eq!(action, Action::Run(Route::NotImplemented));
    assert_eq!(fallback(Route::NotImplemented), Some("Not implemented :(".to_string()));
    assert_eq!(counter.invocations("weather"), 1);
    assert_eq!(counter.invocations("ping"), 1);
    assert_eq!(counter.invocations("ai"), 0);
    assert_eq!(counter.invocations("f1"), 0);
}

#[test]
fn a_command_at_rest_starts_a_dispatch() {
    let mut counter = CommandCounter::new();
    let event = Event::Received(command("f1", Some("drivers")));
    let (phase, action) = step(Phase::Idle, &event, &mut counter);
    assert_eq!(phase, Phase::Dispatching);
    assert_eq!(action, Action::Run(Route::Drivers));
    assert_eq!(counter.invocations("f1"), 1);
}

#[test]
fn the_end_of_the_handler_leads_back_to_rest_however_it_ended() {
    let mut counter = CommandCounter::new();
    for completion in [Completion::Succeeded, Completion::Failed] {
        let (phase, action) = step(Phase::Dispatching, &Event::Completed(completion), &mut counter);
        assert_eq!(phase, Phase::Idle);
        assert_eq!(action, Action::Rest);
    }
    assert_eq!(counter.invocations("ping"), 0);
    assert_eq!(counter.invocations("other"), 0);
}

#[test]
fn events_that_do_not_belong_to_the_state_change_nothing() {
    let mut counter = CommandCounter::new();
    let (phase, action) =
        step(Phase::Dispatching, &Event::Received(command("ping", None)), &mut counter);
    assert_eq!(phase, Phase::Dispatching);
    assert_eq!(action, Action::Rest);
    assert_eq!(counter.invocations("ping"), 0);
    let (phase, action) = step(Phase::Idle, &Event::Completed(Completion::Failed), &mut counter);
    assert_eq!(phase, Phase::Idle);
    assert_eq!(action, Action::Rest);
}

#[test]
fn the_announced_commands_are_ping_f1_and_ai() {
    let table = command_table();
    let names: Vec<&str> = table.iter().map(|c| c.name).collect();
    assert_eq!(names, vec!["ping", "f1", "ai"]);
    assert!(table[0].options.is_empty());
    let parts: Vec<&str> = table[1].options.iter().map(|o| o.name).collect();
    assert_eq!(parts, vec!["constructors", "drivers", "calendar", "recent_race_results"]);
    assert!(table[1].options.iter().all(|o| o.kind == OptionKind::SubCommand));
    assert_eq!(table[2].options.len(), 1);
    assert_eq!(table[2].options[0].name, "prompt");
    assert_eq!(table[2].options[0].kind, OptionKind::Text);
    assert_eq!(table[2].options[0].description, "The text sent to OpenAI");
    assert_eq!(table[1].description, "Get the current F1 standings and calendar");
    assert_eq!(PRESENCE, "| Accepting slash commands!");
}

#[test]
fn every_announced_command_reaches_a_handler() {
    for c in command_table() {
        if c.options.is_empty() {
            assert_eq!(fallback(dispatch(&command(c.name, None))), None);
        }
        for o in &c.options {
            assert_eq!(fallback(dispatch(&command(c.name, Some(o.name)))), None);
        }
    }
}

#[test]
fn only_routes_without_a_handler_are_noted() {
    assert_eq!(Route::NotImplemented.noted(), Some(ErrorKind::UnknownCommand));
    assert_eq!(Route::InvalidOption.noted(), Some(ErrorKind::UnknownCommand));
    for route in [
        Route::Ping,
        Route::Prompt,
        Route::Constructors,
        Route::Drivers,
        Route::Calendar,
        Route::RecentRaceResults,
    ] {
        assert_eq!(route.noted(), None);
    }
}

#[test]
fn a_counter_stays_at_the_largest_count() {
    let mut c = CommandCounter::new();
    for _ in 0..1000 {
        c.record("ping");
    }
    assert_eq!(c.invocations("ping"), 1000);
    assert_eq!(c.invocations("x"), 0);
}
