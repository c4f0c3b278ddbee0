use botcore::api::ErrorKind;
use botcore::commands::riot::{league_stats, summoner_name, Lookup, Mastery, Summoner, SHOWN};
use botcore::render::create_embed;
use botcore::reply::{Colour, FieldBody, Reply};

fn mastery(champion: &str, points: i32, level: i32) -> Mastery {
    Mastery { champion: champion.to_string(), points, level }
}

fn player() -> Summoner {
    Summoner { name: "Faker".to_string(), profile_icon_id: 4568 }
}

#[test]
fn league_stats_shows_the_three_best_masteries() {
    let lookup = Lookup::Found(
        player(),
        vec![
            mastery("Ahri", 512345, 7),
            mastery("Zed", 401000, 7),
            mastery("Le Blanc", 99, 5),
            mastery("Ryze", 50, 1),
        ],
    );
    let e = match league_stats(&lookup) {
        Reply::Embed(e) => e,
        Reply::Text(t) => panic!("expected a rich message, got the text {:?}", t),
    };
    assert_eq!(e.title(), "Faker's Stats");
    assert_eq!(e.colour(), Colour::DarkPurple);
    assert_eq!(
        e.thumbnail_url(),
        &Some("http://ddragon.leagueoflegends.com/cdn/10.20.1/img/profileicon/4568.png".to_string())
    );
    assert_eq!(e.description_text(), &Some("(WIP)".to_string()));
    assert_eq!(e.footer_text(), &None);
    assert_eq!(e.rows(), Some(3));
    let fields = e.fields();
    assert_eq!(fields.len(), 4);
    assert_eq!(fields[0].name, "**-Masteries-**");
    assert_eq!(fields[0].body, FieldBody::Note(":mage:".to_string()));
    assert!(!fields[0].inline);
    let labels: Vec<&str> = fields[1..].iter().map(|f| f.name.as_str()).collect();
    assert_eq!(labels, vec!["Champion", "Points", "Level"]);
    assert!(fields[1..].iter().all(|f| f.inline));

    let payload = create_embed(&e);
    let shown = payload.0.get("fields").unwrap().as_array().unwrap();
    assert_eq!(shown[1].get("value").unwrap().as_str(), Some("1) Ahri\n2) Zed\n3) Le Blanc\n"));
    assert_eq!(shown[2].get("value").unwrap().as_str(), Some("512345\n401000\n99\n"));
    assert_eq!(shown[3].get("value").unwrap().as_str(), Some("(7)\n(7)\n(5)\n"));
}

#[test]
fn league_stats_writes_negative_numbers_with_their_sign() {
    let lookup = Lookup::Found(
        Summoner { name: "N".to_string(), profile_icon_id: -1 },
        vec![mastery("A", -5, -2), mastery("B", 0, 0), mastery("C", i32::MAX, i32::MIN)],
    );
    let e = match league_stats(&lookup) {
        Reply::Embed(e) => e,
        Reply::Text(t) => panic!("expected a rich message, got the text {:?}", t),
    };
    assert_eq!(
        e.thumbnail_url(),
        &Some("http://ddragon.leagueoflegends.com/cdn/10.20.1/img/profileicon/-1.png".to_string())
    );
    match &e.fields()[2].body {
        FieldBody::Column(c) => assert_eq!(c.rows, vec!["-5", "0", "2147483647"]),
        FieldBody::Note(_) => panic!("expected a column"),
    }
    match &e.fields()[3].body {
        FieldBody::Column(c) => assert_eq!(c.rows, vec!["(-2)", "(0)", "(-2147483648)"]),
        FieldBody::Note(_) => panic!("expected a column"),
    }
}

#[test]
fn league_stats_with_fewer_masteries_than_are_shown_is_a_missing_field() {
    for n in 0..SHOWN {
        let masteries: Vec<Mastery> = (0..n).map(|i| mastery("A", i as i32, 1)).collect();
        assert_eq!(league_stats(&Lookup::Found(player(), masteries)), ErrorKind::FieldMissing.reply());
    }
    assert_eq!(SHOWN, 3);
}

#[test]
fn league_stats_of_an_unknown_player_says_so() {
    assert_eq!(
        league_stats(&Lookup::NotFound),
        Reply::Text("Could not find a summoner with that name".to_string())
    );
}

#[test]
fn league_stats_of_a_failed_look_up_is_a_failure_reply() {
    assert_eq!(league_stats(&Lookup::Failed), ErrorKind::Transport.reply());
}

#[test]
fn summoner_name_is_the_first_argument() {
    assert_eq!(
        summoner_name(&vec!["Faker".to_string(), "extra".to_string()]),
        Some("Faker".to_string())
    );
    assert_eq!(summoner_name(&Vec::new()), None);
}
