//! The statistics of a player: the three champions that the player has
//! mastered best.

use crate::api::ErrorKind;
use crate::column::Column;
use crate::commands::util::{generate_embed_message, generate_message};
use crate::reply::{
    column_field, lemma_row_count_push, Colour, EmbedValue, FieldBodyValue, FieldValue, Reply,
    ReplyEmbed, ReplyValue,
};
use crate::text::{decimal, i64_text, joined, signed_decimal, u64_text};
use vstd::prelude::*;

verus! {

/// How many champions are shown.
pub const SHOWN: usize = 3;

/// What the platform knows of a player, as a mathematical value.
pub struct SummonerValue {
    pub name: Seq<char>,
    pub profile_icon_id: i32,
}

/// A player's mastery of a champion, as a mathematical value.
pub struct MasteryValue {
    pub champion: Seq<char>,
    pub points: i32,
    pub level: i32,
}

/// What the look-up of a player brought, as a mathematical value.
pub enum LookupValue {
    Failed,
    NotFound,
    Found(SummonerValue, Seq<MasteryValue>),
}

/// What the platform knows of a player.
#[derive(Debug, PartialEq, Eq)]
pub struct Summoner {
    pub name: String,
    pub profile_icon_id: i32,
}

impl View for Summoner {
    type V = SummonerValue;

    open spec fn view(&self) -> SummonerValue {
        SummonerValue { name: self.name@, profile_icon_id: self.profile_icon_id }
    }
}

/// A player's mastery of a champion.
#[derive(Debug, PartialEq, Eq)]
pub struct Mastery {
    /// The name of the champion.
    pub champion: String,
    pub points: i32,
    pub level: i32,
}

impl View for Mastery {
    type V = MasteryValue;

    open spec fn view(&self) -> MasteryValue {
        MasteryValue { champion: self.champion@, points: self.points, level: self.level }
    }
}

/// The values of a sequence of masteries.
pub open spec fn mastery_values(masteries: Seq<Mastery>) -> Seq<MasteryValue> {
    Seq::new(masteries.len(), |i: int| masteries[i]@)
}

/// What the look-up of a player brought.
#[derive(Debug, PartialEq, Eq)]
pub enum Lookup {
    /// The provider could not be reached.
    Failed,
    /// The provider knows no player of that name.
    NotFound,
    /// The player, and the masteries, best first.
    Found(Summoner, Vec<Mastery>),
}

impl View for Lookup {
    type V = LookupValue;

    open spec fn view(&self) -> LookupValue {
        match self {
            Lookup::Failed => LookupValue::Failed,
            Lookup::NotFound => LookupValue::NotFound,
            Lookup::Found(s, m) => LookupValue::Found(s@, mastery_values(m@)),
        }
    }
}

/// The row of the column `Champion` for the mastery at place `i`, counted
/// from zero: the place counted from one, a bracket, and the name.
pub open spec fn champion_row(i: nat, m: MasteryValue) -> Seq<char> {
    decimal(i + 1) + ") "@ + m.champion
}

/// The row of the column `Points`.
pub open spec fn points_row(m: MasteryValue) -> Seq<char> {
    signed_decimal(m.points as int)
}

/// The row of the column `Level`: the level in brackets.
pub open spec fn level_row(m: MasteryValue) -> Seq<char> {
    "("@ + signed_decimal(m.level as int) + ")"@
}

/// The first `n` rows of the column `Champion`.
pub open spec fn champion_rows(masteries: Seq<MasteryValue>, n: nat) -> Seq<Seq<char>> {
    Seq::new(n, |i: int| champion_row(i as nat, masteries[i]))
}

/// The first `n` rows of the column `Points`.
pub open spec fn points_rows(masteries: Seq<MasteryValue>, n: nat) -> Seq<Seq<char>> {
    Seq::new(n, |i: int| points_row(masteries[i]))
}

/// The first `n` rows of the column `Level`.
pub open spec fn level_rows(masteries: Seq<MasteryValue>, n: nat) -> Seq<Seq<char>> {
    Seq::new(n, |i: int| level_row(masteries[i]))
}

/// The address of the picture of a player.
pub open spec fn icon_url(icon: i32) -> Seq<char> {
    "http://ddragon.leagueoflegends.com/cdn/10.20.1/img/profileicon/"@ + signed_decimal(
        icon as int,
    ) + ".png"@
}

/// The rich message that shows a player's best masteries.
pub open spec fn stats_embed(s: SummonerValue, masteries: Seq<MasteryValue>) -> EmbedValue {
    EmbedValue {
        title: s.name + "'s Stats"@,
        colour: Colour::DarkPurple,
        thumbnail: Some(icon_url(s.profile_icon_id)),
        image: None,
        description: Some("(WIP)"@),
        fields: seq![
            FieldValue {
                name: "**-Masteries-**"@,
                body: FieldBodyValue::Note(":mage:"@),
                inline: false,
            },
            column_field("Champion"@, champion_rows(masteries, SHOWN as nat)),
            column_field("Points"@, points_rows(masteries, SHOWN as nat)),
            column_field("Level"@, level_rows(masteries, SHOWN as nat)),
        ],
        footer: None,
    }
}

/// The text that answers where the player is not known.
pub open spec fn not_found_text() -> Seq<char> {
    "Could not find a summoner with that name"@
}

/// The reply to a request for a player's statistics. A player with fewer
/// masteries than are shown lacks a row: that is a missing field.
pub open spec fn league_stats_reply(lookup: LookupValue) -> ReplyValue {
    match lookup {
        LookupValue::Failed => ReplyValue::Text(ErrorKind::Transport.text()),
        LookupValue::NotFound => ReplyValue::Text(not_found_text()),
        LookupValue::Found(s, masteries) => if masteries.len() < SHOWN {
            ReplyValue::Text(ErrorKind::FieldMissing.text())
        } else {
            ReplyValue::Embed(stats_embed(s, masteries))
        },
    }
}

/// The name of the player that a command asks for: its first argument.
pub fn summoner_name(arguments: &Vec<String>) -> (r: Option<String>)
    ensures
        match r {
            Some(name) => arguments@.len() > 0 && name@ == arguments@[0]@,
            None => arguments@.len() == 0,
        },
{
    if arguments.len() > 0 {
        Some(arguments[0].clone())
    } else {
        None
    }
}

/// Answers a request for a player's statistics, given what the look-up of
/// the player brought: a rich message with the columns `Champion`, `Points`
/// and `Level`, or a text.
pub fn league_stats(lookup: &Lookup) -> (r: Reply)
    ensures
        r@ == league_stats_reply(lookup@),
{
    let (summoner, masteries) = match lookup {
        Lookup::Failed => {
            return ErrorKind::Transport.reply();
        },
        Lookup::NotFound => {
            return generate_message("Could not find a summoner with that name".to_owned());
        },
        Lookup::Found(summoner, masteries) => (summoner, masteries),
    };
    if masteries.len() < SHOWN {
        return ErrorKind::FieldMissing.reply();
    }
    let ghost all = mastery_values(masteries@);
    let mut content_champion_name = Column::new();
    let mut content_champion_points = Column::new();
    let mut content_champion_level = Column::new();
    let mut i: usize = 0;
    while i < SHOWN
        invariant
            i <= SHOWN <= masteries.len(),
            all == mastery_values(masteries@),
            content_champion_name@ == champion_rows(all, i as nat),
            content_champion_points@ == points_rows(all, i as nat),
            content_champion_level@ == level_rows(all, i as nat),
        decreases SHOWN - i,
    {
        let mastery = &masteries[i];
        let place = joined(u64_text((i + 1) as u64).as_str(), ") ");
        content_champion_name.push(joined(place.as_str(), mastery.champion.as_str()));
        content_champion_points.push(i64_text(mastery.points as i64));
        let level = joined("(", i64_text(mastery.level as i64).as_str());
        content_champion_level.push(joined(level.as_str(), ")"));
        assert(content_champion_name@ =~= champion_rows(all, (i + 1) as nat));
        assert(content_champion_points@ =~= points_rows(all, (i + 1) as nat));
        assert(content_champion_level@ =~= level_rows(all, (i + 1) as nat));
        i += 1;
    }
    let icon = joined(
        "http://ddragon.leagueoflegends.com/cdn/10.20.1/img/profileicon/",
        i64_text(summoner.profile_icon_id as i64).as_str(),
    );
    let e = ReplyEmbed::new(joined(summoner.name.as_str(), "'s Stats"), Colour::DarkPurple)
        .thumbnail(joined(icon.as_str(), ".png"))
        .description("(WIP)".to_owned())
        .note("**-Masteries-**".to_owned(), ":mage:".to_owned(), false);
    proof {
        lemma_row_count_push(
            Seq::empty(),
            FieldValue {
                name: "**-Masteries-**"@,
                body: FieldBodyValue::Note(":mage:"@),
                inline: false,
            },
        );
    }
    let e = e.inline_column("Champion", content_champion_name);
    let e = e.inline_column("Points", content_champion_points);
    let e = e.inline_column("Level", content_champion_level);
    assert(e@.fields =~= stats_embed(summoner@, all).fields);
    generate_embed_message(e)
}

} // verus!
