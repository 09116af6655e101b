use vstd::prelude::*;

use crate::colour::{fill_colour, lemma_colour_not_offline, offline, offline_colour, player_colour, Rgb};
use crate::text::{decimal, decimal_of};

verus! {

/// The result of one successful server query.
#[derive(Clone, Debug)]
pub struct ServerSnapshot {
    pub game: String,
    pub players: u8,
    pub max_players: u8,
}

/// How an on-demand query ended.
#[derive(Clone, Debug)]
pub enum InfoOutcome {
    /// The server answered in time.
    Online(ServerSnapshot),
    /// The query failed.
    Failed,
    /// The query did not finish before the deadline.
    TimedOut,
}

/// One labelled field of a reply.
#[derive(Clone, Debug)]
pub struct EmbedField {
    pub name: String,
    pub value: String,
    pub inline: bool,
}

/// A rich reply: everything but the timestamp, which the sender adds.
#[derive(Clone, Debug)]
pub struct Reply {
    pub title: String,
    pub description: String,
    pub colour: Rgb,
    pub fields: Vec<EmbedField>,
    pub footer: Option<String>,
    pub url: Option<String>,
}

/// What a reply holds, as plain values.
pub struct ReplyModel {
    pub title: Seq<char>,
    pub description: Seq<char>,
    pub colour: Rgb,
    pub fields: Seq<(Seq<char>, Seq<char>, bool)>,
    pub footer: Option<Seq<char>>,
    pub url: Option<Seq<char>>,
}

pub open spec fn opt_text(s: Option<String>) -> Option<Seq<char>> {
    match s {
        Some(t) => Some(t@),
        None => None,
    }
}

pub open spec fn field_model(f: EmbedField) -> (Seq<char>, Seq<char>, bool) {
    (f.name@, f.value@, f.inline)
}

impl Reply {
    pub open spec fn view(&self) -> ReplyModel {
        ReplyModel {
            title: self.title@,
            description: self.description@,
            colour: self.colour,
            fields: self.fields@.map_values(|f: EmbedField| field_model(f)),
            footer: opt_text(self.footer),
            url: opt_text(self.url),
        }
    }
}

pub open spec fn title_text() -> Seq<char> {
    "ArmA 3 Server Info"@
}

pub open spec fn online_text() -> Seq<char> {
    "The ArmA 3 server is running; details for how to join are in the <#1196289531842928791> channel."@
}

pub open spec fn offline_text() -> Seq<char> {
    "The ArmA 3 server doesn't appear to be running right now. Please bear with!"@
}

/// The footer that names the bot's version.
pub open spec fn footer_text(version: Option<Seq<char>>) -> Option<Seq<char>> {
    match version {
        Some(v) => Some("arma-3-status-bot "@ + v),
        None => None,
    }
}

/// The reply to an on-demand query with this outcome. A failure and a timeout
/// give the same reply; only a success links the repository.
pub open spec fn reply_for(
    outcome: InfoOutcome,
    version: Option<Seq<char>>,
    repo_url: Option<Seq<char>>,
) -> ReplyModel {
    match outcome {
        InfoOutcome::Online(s) => ReplyModel {
            title: title_text(),
            description: online_text(),
            colour: fill_colour(s.players as nat, s.max_players as nat),
            fields: seq![
                ("game"@, s.game@, false),
                ("players"@, decimal_of(s.players as nat), true),
                ("max players"@, decimal_of(s.max_players as nat), true),
            ],
            footer: footer_text(version),
            url: repo_url,
        },
        _ => ReplyModel {
            title: title_text(),
            description: offline_text(),
            colour: offline_colour(),
            fields: seq![],
            footer: footer_text(version),
            url: None,
        },
    }
}

/// A failed query and a timed-out one give the same reply, and a successful
/// query never gives it: its colour always differs from the offline colour.
pub proof fn lemma_offline_reply(
    s: ServerSnapshot,
    version: Option<Seq<char>>,
    repo_url: Option<Seq<char>>,
)
    ensures
        reply_for(InfoOutcome::Failed, version, repo_url) == reply_for(
            InfoOutcome::TimedOut,
            version,
            repo_url,
        ),
        reply_for(InfoOutcome::Online(s), version, repo_url).colour != reply_for(
            InfoOutcome::Failed,
            version,
            repo_url,
        ).colour,
{
    lemma_colour_not_offline(s.players, s.max_players);
}

fn field(name: &str, value: String, inline: bool) -> (f: EmbedField)
    ensures
        field_model(f) == (name@, value@, inline),
{
    EmbedField { name: String::from_str(name), value, inline }
}

fn footer(version: Option<String>) -> (r: Option<String>)
    ensures
        opt_text(r) == footer_text(opt_text(version)),
{
    match version {
        Some(v) => {
            let mut text = String::from_str("arma-3-status-bot ");
            text.append(v.as_str());
            Some(text)
        },
        None => None,
    }
}

/// Renders the reply to an on-demand query. `version` and `repo_url` are the
/// optional footer version and repository link.
pub fn info_reply(outcome: &InfoOutcome, version: Option<String>, repo_url: Option<String>) -> (r:
    Reply)
    ensures
        r.view() == reply_for(*outcome, opt_text(version), opt_text(repo_url)),
{
    let title = String::from_str("ArmA 3 Server Info");
    match outcome {
        InfoOutcome::Online(s) => {
            let mut fields: Vec<EmbedField> = Vec::new();
            fields.push(field("game", s.game.clone(), false));
            fields.push(field("players", decimal(s.players), true));
            fields.push(field("max players", decimal(s.max_players), true));
            let r = Reply {
                title,
                description: String::from_str(
                    "The ArmA 3 server is running; details for how to join are in the <#1196289531842928791> channel.",
                ),
                colour: player_colour(s.players, s.max_players),
                fields,
                footer: footer(version),
                url: repo_url,
            };
            assert(r.view().fields =~= reply_for(*outcome, opt_text(version), opt_text(repo_url)).fields);
            r
        },
        _ => {
            let r = Reply {
                title,
                description: String::from_str(
                    "The ArmA 3 server doesn't appear to be running right now. Please bear with!",
                ),
                colour: offline(),
                fields: Vec::new(),
                footer: footer(version),
                url: None,
            };
            assert(r.view().fields =~= Seq::<(Seq<char>, Seq<char>, bool)>::empty());
            r
        },
    }
}

} // verus!
