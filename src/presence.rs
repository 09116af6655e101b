use vstd::prelude::*;

use crate::text::{decimal, decimal_of};

verus! {

/// How the chat client labels the displayed status.
#[derive(Clone, Copy, Debug, PartialEq, Eq, Structural)]
pub enum ActivityKind {
    Playing,
    Watching,
    Listening,
    Competing,
    Custom,
}

/// What the chat client should show next to the bot's name.
#[derive(Clone, Debug)]
pub struct Activity {
    pub kind: ActivityKind,
    pub text: String,
}

/// The number of whimsical messages shown for an empty server.
pub const ZERO_MESSAGE_COUNT: usize = 5;

/// The state carried from one poll to the next: the last player count that a
/// successful query reported, if any.
#[derive(Clone, Copy, Debug, PartialEq, Eq, Structural)]
pub struct PollerState {
    pub last_players: Option<u8>,
}

/// The text shown while `p` players are on the server.
pub open spec fn playing_text(p: u8) -> Seq<char> {
    if p == 1 {
        "Arma 3 with 1 player"@
    } else {
        "Arma 3 with "@ + decimal_of(p as nat) + " players"@
    }
}

/// The whimsical message with index `i < ZERO_MESSAGE_COUNT`.
pub open spec fn zero_message(i: nat) -> (ActivityKind, Seq<char>) {
    if i == 0 {
        (ActivityKind::Watching, "paint dry"@)
    } else if i == 1 {
        (ActivityKind::Listening, "infantry playing cards"@)
    } else if i == 2 {
        (ActivityKind::Watching, "a pot boil"@)
    } else if i == 3 {
        (ActivityKind::Competing, "a boredom competition"@)
    } else {
        (ActivityKind::Watching, "grass grow"@)
    }
}

/// The status shown while the server cannot be queried.
pub open spec fn offline_activity() -> (ActivityKind, Seq<char>) {
    (ActivityKind::Custom, "Arma 3 server is offline"@)
}

/// Whether a poll with this outcome (`None` for a failed query) changes the
/// displayed status, given the last known player count.
pub open spec fn emits(last: Option<u8>, outcome: Option<u8>) -> bool {
    match outcome {
        None => true,
        Some(p) => last != Some(p),
    }
}

/// The last known player count after a poll: a success records its count, a
/// failure forgets it, so that the first success after an outage always
/// updates the display.
pub open spec fn next_last(last: Option<u8>, outcome: Option<u8>) -> Option<u8> {
    match outcome {
        None => None,
        Some(p) => Some(p),
    }
}

/// The status a poll displays when it emits one; `pick` chooses the
/// whimsical message for an empty server in quirky mode.
pub open spec fn activity_for(outcome: Option<u8>, quirky: bool, pick: nat) -> (
    ActivityKind,
    Seq<char>,
) {
    match outcome {
        None => offline_activity(),
        Some(p) => if p == 0 && quirky {
            zero_message(pick)
        } else {
            (ActivityKind::Playing, playing_text(p))
        },
    }
}

/// The last known player count after a run of polls with these outcomes,
/// starting from the unknown state.
pub open spec fn last_after(outcomes: Seq<Option<u8>>) -> Option<u8>
    decreases outcomes.len(),
{
    if outcomes.len() == 0 {
        None
    } else {
        next_last(last_after(outcomes.drop_last()), outcomes.last())
    }
}

/// The outcomes of a run of successful polls with these player counts.
pub open spec fn successes(counts: Seq<u8>) -> Seq<Option<u8>> {
    counts.map_values(|p: u8| Some(p))
}

/// Over a run of successful polls, poll `i` changes the display exactly when
/// its player count differs from that of poll `i - 1`; the first poll always
/// changes it.
pub proof fn lemma_updates_follow_changes(counts: Seq<u8>, i: int)
    requires
        0 <= i < counts.len(),
    ensures
        emits(last_after(successes(counts.take(i))), Some(counts[i])) <==> (i == 0 || counts[i]
            != counts[i - 1]),
{
    let before = successes(counts.take(i));
    if i > 0 {
        assert(before.last() == Some(counts[i - 1]));
        assert(last_after(before) == Some(counts[i - 1]));
    } else {
        assert(before.len() == 0);
    }
}

/// Two successive successful polls with the same player count change the
/// display at most once, and exactly once when the count was not known before.
pub proof fn lemma_repeat_updates_once(last: Option<u8>, p: u8)
    ensures
        !emits(next_last(last, Some(p)), Some(p)),
        emits(last, Some(p)) <==> last != Some(p),
{
}

/// A failed poll always changes the display, and so does the first
/// successful poll after it, whatever count it reports.
pub proof fn lemma_outage_edges(last: Option<u8>, p: u8)
    ensures
        emits(last, None),
        emits(next_last(last, None), Some(p)),
{
}

/// Without quirky mode an empty server is shown in the plural form, whatever
/// message would have been picked.
pub proof fn lemma_empty_plain(pick: nat)
    ensures
        activity_for(Some(0u8), false, pick) == (ActivityKind::Playing, "Arma 3 with 0 players"@),
{
    reveal_strlit("Arma 3 with ");
    reveal_strlit(" players");
    reveal_strlit("Arma 3 with 0 players");
    assert(decimal_of(0) =~= seq!['0']);
    assert(playing_text(0) =~= "Arma 3 with 0 players"@);
}

/// One player is shown in the singular form.
pub proof fn lemma_single_player(quirky: bool, pick: nat)
    ensures
        activity_for(Some(1u8), quirky, pick) == (ActivityKind::Playing, "Arma 3 with 1 player"@),
{
}

impl Activity {
    pub open spec fn view(&self) -> (ActivityKind, Seq<char>) {
        (self.kind, self.text@)
    }
}

fn zero_message_activity(i: usize) -> (r: Activity)
    requires
        i < ZERO_MESSAGE_COUNT,
    ensures
        r.view() == zero_message(i as nat),
{
    if i == 0 {
        Activity { kind: ActivityKind::Watching, text: String::from_str("paint dry") }
    } else if i == 1 {
        Activity { kind: ActivityKind::Listening, text: String::from_str("infantry playing cards") }
    } else if i == 2 {
        Activity { kind: ActivityKind::Watching, text: String::from_str("a pot boil") }
    } else if i == 3 {
        Activity { kind: ActivityKind::Competing, text: String::from_str("a boredom competition") }
    } else {
        Activity { kind: ActivityKind::Watching, text: String::from_str("grass grow") }
    }
}

fn playing_activity(p: u8) -> (r: Activity)
    ensures
        r.view() == (ActivityKind::Playing, playing_text(p)),
{
    if p == 1 {
        Activity { kind: ActivityKind::Playing, text: String::from_str("Arma 3 with 1 player") }
    } else {
        let mut text = String::from_str("Arma 3 with ");
        let count = decimal(p);
        text.append(count.as_str());
        text.append(" players");
        Activity { kind: ActivityKind::Playing, text }
    }
}

/// Relies on rand's `thread_rng().gen_range`: a number drawn uniformly from
/// `0..n`, which panics only on an empty range.
#[verifier::external_body]
fn random_index(n: usize) -> (r: usize)
    requires
        n > 0,
    ensures
        r < n,
{
    rand::Rng::gen_range(&mut rand::thread_rng(), 0..n)
}

impl PollerState {
    /// The state before the first poll: no player count is known.
    pub fn new() -> (r: PollerState)
        ensures
            r.last_players == None::<u8>,
    {
        PollerState { last_players: None }
    }

    /// Decides one poll. `outcome` is the player count that the query
    /// reported, or `None` when it failed; `pick` selects the whimsical
    /// message shown for an empty server in quirky mode. Returns the status
    /// to display, or `None` when the display stays as it is.
    pub fn step(&mut self, outcome: Option<u8>, quirky: bool, pick: usize) -> (r: Option<Activity>)
        requires
            pick < ZERO_MESSAGE_COUNT,
        ensures
            final(self).last_players == next_last(old(self).last_players, outcome),
            r is Some <==> emits(old(self).last_players, outcome),
            r matches Some(a) ==> a.view() == activity_for(outcome, quirky, pick as nat),
    {
        let last = self.last_players;
        match outcome {
            None => {
                self.last_players = None;
                Some(Activity { kind: ActivityKind::Custom, text: String::from_str("Arma 3 server is offline") })
            },
            Some(p) => {
                self.last_players = Some(p);
                if last == Some(p) {
                    None
                } else if p == 0 && quirky {
                    Some(zero_message_activity(pick))
                } else {
                    Some(playing_activity(p))
                }
            },
        }
    }

    /// Decides one poll as `step` does, drawing the whimsical message for an
    /// empty server at random.
    pub fn poll(&mut self, outcome: Option<u8>, quirky: bool) -> (r: Option<Activity>)
        ensures
            final(self).last_players == next_last(old(self).last_players, outcome),
            r is Some <==> emits(old(self).last_players, outcome),
            r matches Some(a) ==> exists|i: nat|
                i < ZERO_MESSAGE_COUNT && a.view() == #[trigger] activity_for(outcome, quirky, i),
    {
        let pick = random_index(ZERO_MESSAGE_COUNT);
        self.step(outcome, quirky, pick)
    }
}

} // verus!
