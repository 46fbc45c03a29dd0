use vstd::prelude::*;
use vstd::string::StringExecFns;

verus! {

/// What is kept between runs: the best score reached so far.
#[derive(Clone, Copy, Debug, PartialEq, Eq, Structural)]
pub struct PlayerData {
    pub highscore: i32,
}

/// Carries the final score of a round as a candidate for the highscore.
#[derive(Clone, Copy, Debug, PartialEq, Eq, Structural)]
pub struct HighScoreEvent(pub i32);

/// The decimal digits of a natural number.
pub open spec fn digits(n: nat) -> Seq<char>
    decreases n,
{
    if n < 10 {
        seq![(('0' as u8) + n as u8) as char]
    } else {
        digits(n / 10) + digits(n % 10)
    }
}

/// An integer written in decimal, with a leading minus sign when negative.
pub open spec fn decimal(n: int) -> Seq<char> {
    if n < 0 {
        seq!['-'] + digits((-n) as nat)
    } else {
        digits(n as nat)
    }
}

/// The text shown for a highscore.
pub open spec fn label(highscore: int) -> Seq<char> {
    "HIGHSCORE: "@ + decimal(highscore)
}

/// The highscore after a batch of candidates, taken in order: each one
/// above the current highscore replaces it, the others leave it as it is.
/// This is the largest of the old highscore and all candidates.
pub open spec fn after_events(highscore: int, events: Seq<HighScoreEvent>) -> int
    decreases events.len(),
{
    if events.len() == 0 {
        highscore
    } else if highscore >= events[0].0 {
        after_events(highscore, events.drop_first())
    } else {
        after_events(events[0].0 as int, events.drop_first())
    }
}

/// Relies on i32's ToString, by its Display impl: the number in decimal.
#[verifier::external_body]
fn i32_to_string(n: i32) -> (r: String)
    ensures
        r@ == decimal(n as int),
{
    n.to_string()
}

/// The text `HIGHSCORE: ` followed by the highscore.
pub fn highscore_text(player_data: &PlayerData) -> (r: String)
    ensures
        r@ == label(player_data.highscore as int),
{
    let mut s = String::from_str("HIGHSCORE: ");
    let n = i32_to_string(player_data.highscore);
    s.append(n.as_str());
    proof {
        reveal_strlit("HIGHSCORE: ");
    }
    s
}

/// Takes a batch of highscore candidates: the highscore becomes the largest
/// of itself and the candidates. Returns the new label when it changed.
pub fn highscore_event(events: &Vec<HighScoreEvent>, player_data: &mut PlayerData) -> (r: Option<
    String,
>)
    ensures
        final(player_data).highscore == after_events(old(player_data).highscore as int, events@),
        r is Some <==> final(player_data).highscore > old(player_data).highscore,
        r matches Some(s) ==> s@ == label(final(player_data).highscore as int),
{
    let ghost hs0 = old(player_data).highscore as int;
    let start = player_data.highscore;
    let mut i: usize = 0;
    assert(events@.skip(0) =~= events@);
    while i < events.len()
        invariant
            0 <= i <= events@.len(),
            after_events(player_data.highscore as int, events@.skip(i as int)) == after_events(
                hs0,
                events@,
            ),
            hs0 == old(player_data).highscore,
            start == old(player_data).highscore,
            player_data.highscore >= old(player_data).highscore,
        decreases events@.len() - i,
    {
        let score = events[i].0;
        assert(events@.skip(i as int).drop_first() =~= events@.skip(i + 1));
        if player_data.highscore < score {
            player_data.highscore = score;
        }
        i = i + 1;
    }
    assert(events@.skip(i as int).len() == 0);
    let changed = player_data.highscore != start;
    if changed {
        Some(highscore_text(player_data))
    } else {
        None
    }
}

/// The highscore after a batch is the maximum of the old highscore and all
/// candidates: it is at least each of them, and it is one of them.
pub proof fn lemma_highscore_is_max(highscore: int, events: Seq<HighScoreEvent>)
    ensures
        after_events(highscore, events) >= highscore,
        forall|k: int| 0 <= k < events.len() ==> after_events(highscore, events) >= events[k].0,
        after_events(highscore, events) == highscore || exists|k: int|
            0 <= k < events.len() && events[k].0 == after_events(highscore, events),
    decreases events.len(),
{
    if events.len() > 0 {
        let rest = events.drop_first();
        let next = if highscore >= events[0].0 {
            highscore
        } else {
            events[0].0 as int
        };
        lemma_highscore_is_max(next, rest);
        let a = after_events(highscore, events);
        assert(a == after_events(next, rest));
        assert forall|k: int| 0 <= k < events.len() implies a >= events[k].0 by {
            if k > 0 {
                assert(events[k] == rest[k - 1]);
            }
        }
        if a != highscore && a != next {
            let k = choose|k: int| 0 <= k < rest.len() && rest[k].0 == a;
            assert(events[k + 1] == rest[k]);
        }
    }
}

/// The highscore changes only when some candidate is strictly above it.
pub proof fn lemma_highscore_only_rises(highscore: int, events: Seq<HighScoreEvent>)
    ensures
        after_events(highscore, events) >= highscore,
        after_events(highscore, events) != highscore ==> exists|k: int|
            0 <= k < events.len() && events[k].0 == after_events(highscore, events) && events[k].0
                > highscore,
{
    lemma_highscore_is_max(highscore, events);
}

/// A single candidate replaces the highscore exactly when it is above it.
pub proof fn lemma_single_candidate(highscore: int, score: i32)
    ensures
        after_events(highscore, seq![HighScoreEvent(score)]) == if score > highscore {
            score as int
        } else {
            highscore
        },
{
    let e = seq![HighScoreEvent(score)];
    assert(e[0].0 == score);
    assert(e.drop_first().len() == 0);
    assert(after_events(score as int, e.drop_first()) == score);
    assert(after_events(highscore, e.drop_first()) == highscore);
}

} // verus!
