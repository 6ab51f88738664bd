//! The decisions of the discovery and poll loop. The loop itself, with its
//! bus calls and sleeps, belongs to the caller: it reports what happened
//! and carries out what these functions answer.

use vstd::prelude::*;
use crate::backoff::{delay, delay_spec, lemma_delay_bounds, Timing};
use crate::status::PlayerStatus;
use crate::text::option_text;

verus! {

/// Whether a player is being tracked.
#[derive(Debug, Clone, Copy, PartialEq, Eq, Structural)]
pub enum Phase {
    Searching,
    Attached,
}

/// The loop's state as a mathematical value.
pub struct PollView {
    /// Bus identity of the tracked player, if any.
    pub player: Option<Seq<char>>,
    /// Searches that found nothing since the last attachment or detachment.
    pub times_tried: u32,
}

/// The loop's state: the identity of the tracked player and the count of
/// failed searches.
#[derive(Debug)]
pub struct PollState {
    pub player: Option<String>,
    pub times_tried: u32,
}

impl View for PollState {
    type V = PollView;

    open spec fn view(&self) -> PollView {
        PollView {
            player: match self.player {
                Some(p) => Some(p@),
                None => None,
            },
            times_tried: self.times_tried,
        }
    }
}

/// What to do with the result of a sampling attempt.
#[derive(Debug, PartialEq, Eq)]
pub enum SampleAction {
    /// No player is tracked: nothing was sampled and nothing is published.
    Skip,
    /// Publish this snapshot.
    Publish(PlayerStatus),
    /// Publish the absence of a snapshot, then probe whether the player is
    /// still running and report the answer.
    PublishNoneAndProbe,
}

/// What a search for a player came to.
#[derive(Debug, Clone, Copy, PartialEq, Eq, Structural)]
pub enum PlayerFindResult {
    /// A player other than the tracked one was found and is tracked now.
    NewPlayer,
    /// The tracked player was found again.
    SamePlayer,
    /// No player was found: sleep for `delay` microseconds before the next
    /// search, and first publish the absence of a snapshot if `clear_cache`.
    NotFound { delay: u64, clear_cache: bool },
}

/// The attempt count after one more failed search.
pub open spec fn one_more_try(times_tried: u32) -> u32 {
    if times_tried == u32::MAX {
        times_tried
    } else {
        (times_tried + 1) as u32
    }
}

/// The state after a search that resolved to `resolved`.
pub open spec fn state_after_search(state: PollView, resolved: Option<Seq<char>>) -> PollView {
    match resolved {
        Some(identity) => if state.player == Some(identity) {
            state
        } else {
            PollView { player: Some(identity), times_tried: 0 }
        },
        None => PollView { player: state.player, times_tried: one_more_try(state.times_tried) },
    }
}

/// The answer to a search that resolved to `resolved`.
pub open spec fn search_result(
    state: PollView,
    timing: Timing,
    resolved: Option<Seq<char>>,
) -> PlayerFindResult {
    match resolved {
        Some(identity) => if state.player == Some(identity) {
            PlayerFindResult::SamePlayer
        } else {
            PlayerFindResult::NewPlayer
        },
        None => PlayerFindResult::NotFound {
            delay: delay_spec(timing.min_delay, timing.max_delay, state.times_tried) as u64,
            clear_cache: state.player is None,
        },
    }
}

/// The state after a liveness probe answered `running`.
pub open spec fn state_after_probe(state: PollView, running: bool) -> PollView {
    if running {
        state
    } else {
        PollView { player: None, times_tried: 0 }
    }
}

impl PollState {
    /// The initial state: searching, with no failed search so far.
    pub fn new() -> (r: PollState)
        ensures
            r@ == (PollView { player: None, times_tried: 0 }),
    {
        PollState { player: None, times_tried: 0 }
    }

    pub open spec fn phase_spec(&self) -> Phase {
        if self.player is Some {
            Phase::Attached
        } else {
            Phase::Searching
        }
    }

    /// Attached while a player is tracked, searching otherwise.
    pub fn phase(&self) -> (r: Phase)
        ensures
            r == self.phase_spec(),
    {
        if self.player.is_some() {
            Phase::Attached
        } else {
            Phase::Searching
        }
    }

    /// Decides what to publish after a sampling attempt on the tracked
    /// player; `sample` is absent where the read failed.
    pub fn handle_status_request(&self, sample: Option<PlayerStatus>) -> (r: SampleAction)
        ensures
            self.player is None ==> r is Skip,
            self.player is Some && sample is None ==> r is PublishNoneAndProbe,
            self.player is Some && sample is Some ==> r is Publish && r->Publish_0@
                == sample.unwrap()@,
    {
        if self.player.is_none() {
            return SampleAction::Skip;
        }
        match sample {
            Some(status) => SampleAction::Publish(status),
            None => SampleAction::PublishNoneAndProbe,
        }
    }

    /// Takes the answer of a liveness probe: a player that no longer runs
    /// is let go and the attempt count starts over. Returns whether the
    /// player was let go.
    pub fn probed(&mut self, running: bool) -> (detached: bool)
        ensures
            final(self)@ == state_after_probe(old(self)@, running),
            detached == !running,
    {
        if !running {
            self.player = None;
            self.times_tried = 0;
        }
        !running
    }

    /// Takes the result of a search: `resolved` is the bus identity of the
    /// player that the search came to, absent where none was found or the
    /// bus could not be asked. A player other than the tracked one is
    /// tracked from now on and the attempt count starts over. Where none
    /// was found the count grows by one, up to its limit, and the answer
    /// carries the delay for the count as it was; a tracked player stays
    /// tracked, and only while none is tracked is the cache to be cleared.
    pub fn find_player(
        &mut self,
        timing: &Timing,
        resolved: Option<String>,
    ) -> (r: PlayerFindResult)
        requires
            timing.wf(),
        ensures
            final(self)@ == state_after_search(old(self)@, option_text(resolved)),
            r == search_result(old(self)@, *timing, option_text(resolved)),
    {
        match resolved {
            Some(identity) => {
                let same = match &self.player {
                    Some(current) => *current == identity,
                    None => false,
                };
                if same {
                    PlayerFindResult::SamePlayer
                } else {
                    self.player = Some(identity);
                    self.times_tried = 0;
                    PlayerFindResult::NewPlayer
                }
            },
            None => {
                let delay = delay(timing.min_delay, timing.max_delay, self.times_tried);
                let clear_cache = self.player.is_none();
                if self.times_tried < u32::MAX {
                    self.times_tried = self.times_tried + 1;
                }
                PlayerFindResult::NotFound { delay, clear_cache }
            },
        }
    }
}

/// Once a tracked player is found not to run any more, the loop is
/// searching again with no failed search counted, and a search that then
/// finds nothing waits for exactly the minimum delay.
pub proof fn lemma_detach_restarts_backoff(state: PollView, timing: Timing)
    requires
        timing.wf(),
    ensures
        state_after_probe(state, false).player is None,
        state_after_probe(state, false).times_tried == 0,
        search_result(state_after_probe(state, false), timing, None)
            == (PlayerFindResult::NotFound { delay: timing.min_delay, clear_cache: true }),
{
    lemma_delay_bounds(timing.min_delay, timing.max_delay, 0);
}

/// The attempt count starts over exactly when a player other than the
/// tracked one is attached; finding the same player leaves the state as it
/// was.
pub proof fn lemma_attach_resets_tries(state: PollView, identity: Seq<char>)
    ensures
        state.player != Some(identity) ==> state_after_search(state, Some(identity))
            == (PollView { player: Some(identity), times_tried: 0 }),
        state.player == Some(identity) ==> state_after_search(state, Some(identity)) == state,
{
}

} // verus!
