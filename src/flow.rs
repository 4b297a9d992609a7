//! The game-flow state machine: pending transition requests, the entry and exit
//! actions that deal and tear down the card objects, and the dispatch of
//! pointer and animation events to the live cards.
use crate::animator::{
    collect_card, count_after, event_matches, plan_after, pressed_card, CollectingCard,
    CollectionPlan,
};
use crate::cards::{distinct_pairs, shuffle_deck, Card};
use crate::state::{CardsCollected, GameState, DECK_SIZE};
use vstd::prelude::*;

verus! {

/// Every card of `cards` is eligible for pickup.
pub open spec fn all_eligible(cards: Seq<Card>) -> bool {
    forall|i: int| 0 <= i < cards.len() ==> #[trigger] cards[i].spec_is_eligible()
}

/// A freshly dealt board: the 52 distinct cards of a shuffled deck, in the
/// order they are taken off its top, each made playable.
pub fn deal_cards() -> (dealt: Vec<Card>)
    ensures
        dealt@.len() == DECK_SIZE,
        distinct_pairs(dealt@),
        all_eligible(dealt@),
{
    let mut deck = shuffle_deck();
    let ghost deck0 = deck@;
    let mut dealt: Vec<Card> = Vec::with_capacity(52);
    while deck.len() > 0
        invariant
            deck0.len() == 52,
            distinct_pairs(deck0),
            forall|i: int| 0 <= i < 52 ==> !deck0[i].face_up,
            deck@ == deck0.take(deck@.len() as int),
            dealt@.len() + deck@.len() == 52,
            forall|m: int|
                0 <= m < dealt@.len() ==> dealt@[m] == (Card {
                    playable: true,
                    ..deck0[51 - m]
                }),
        decreases deck@.len(),
    {
        let mut card = deck.pop().unwrap();
        card.playable = true;
        dealt.push(card);
        assert(deck@ =~= deck0.take(deck@.len() as int));
    }
    assert forall|i: int, j: int|
        0 <= i < dealt@.len() && 0 <= j < dealt@.len() && i != j implies (
        dealt@[i].rank,
        dealt@[i].suit,
    ) != (dealt@[j].rank, dealt@[j].suit) by {
        assert(deck0[51 - i] != deck0[51 - j] || 51 - i == 51 - j);
    }
    dealt
}

/// Where a card object stands in its pickup/collection protocol.
#[derive(Debug, Clone, Copy, PartialEq, Eq, Structural)]
pub enum CardPhase {
    /// Dealt face down; its pickup program is installed but not playing.
    Dealt,
    /// Picked up; its pickup program is playing.
    Rising,
    /// Its collection program has replaced the pickup program and is playing.
    Collecting,
    /// On the collected pile; no program remains.
    Stacked,
}

/// A card is in the `Dealt` phase exactly while it is eligible; in every later
/// phase it is face up and unplayable.
pub open spec fn phase_agrees(card: Card, phase: CardPhase) -> bool {
    if phase == CardPhase::Dealt {
        card.spec_is_eligible()
    } else {
        card.face_up && !card.playable
    }
}

/// `n` card objects, all just dealt.
fn dealt_phases(n: usize) -> (phases: Vec<CardPhase>)
    ensures
        phases@ == Seq::new(n as nat, |i: int| CardPhase::Dealt),
{
    let mut phases: Vec<CardPhase> = Vec::with_capacity(n);
    let mut i: usize = 0;
    while i < n
        invariant
            i <= n,
            phases@ == Seq::new(i as nat, |k: int| CardPhase::Dealt),
        decreases n - i,
    {
        phases.push(CardPhase::Dealt);
        i += 1;
        assert(phases@ =~= Seq::new(i as nat, |k: int| CardPhase::Dealt));
    }
    phases
}

/// The top-level game flow and the objects it owns.
pub struct GameFlow {
    /// The active state.
    pub state: GameState,
    /// A requested switch, applied at the next `apply_transition`.
    pub next: Option<GameState>,
    /// The live card objects; they exist while the game is dealt or played.
    pub cards: Vec<Card>,
    /// The protocol phase of each live card object, index for index.
    pub phases: Vec<CardPhase>,
    /// Cards collected in the current round.
    pub collected: CardsCollected,
}

impl GameFlow {
    /// The counter is below 52, no two live cards share rank and suit, each
    /// card has a phase, and a card is in the `Dealt` phase exactly while it
    /// is eligible; in every later phase it is face up and unplayable.
    pub open spec fn wf(&self) -> bool {
        &&& self.collected.0 < DECK_SIZE
        &&& distinct_pairs(self.cards@)
        &&& self.phases@.len() == self.cards@.len()
        &&& forall|i: int|
            0 <= i < self.cards@.len() ==> #[trigger] phase_agrees(self.cards@[i], self.phases@[i])
    }

    /// The flow in its initial `Loading` state, with nothing dealt or requested.
    pub fn new() -> (r: GameFlow)
        ensures
            r.wf(),
            r.state == GameState::Loading,
            r.next.is_none(),
            r.cards@.len() == 0,
            r.phases@.len() == 0,
            r.collected.0 == 0,
    {
        GameFlow {
            state: GameState::Loading,
            next: None,
            cards: Vec::new(),
            phases: Vec::new(),
            collected: CardsCollected(0),
        }
    }

    /// Schedules a switch to `state`; it happens at the next `apply_transition`.
    pub fn request(&mut self, state: GameState)
        ensures
            final(self).next == Some(state),
            final(self).state == old(self).state,
            final(self).cards@ == old(self).cards@,
            final(self).phases@ == old(self).phases@,
            final(self).collected.0 == old(self).collected.0,
    {
        self.next = Some(state);
    }

    /// Applies the pending request, if any, and returns the state entered.
    ///
    /// Leaving `Play` tears down every card object. Entering `Deal` deals 52
    /// fresh, eligible cards and requests `Play`.
    pub fn apply_transition(&mut self) -> (entered: Option<GameState>)
        requires
            old(self).wf(),
        ensures
            final(self).wf(),
            entered == old(self).next,
            final(self).collected.0 == old(self).collected.0,
            old(self).next.is_none() ==> final(self).state == old(self).state
                && final(self).next.is_none() && final(self).cards@ == old(self).cards@
                && final(self).phases@ == old(self).phases@,
            old(self).next.is_some() ==> final(self).state == old(self).next.unwrap(),
            old(self).next == Some(GameState::Deal) ==> final(self).cards@.len() == DECK_SIZE
                && all_eligible(final(self).cards@) && (forall|i: int|
                0 <= i < DECK_SIZE ==> #[trigger] final(self).phases@[i] == CardPhase::Dealt)
                && final(self).next == Some(GameState::Play),
            old(self).next.is_some() && old(self).next != Some(GameState::Deal)
                ==> final(self).next.is_none() && if old(self).state == GameState::Play {
                final(self).cards@.len() == 0 && final(self).phases@.len() == 0
            } else {
                final(self).cards@ == old(self).cards@ && final(self).phases@ == old(self).phases@
            },
    {
        match self.next {
            None => None,
            Some(target) => {
                self.next = None;
                if self.state == GameState::Play {
                    self.cards = Vec::new();
                    self.phases = Vec::new();
                }
                self.state = target;
                if target == GameState::Deal {
                    self.cards = deal_cards();
                    self.phases = dealt_phases(self.cards.len());
                    self.next = Some(GameState::Play);
                }
                Some(target)
            },
        }
    }

    /// A press on the start button, seen while the menu or the win screen is
    /// shown, requests a new deal; otherwise nothing changes.
    pub fn button_detector(&mut self, pressed: bool)
        ensures
            final(self).next == if pressed && (old(self).state == GameState::Menu
                || old(self).state == GameState::Win) {
                Some(GameState::Deal)
            } else {
                old(self).next
            },
            final(self).state == old(self).state,
            final(self).cards@ == old(self).cards@,
            final(self).phases@ == old(self).phases@,
            final(self).collected.0 == old(self).collected.0,
    {
        if pressed && (self.state == GameState::Menu || self.state == GameState::Win) {
            self.request(GameState::Deal);
        }
    }

    /// A press on the card object at `index`. An eligible (just dealt) card
    /// is picked up and starts rising; the press is ignored otherwise.
    /// Returns whether the card's pickup program is to be started.
    pub fn press(&mut self, index: usize) -> (started: bool)
        requires
            old(self).wf(),
            index < old(self).cards@.len(),
        ensures
            final(self).wf(),
            started == old(self).cards@[index as int].spec_is_eligible(),
            started == (old(self).phases@[index as int] == CardPhase::Dealt),
            started ==> final(self).cards@ == old(self).cards@.update(
                index as int,
                old(self).cards@[index as int].picked_up(),
            ) && final(self).phases@ == old(self).phases@.update(
                index as int,
                CardPhase::Rising,
            ),
            !started ==> final(self).cards@ == old(self).cards@ && final(self).phases@
                == old(self).phases@,
            final(self).state == old(self).state,
            final(self).next == old(self).next,
            final(self).collected.0 == old(self).collected.0,
    {
        assert(phase_agrees(self.cards@[index as int], self.phases@[index as int]));
        let mut card = self.cards[index];
        let started = pressed_card(&mut card);
        if started {
            self.cards.set(index, card);
            self.phases.set(index, CardPhase::Rising);
            assert forall|i: int, j: int|
                0 <= i < self.cards@.len() && 0 <= j < self.cards@.len() && i != j implies (
                self.cards@[i].rank,
                self.cards@[i].suit,
            ) != (self.cards@[j].rank, self.cards@[j].suit) by {
                assert(old(self).cards@[i].rank == self.cards@[i].rank);
                assert(old(self).cards@[j].suit == self.cards@[j].suit);
            }
        } else {
            assert(self.cards@[index as int] == card);
        }
        started
    }

    /// Hands a pickup completion event to every live card. The card it is
    /// addressed to, if any, is counted, moves on to its collection program,
    /// and is returned with that program; all other cards ignore it.
    pub fn pickup_finished(&mut self, event: &CollectingCard) -> (r: Option<
        (usize, CollectionPlan),
    >)
        requires
            old(self).wf(),
        ensures
            final(self).wf(),
            final(self).cards@ == old(self).cards@,
            final(self).state == old(self).state,
            final(self).next == old(self).next,
            match r {
                Some((k, plan)) => {
                    &&& k < old(self).cards@.len()
                    &&& event_matches(*event, old(self).cards@[k as int])
                    &&& plan == plan_after(old(self).collected.0 as nat)
                    &&& final(self).collected.0 == count_after(old(self).collected.0 as nat)
                    &&& final(self).phases@ == old(self).phases@.update(
                        k as int,
                        CardPhase::Collecting,
                    )
                },
                None => {
                    &&& forall|j: int|
                        0 <= j < old(self).cards@.len() ==> !event_matches(
                            *event,
                            #[trigger] old(self).cards@[j],
                        )
                    &&& final(self).collected.0 == old(self).collected.0
                    &&& final(self).phases@ == old(self).phases@
                },
            },
    {
        let ghost count0 = self.collected.0 as nat;
        let mut found: Option<(usize, CollectionPlan)> = None;
        let mut i: usize = 0;
        while i < self.cards.len()
            invariant
                i <= self.cards@.len(),
                self.cards@ == old(self).cards@,
                self.phases@ == old(self).phases@,
                self.state == old(self).state,
                self.next == old(self).next,
                distinct_pairs(self.cards@),
                self.collected.0 < DECK_SIZE,
                count0 == old(self).collected.0,
                match found {
                    Some((k, plan)) => k < i && event_matches(*event, self.cards@[k as int])
                        && plan == plan_after(count0) && self.collected.0 == count_after(count0),
                    None => (forall|j: int|
                        0 <= j < i ==> !event_matches(*event, #[trigger] self.cards@[j]))
                        && self.collected.0 == count0,
                },
            decreases self.cards@.len() - i,
        {
            if let Some((k, _)) = found {
                assert(!event_matches(*event, self.cards@[i as int])) by {
                    assert((self.cards@[k as int].rank, self.cards@[k as int].suit) != (
                        self.cards@[i as int].rank,
                        self.cards@[i as int].suit,
                    ));
                }
            }
            let r = collect_card(event, &self.cards[i], &mut self.collected);
            if let Some(plan) = r {
                found = Some((i, plan));
            }
            i += 1;
        }
        if let Some((k, _)) = found {
            self.phases.set(k, CardPhase::Collecting);
        }
        found
    }

    /// The collection program of the card object at `index` has run its
    /// course: the card lies on the pile, and the program that completed the
    /// round requests the win screen.
    pub fn collection_finished(&mut self, index: usize, plan: &CollectionPlan)
        requires
            old(self).wf(),
            index < old(self).cards@.len(),
            old(self).phases@[index as int] == CardPhase::Collecting,
        ensures
            final(self).wf(),
            final(self).phases@ == old(self).phases@.update(index as int, CardPhase::Stacked),
            final(self).next == if plan.signals_win {
                Some(GameState::Win)
            } else {
                old(self).next
            },
            final(self).state == old(self).state,
            final(self).cards@ == old(self).cards@,
            final(self).collected.0 == old(self).collected.0,
    {
        assert(phase_agrees(self.cards@[index as int], self.phases@[index as int]));
        self.phases.set(index, CardPhase::Stacked);
        assert forall|i: int| 0 <= i < self.cards@.len() implies #[trigger] phase_agrees(
            self.cards@[i],
            self.phases@[i],
        ) by {
            if i != index {
                assert(phase_agrees(old(self).cards@[i], old(self).phases@[i]));
            }
        }
        if plan.signals_win {
            self.request(GameState::Win);
        }
    }
}

} // verus!
