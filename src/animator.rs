//! The per-card animation protocol: a pointer press starts the pickup program,
//! whose completion event replaces it with a collection program stacking the
//! card on the pile of collected cards.
use crate::cards::Card;
use crate::state::{CardsCollected, DECK_SIZE};
use vstd::prelude::*;

verus! {

/// Completion event of a pickup program, emitted at the end of its duration
/// and carrying the card it was built for.
#[derive(Debug, Clone, Copy, PartialEq, Eq, Structural)]
pub struct CollectingCard {
    pub card: Card,
}

/// The collection program to install on a card whose pickup has completed.
#[derive(Debug, Clone, Copy, PartialEq, Eq, Structural)]
pub struct CollectionPlan {
    /// Slot on the collected pile; the program's target height is
    /// `stack_slot * CARD_THICKNESS`.
    pub stack_slot: u8,
    /// The program also requests the `Win` state, shortly after its nominal
    /// duration, so that the last stacking motion completes first.
    pub signals_win: bool,
}

/// Kinds of pointer notification a card receives.
#[derive(Debug, Clone, Copy, PartialEq, Eq, Structural)]
pub enum PointerKind {
    Enter,
    Leave,
    Press,
    Release,
}

/// Surfaces that a card's back can show.
#[derive(Debug, Clone, Copy, PartialEq, Eq, Structural)]
pub enum BackSurface {
    /// The card's own back image.
    Plain,
    /// The highlighted back shown while an eligible card is pointed at.
    Highlighted,
}

/// The surface a pointer notification switches the card's back to, if any.
pub open spec fn spec_surface_on(card: Card, kind: PointerKind) -> Option<BackSurface> {
    match kind {
        PointerKind::Enter | PointerKind::Release => if card.spec_is_eligible() {
            Some(BackSurface::Highlighted)
        } else {
            None
        },
        PointerKind::Leave => Some(BackSurface::Plain),
        PointerKind::Press => None,
    }
}

/// The completion event is addressed to this card: same rank and suit, and the
/// card has already been picked up.
pub open spec fn event_matches(event: CollectingCard, card: Card) -> bool {
    card.rank == event.card.rank && card.suit == event.card.suit && !card.playable
        && card.face_up
}

/// The collection program built when `count` cards had been collected before.
pub open spec fn plan_after(count: nat) -> CollectionPlan {
    CollectionPlan { stack_slot: (count + 1) as u8, signals_win: count + 1 == DECK_SIZE }
}

/// The counter after one more collection: the 52nd starts a fresh round.
pub open spec fn count_after(count: nat) -> nat {
    if count + 1 == DECK_SIZE {
        0
    } else {
        count + 1
    }
}

/// Surface switch for a hover or release notification; presses are handled by
/// `pressed_card`.
pub fn surface_on(card: &Card, kind: PointerKind) -> (r: Option<BackSurface>)
    ensures
        r == spec_surface_on(*card, kind),
{
    match kind {
        PointerKind::Enter | PointerKind::Release => if card.is_eligible() {
            Some(BackSurface::Highlighted)
        } else {
            None
        },
        PointerKind::Leave => Some(BackSurface::Plain),
        PointerKind::Press => None,
    }
}

/// Reaction to a press on a card. An eligible card is turned face up and made
/// unplayable, and its pickup program is to be started (`true`); any other
/// card ignores the press and stays as it was.
pub fn pressed_card(card: &mut Card) -> (started: bool)
    ensures
        started == old(card).spec_is_eligible(),
        started ==> *final(card) == old(card).picked_up(),
        !started ==> *final(card) == *old(card),
{
    if card.is_eligible() {
        card.playable = false;
        card.face_up = true;
        true
    } else {
        false
    }
}

/// Reaction of one card to a pickup completion event. When the event is
/// addressed to the card, the counter is incremented first and the collection
/// program is built from the new count; the 52nd collection also requests the
/// win and resets the counter. Events for other cards are ignored.
pub fn collect_card(
    event: &CollectingCard,
    card: &Card,
    cards_collected: &mut CardsCollected,
) -> (r: Option<CollectionPlan>)
    requires
        old(cards_collected).0 < DECK_SIZE,
    ensures
        event_matches(*event, *card) ==> r == Some(plan_after(old(cards_collected).0 as nat))
            && final(cards_collected).0 == count_after(old(cards_collected).0 as nat),
        !event_matches(*event, *card) ==> r.is_none()
            && final(cards_collected).0 == old(cards_collected).0,
{
    if card.rank == event.card.rank && card.suit == event.card.suit && !card.playable
        && card.face_up {
        let count = cards_collected.increment();
        let signals_win = count >= DECK_SIZE;
        if signals_win {
            cards_collected.reset();
        }
        Some(CollectionPlan { stack_slot: count, signals_win })
    } else {
        None
    }
}


/// The counter after `n` further collections, starting from `count`.
pub open spec fn count_after_n(count: nat, n: nat) -> nat
    decreases n,
{
    if n == 0 {
        count
    } else {
        count_after(count_after_n(count, (n - 1) as nat))
    }
}

/// A press flips an eligible card exactly once: the picked-up card is no
/// longer eligible, so any later press on it is ignored.
pub proof fn lemma_pickup_happens_once(card: Card)
    requires
        card.spec_is_eligible(),
    ensures
        card.picked_up().face_up,
        !card.picked_up().playable,
        !card.picked_up().spec_is_eligible(),
        card.picked_up().picked_up() == card.picked_up(),
{
}

/// Within a round, every collection increments the counter by one and stacks
/// its card on the slot the new count names, so later cards stack strictly
/// higher.
pub proof fn lemma_later_collections_stack_higher(earlier: nat, later: nat)
    requires
        earlier < later < DECK_SIZE,
    ensures
        plan_after(earlier).stack_slot == earlier + 1,
        plan_after(later).stack_slot == later + 1,
        plan_after(earlier).stack_slot < plan_after(later).stack_slot,
{
}

/// Only the collection of the 52nd card requests the win, and it leaves the
/// counter at 0 for a fresh round.
pub proof fn lemma_win_only_on_last_card(count: nat)
    requires
        count < DECK_SIZE,
    ensures
        plan_after(count).signals_win <==> count + 1 == DECK_SIZE,
        count + 1 == DECK_SIZE ==> count_after(count) == 0,
        count + 1 < DECK_SIZE ==> count_after(count) == count + 1,
{
}

/// From a fresh counter, the first `n` collections of a round (`n` < 52)
/// leave it at `n` and none of them requests the win; the 52nd brings it back
/// to 0.
pub proof fn lemma_round_of_collections(n: nat)
    requires
        n <= DECK_SIZE,
    ensures
        n < DECK_SIZE ==> count_after_n(0, n) == n,
        forall|m: nat| m < n ==> !(#[trigger] plan_after(count_after_n(0, m))).signals_win
            || m + 1 == DECK_SIZE,
        n == DECK_SIZE ==> count_after_n(0, n) == 0,
    decreases n,
{
    if n > 0 {
        lemma_round_of_collections((n - 1) as nat);
        assert forall|m: nat| m < n implies !(#[trigger] plan_after(
            count_after_n(0, m),
        )).signals_win || m + 1 == DECK_SIZE by {
            if m < n - 1 {
            } else {
                lemma_round_of_collections(m);
            }
        }
    }
}

} // verus!
