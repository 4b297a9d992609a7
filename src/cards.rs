//! Card model and deck construction.
use rand::seq::SliceRandom;
use vstd::prelude::*;

verus! {

/// One of the thirteen ranks, ordered from Ace (1) to King (13).
#[derive(Debug, Clone, Copy, PartialEq, Eq, Structural)]
pub enum Rank {
    Ace,
    Two,
    Three,
    Four,
    Five,
    Six,
    Seven,
    Eight,
    Nine,
    Ten,
    Jack,
    Queen,
    King,
}

/// The thirteen ranks in the order Ace..King.
pub open spec fn all_ranks() -> Seq<Rank> {
    seq![
        Rank::Ace,
        Rank::Two,
        Rank::Three,
        Rank::Four,
        Rank::Five,
        Rank::Six,
        Rank::Seven,
        Rank::Eight,
        Rank::Nine,
        Rank::Ten,
        Rank::Jack,
        Rank::Queen,
        Rank::King,
    ]
}

impl Rank {
    /// Numeric value of the rank: Ace is 1, King is 13.
    pub open spec fn value(self) -> nat {
        match self {
            Rank::Ace => 1,
            Rank::Two => 2,
            Rank::Three => 3,
            Rank::Four => 4,
            Rank::Five => 5,
            Rank::Six => 6,
            Rank::Seven => 7,
            Rank::Eight => 8,
            Rank::Nine => 9,
            Rank::Ten => 10,
            Rank::Jack => 11,
            Rank::Queen => 12,
            Rank::King => 13,
        }
    }

    pub fn as_u8(&self) -> (r: u8)
        ensures
            r as nat == self.value(),
    {
        match self {
            Rank::Ace => 1,
            Rank::Two => 2,
            Rank::Three => 3,
            Rank::Four => 4,
            Rank::Five => 5,
            Rank::Six => 6,
            Rank::Seven => 7,
            Rank::Eight => 8,
            Rank::Nine => 9,
            Rank::Ten => 10,
            Rank::Jack => 11,
            Rank::Queen => 12,
            Rank::King => 13,
        }
    }

    /// Every rank once, Ace first.
    pub fn list() -> (r: [Rank; 13])
        ensures
            r@ == all_ranks(),
    {
        let r = [
            Rank::Ace,
            Rank::Two,
            Rank::Three,
            Rank::Four,
            Rank::Five,
            Rank::Six,
            Rank::Seven,
            Rank::Eight,
            Rank::Nine,
            Rank::Ten,
            Rank::Jack,
            Rank::Queen,
            Rank::King,
        ];
        assert(r@ =~= all_ranks());
        r
    }
}


impl Rank {
    /// Decimal digits of the rank's value, as used in image keys.
    pub open spec fn digits(self) -> Seq<char> {
        match self {
            Rank::Ace => "1"@,
            Rank::Two => "2"@,
            Rank::Three => "3"@,
            Rank::Four => "4"@,
            Rank::Five => "5"@,
            Rank::Six => "6"@,
            Rank::Seven => "7"@,
            Rank::Eight => "8"@,
            Rank::Nine => "9"@,
            Rank::Ten => "10"@,
            Rank::Jack => "11"@,
            Rank::Queen => "12"@,
            Rank::King => "13"@,
        }
    }

    /// Short display label.
    pub open spec fn spec_label(self) -> Seq<char> {
        match self {
            Rank::Ace => "A"@,
            Rank::Two => "2"@,
            Rank::Three => "3"@,
            Rank::Four => "4"@,
            Rank::Five => "5"@,
            Rank::Six => "6"@,
            Rank::Seven => "7"@,
            Rank::Eight => "8"@,
            Rank::Nine => "9"@,
            Rank::Ten => "10"@,
            Rank::Jack => "J"@,
            Rank::Queen => "Q"@,
            Rank::King => "K"@,
        }
    }

    fn digits_str(&self) -> (r: &'static str)
        ensures
            r@ == self.digits(),
    {
        match self {
            Rank::Ace => "1",
            Rank::Two => "2",
            Rank::Three => "3",
            Rank::Four => "4",
            Rank::Five => "5",
            Rank::Six => "6",
            Rank::Seven => "7",
            Rank::Eight => "8",
            Rank::Nine => "9",
            Rank::Ten => "10",
            Rank::Jack => "11",
            Rank::Queen => "12",
            Rank::King => "13",
        }
    }

    /// Short display label: `A`, `2` .. `10`, `J`, `Q`, `K`.
    pub fn label(&self) -> (r: &'static str)
        ensures
            r@ == self.spec_label(),
    {
        match self {
            Rank::Ace => "A",
            Rank::Two => "2",
            Rank::Three => "3",
            Rank::Four => "4",
            Rank::Five => "5",
            Rank::Six => "6",
            Rank::Seven => "7",
            Rank::Eight => "8",
            Rank::Nine => "9",
            Rank::Ten => "10",
            Rank::Jack => "J",
            Rank::Queen => "Q",
            Rank::King => "K",
        }
    }
}

/// One of the four suits; Diamonds and Hearts are red, the others black.
#[derive(Debug, Clone, Copy, PartialEq, Eq, Structural)]
pub enum Suit {
    Clubs,
    Diamonds,
    Hearts,
    Spades,
}

/// The four suits in the order Clubs, Diamonds, Hearts, Spades.
pub open spec fn all_suits() -> Seq<Suit> {
    seq![Suit::Clubs, Suit::Diamonds, Suit::Hearts, Suit::Spades]
}

impl Suit {
    pub open spec fn spec_is_red(&self) -> bool {
        *self == Suit::Diamonds || *self == Suit::Hearts
    }

    /// Position of the suit in `all_suits()`.
    pub open spec fn index(self) -> nat {
        match self {
            Suit::Clubs => 0,
            Suit::Diamonds => 1,
            Suit::Hearts => 2,
            Suit::Spades => 3,
        }
    }

    /// Directory name of the suit's face images.
    pub open spec fn dir_name(self) -> Seq<char> {
        match self {
            Suit::Clubs => "Clubs"@,
            Suit::Diamonds => "Diamonds"@,
            Suit::Hearts => "Hearts"@,
            Suit::Spades => "Spades"@,
        }
    }

    /// One-letter suffix of the suit's face images.
    pub open spec fn letter(self) -> Seq<char> {
        match self {
            Suit::Clubs => "c"@,
            Suit::Diamonds => "d"@,
            Suit::Hearts => "h"@,
            Suit::Spades => "s"@,
        }
    }

    /// Lower-case display label.
    pub open spec fn spec_label(self) -> Seq<char> {
        match self {
            Suit::Clubs => "clubs"@,
            Suit::Diamonds => "diamonds"@,
            Suit::Hearts => "hearts"@,
            Suit::Spades => "spades"@,
        }
    }

    #[verifier::when_used_as_spec(spec_is_red)]
    pub fn is_red(&self) -> (r: bool)
        ensures
            r == self.spec_is_red(),
    {
        matches!(self, Suit::Diamonds | Suit::Hearts)
    }

    pub fn as_u8(&self) -> (r: u8)
        ensures
            r as nat == self.index(),
    {
        match self {
            Suit::Clubs => 0,
            Suit::Diamonds => 1,
            Suit::Hearts => 2,
            Suit::Spades => 3,
        }
    }

    /// Every suit once, Clubs first.
    pub fn list() -> (r: [Suit; 4])
        ensures
            r@ == all_suits(),
    {
        let r = [Suit::Clubs, Suit::Diamonds, Suit::Hearts, Suit::Spades];
        assert(r@ =~= all_suits());
        r
    }

    fn dir_str(&self) -> (r: &'static str)
        ensures
            r@ == self.dir_name(),
    {
        match self {
            Suit::Clubs => "Clubs",
            Suit::Diamonds => "Diamonds",
            Suit::Hearts => "Hearts",
            Suit::Spades => "Spades",
        }
    }

    fn letter_str(&self) -> (r: &'static str)
        ensures
            r@ == self.letter(),
    {
        match self {
            Suit::Clubs => "c",
            Suit::Diamonds => "d",
            Suit::Hearts => "h",
            Suit::Spades => "s",
        }
    }

    /// Lower-case display label: `clubs`, `diamonds`, `hearts`, `spades`.
    pub fn label(&self) -> (r: &'static str)
        ensures
            r@ == self.spec_label(),
    {
        match self {
            Suit::Clubs => "clubs",
            Suit::Diamonds => "diamonds",
            Suit::Hearts => "hearts",
            Suit::Spades => "spades",
        }
    }
}

/// A playing card and its two state flags.
///
/// A card is eligible for pickup while `playable && !face_up`; picking it up
/// clears `playable` and sets `face_up`, and neither flag changes afterwards.
#[derive(Debug, Clone, Copy, PartialEq, Eq, Structural)]
pub struct Card {
    pub rank: Rank,
    pub suit: Suit,
    pub face_up: bool,
    pub playable: bool,
}

/// Key of the image shown on a card's back.
pub open spec fn back_name() -> Seq<char> {
    "images/Back Blue.png"@
}

impl Card {
    /// Key of the face image: `images/<Suit>/<value><letter>.png`.
    pub open spec fn face_name(self) -> Seq<char> {
        "images/"@ + self.suit.dir_name() + "/"@ + self.rank.digits() + self.suit.letter()
            + ".png"@
    }

    /// The card accepts a pointer-driven pickup.
    pub open spec fn spec_is_eligible(self) -> bool {
        self.playable && !self.face_up
    }

    /// The card after its pickup: face up and no longer playable.
    pub open spec fn picked_up(self) -> Card {
        Card { face_up: true, playable: false, ..self }
    }

    /// Key of the image currently visible: the face once turned up, else the back.
    pub open spec fn visible_name(self) -> Seq<char> {
        if self.face_up {
            self.face_name()
        } else {
            back_name()
        }
    }

    /// `other` is one rank higher and of the opposite colour.
    pub open spec fn spec_can_stack(self, other: Card) -> bool {
        self.rank.value() + 1 == other.rank.value() && self.suit.spec_is_red()
            != other.suit.spec_is_red()
    }

    /// Display label `<rank>-<suit>`, such as `K-spades`.
    pub open spec fn spec_label(self) -> Seq<char> {
        self.rank.spec_label() + "-"@ + self.suit.spec_label()
    }

    pub fn face_resource_name(&self) -> (r: String)
        ensures
            r@ == self.face_name(),
    {
        let mut r = String::from_str("images/");
        r.append(self.suit.dir_str());
        r.append("/");
        r.append(self.rank.digits_str());
        r.append(self.suit.letter_str());
        r.append(".png");
        r
    }

    pub fn back_resource_name() -> (r: String)
        ensures
            r@ == back_name(),
    {
        String::from_str("images/Back Blue.png")
    }

    pub fn resource_name(&self) -> (r: String)
        ensures
            r@ == self.visible_name(),
    {
        if self.face_up {
            self.face_resource_name()
        } else {
            Self::back_resource_name()
        }
    }

    pub fn can_stack(&self, other: &Card) -> (r: bool)
        ensures
            r == self.spec_can_stack(*other),
    {
        self.rank.as_u8() + 1 == other.rank.as_u8() && self.suit.is_red() != other.suit.is_red()
    }

    /// `playable && !face_up`: the card accepts a pointer-driven pickup.
    pub fn is_eligible(&self) -> (r: bool)
        ensures
            r == self.spec_is_eligible(),
    {
        self.playable && !self.face_up
    }

    pub fn label(&self) -> (r: String)
        ensures
            r@ == self.spec_label(),
    {
        let mut r = String::from_str(self.rank.label());
        r.append("-");
        r.append(self.suit.label());
        r
    }
}


/// The 52 cards of the cross product, suits outer and ranks inner, all face
/// down and not yet playable.
pub open spec fn full_deck() -> Seq<Card> {
    Seq::new(
        52,
        |i: int|
            Card {
                rank: all_ranks()[i % 13],
                suit: all_suits()[i / 13],
                face_up: false,
                playable: false,
            },
    )
}

/// No two cards of `s` share both rank and suit.
pub open spec fn distinct_pairs(s: Seq<Card>) -> bool {
    forall|i: int, j: int|
        0 <= i < s.len() && 0 <= j < s.len() && i != j ==> (s[i].rank, s[i].suit) != (
        s[j].rank,
        s[j].suit,
        )
}

proof fn lemma_full_deck_no_duplicates()
    ensures
        full_deck().no_duplicates(),
{
    assert forall|a: int, b: int| 0 <= a < 13 && 0 <= b < 13 && a != b implies all_ranks()[a]
        != all_ranks()[b] by {}
    assert forall|a: int, b: int| 0 <= a < 4 && 0 <= b < 4 && a != b implies all_suits()[a]
        != all_suits()[b] by {}
    assert forall|i: int, j: int| 0 <= i < 52 && 0 <= j < 52 && i != j implies full_deck()[i]
        != full_deck()[j] by {
        assert(i == 13 * (i / 13) + i % 13);
        assert(j == 13 * (j / 13) + j % 13);
    }
}

/// A deck that is a permutation of the full deck holds every (rank, suit)
/// pair once, face down and not playable.
proof fn lemma_permutation_of_full_deck(deck: Seq<Card>)
    requires
        deck.to_multiset() == full_deck().to_multiset(),
    ensures
        deck.len() == 52,
        distinct_pairs(deck),
        forall|i: int| 0 <= i < deck.len() ==> !deck[i].face_up && !deck[i].playable,
{
    broadcast use vstd::seq_lib::group_to_multiset_ensures;

    lemma_full_deck_no_duplicates();
    full_deck().lemma_multiset_has_no_duplicates();
    deck.lemma_multiset_has_no_duplicates_conv();
    deck.to_multiset_ensures();
    full_deck().to_multiset_ensures();
    assert forall|i: int| 0 <= i < deck.len() implies !deck[i].face_up && !deck[i].playable by {
        assert(deck.to_multiset().count(deck[i]) > 0);
        assert(full_deck().to_multiset().count(deck[i]) > 0);
        let k = choose|k: int| 0 <= k < 52 && full_deck()[k] == deck[i];
    }
    assert forall|i: int, j: int|
        0 <= i < deck.len() && 0 <= j < deck.len() && i != j implies (deck[i].rank, deck[i].suit)
        != (deck[j].rank, deck[j].suit) by {
        assert(deck[i] != deck[j]);
    }
}

/// Relies on rand's `SliceRandom::shuffle`, driven by the thread-local
/// generator of `rand::rng`: it reorders the slice in place by swaps, so the
/// same cards come out in some order.
#[verifier::external_body]
fn shuffle_cards(deck: &mut Vec<Card>)
    ensures
        final(deck)@.to_multiset() == old(deck)@.to_multiset(),
{
    deck.shuffle(&mut rand::rng());
}

/// A freshly shuffled deck: every (rank, suit) pair exactly once, in random
/// order, all cards face down and not yet playable.
pub fn shuffle_deck() -> (deck: Vec<Card>)
    ensures
        deck@.len() == 52,
        deck@.to_multiset() == full_deck().to_multiset(),
        distinct_pairs(deck@),
        forall|i: int| 0 <= i < deck@.len() ==> !deck@[i].face_up && !deck@[i].playable,
{
    let mut deck: Vec<Card> = Vec::with_capacity(52);
    let suits = Suit::list();
    let ranks = Rank::list();
    let mut s: usize = 0;
    while s < 4
        invariant
            s <= 4,
            suits@ == all_suits(),
            ranks@ == all_ranks(),
            deck@ == full_deck().take(13 * s as int),
        decreases 4 - s,
    {
        let mut r: usize = 0;
        while r < 13
            invariant
                s < 4,
                r <= 13,
                suits@ == all_suits(),
                ranks@ == all_ranks(),
                deck@ == full_deck().take(13 * s as int + r as int),
            decreases 13 - r,
        {
            let ghost k: int = 13 * s as int + r as int;
            assert(k % 13 == r as int && k / 13 == s as int);
            deck.push(Card { rank: ranks[r], suit: suits[s], face_up: false, playable: false });
            assert(deck@ =~= full_deck().take(k + 1));
            r += 1;
        }
        s += 1;
    }
    assert(deck@ =~= full_deck());
    shuffle_cards(&mut deck);
    proof {
        lemma_permutation_of_full_deck(deck@);
    }
    deck
}

} // verus!
