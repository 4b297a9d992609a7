use card_pickup::cards::{shuffle_deck, Card, Rank, Suit};

fn card(rank: Rank, suit: Suit) -> Card {
    Card { rank, suit, face_up: false, playable: false }
}

#[test]
fn rank_values_run_from_ace_to_king() {
    let ranks = Rank::list();
    for (i, r) in ranks.iter().enumerate() {
        assert_eq!(r.as_u8() as usize, i + 1);
    }
    assert_eq!(Rank::Ace.as_u8(), 1);
    assert_eq!(Rank::King.as_u8(), 13);
    assert_eq!(Rank::Ten.label(), "10");
    assert_eq!(Rank::Queen.label(), "Q");
}

#[test]
fn suits_have_colours_and_indices() {
    assert_eq!(Suit::list(), [Suit::Clubs, Suit::Diamonds, Suit::Hearts, Suit::Spades]);
    assert!(!Suit::Clubs.is_red());
    assert!(Suit::Diamonds.is_red());
    assert!(Suit::Hearts.is_red());
    assert!(!Suit::Spades.is_red());
    assert_eq!(Suit::Hearts.as_u8(), 2);
    assert_eq!(Suit::Spades.label(), "spades");
}

#[test]
fn face_resource_names_follow_the_image_layout() {
    assert_eq!(card(Rank::King, Suit::Spades).face_resource_name(), "images/Spades/13s.png");
    assert_eq!(card(Rank::Ace, Suit::Diamonds).face_resource_name(), "images/Diamonds/1d.png");
    assert_eq!(card(Rank::Ten, Suit::Clubs).face_resource_name(), "images/Clubs/10c.png");
    assert_eq!(Card::back_resource_name(), "images/Back Blue.png");
}

#[test]
fn resource_name_depends_on_face_up() {
    let mut c = card(Rank::Seven, Suit::Hearts);
    assert_eq!(c.resource_name(), "images/Back Blue.png");
    c.face_up = true;
    assert_eq!(c.resource_name(), "images/Hearts/7h.png");
}

#[test]
fn can_stack_needs_next_rank_and_other_colour() {
    let six_clubs = card(Rank::Six, Suit::Clubs);
    assert!(six_clubs.can_stack(&card(Rank::Seven, Suit::Hearts)));
    assert!(!six_clubs.can_stack(&card(Rank::Seven, Suit::Spades)));
    assert!(!six_clubs.can_stack(&card(Rank::Eight, Suit::Hearts)));
    assert!(!card(Rank::Seven, Suit::Hearts).can_stack(&six_clubs));
}

#[test]
fn label_joins_rank_and_suit() {
    assert_eq!(card(Rank::King, Suit::Spades).label(), "K-spades");
    assert_eq!(card(Rank::Two, Suit::Diamonds).label(), "2-diamonds");
}

#[test]
fn eligibility_needs_playable_and_face_down() {
    let mut c = card(Rank::Ace, Suit::Clubs);
    assert!(!c.is_eligible());
    c.playable = true;
    assert!(c.is_eligible());
    c.face_up = true;
    assert!(!c.is_eligible());
}

#[test]
fn shuffled_deck_is_the_full_cross_product() {
    let deck = shuffle_deck();
    assert_eq!(deck.len(), 52);
    let mut seen = [[false; 13]; 4];
    for c in &deck {
        assert!(!c.face_up && !c.playable);
        let s = c.suit.as_u8() as usize;
        let r = c.rank.as_u8() as usize - 1;
        assert!(!seen[s][r]);
        seen[s][r] = true;
    }
    assert!(seen.iter().all(|row| row.iter().all(|b| *b)));
}

#[test]
fn repeated_shuffles_reorder_the_deck() {
    let first = shuffle_deck();
    let reordered = (0..5).any(|_| shuffle_deck() != first);
    assert!(reordered);
}
