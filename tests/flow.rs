use card_pickup::animator::CollectingCard;
use card_pickup::flow::{deal_cards, CardPhase, GameFlow};
use card_pickup::state::GameState;

fn assert_fresh_deal(flow: &GameFlow) {
    assert_eq!(flow.cards.len(), 52);
    assert!(flow.phases.iter().all(|p| *p == CardPhase::Dealt));
    let mut seen = [[false; 13]; 4];
    for c in &flow.cards {
        assert!(c.playable && !c.face_up);
        let (s, r) = (c.suit.as_u8() as usize, c.rank.as_u8() as usize - 1);
        assert!(!seen[s][r]);
        seen[s][r] = true;
    }
}

#[test]
fn dealt_cards_are_distinct_and_eligible() {
    let cards = deal_cards();
    assert_eq!(cards.len(), 52);
    for (i, a) in cards.iter().enumerate() {
        assert!(a.is_eligible());
        for b in &cards[i + 1..] {
            assert!(a.rank != b.rank || a.suit != b.suit);
        }
    }
}

#[test]
fn default_state_is_loading() {
    assert_eq!(GameState::default(), GameState::Loading);
    let flow = GameFlow::new();
    assert_eq!(flow.state, GameState::Loading);
    assert_eq!(flow.next, None);
    assert!(flow.cards.is_empty());
    assert_eq!(flow.collected.0, 0);
}

#[test]
fn transitions_wait_for_apply() {
    let mut flow = GameFlow::new();
    assert_eq!(flow.apply_transition(), None);
    flow.request(GameState::Menu);
    assert_eq!(flow.state, GameState::Loading);
    assert_eq!(flow.apply_transition(), Some(GameState::Menu));
    assert_eq!(flow.state, GameState::Menu);
    assert_eq!(flow.next, None);
}

#[test]
fn start_button_only_works_in_menu_and_win() {
    let mut flow = GameFlow::new();
    flow.button_detector(true);
    assert_eq!(flow.next, None);
    flow.request(GameState::Menu);
    flow.apply_transition();
    flow.button_detector(false);
    assert_eq!(flow.next, None);
    flow.button_detector(true);
    assert_eq!(flow.next, Some(GameState::Deal));
}

#[test]
fn deal_play_win_round_trip() {
    let mut flow = GameFlow::new();
    flow.request(GameState::Menu);
    flow.apply_transition();
    flow.button_detector(true);
    assert_eq!(flow.apply_transition(), Some(GameState::Deal));
    assert_fresh_deal(&flow);
    assert_eq!(flow.next, Some(GameState::Play));
    assert_eq!(flow.apply_transition(), Some(GameState::Play));
    assert_eq!(flow.cards.len(), 52);

    let mut win_requests = 0;
    for i in 0..52 {
        assert!(flow.press(i));
        assert_eq!(flow.phases[i], CardPhase::Rising);
        assert!(!flow.press(i));
        assert_eq!(flow.phases[i], CardPhase::Rising);
        let event = CollectingCard { card: flow.cards[i] };
        let (index, plan) = flow.pickup_finished(&event).unwrap();
        assert_eq!(index, i);
        assert_eq!(plan.stack_slot as usize, i + 1);
        assert_eq!(flow.collected.0 as usize, (i + 1) % 52);
        assert_eq!(flow.phases[i], CardPhase::Collecting);
        flow.collection_finished(index, &plan);
        assert_eq!(flow.phases[i], CardPhase::Stacked);
        if flow.next == Some(GameState::Win) {
            win_requests += 1;
            assert_eq!(i, 51);
        }
    }
    assert_eq!(win_requests, 1);
    assert_eq!(flow.apply_transition(), Some(GameState::Win));
    assert!(flow.cards.is_empty());
    assert!(flow.phases.is_empty());
    assert_eq!(flow.collected.0, 0);

    flow.button_detector(true);
    assert_eq!(flow.apply_transition(), Some(GameState::Deal));
    assert_fresh_deal(&flow);
}

#[test]
fn completion_event_reaches_only_its_card() {
    let mut flow = GameFlow::new();
    flow.request(GameState::Deal);
    flow.apply_transition();
    flow.apply_transition();
    let target = flow.cards[10];
    let event = CollectingCard { card: target };
    assert_eq!(flow.pickup_finished(&event), None);
    assert_eq!(flow.collected.0, 0);
    assert!(flow.press(10));
    let (index, plan) = flow.pickup_finished(&event).unwrap();
    assert_eq!(index, 10);
    assert_eq!(plan.stack_slot, 1);
    assert_eq!(flow.phases[10], CardPhase::Collecting);
    assert_eq!(flow.phases[11], CardPhase::Dealt);
    assert_eq!(flow.pickup_finished(&CollectingCard { card: flow.cards[11] }), None);
    assert_eq!(flow.collected.0, 1);
}

#[test]
fn last_collection_with_counter_at_fifty_one() {
    let mut flow = GameFlow::new();
    flow.request(GameState::Deal);
    flow.apply_transition();
    flow.apply_transition();
    flow.collected.0 = 51;
    assert!(flow.press(0));
    let (_, plan) = flow.pickup_finished(&CollectingCard { card: flow.cards[0] }).unwrap();
    assert_eq!(plan.stack_slot, 52);
    assert!(plan.signals_win);
    assert_eq!(flow.collected.0, 0);
    assert_eq!(flow.next, None);
    flow.collection_finished(0, &plan);
    assert_eq!(flow.phases[0], CardPhase::Stacked);
    assert_eq!(flow.next, Some(GameState::Win));
}
