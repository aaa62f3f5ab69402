use primordium::intent::{ActionType, Direction, intent_encode, intent_decode, intent_combine};

#[test]
fn roundtrip_all_actions() {
    let actions = [
        ActionType::NoAction,
        ActionType::Die,
        ActionType::Predate,
        ActionType::Replicate,
        ActionType::Move,
        ActionType::Idle,
    ];
    for action in actions {
        let word = intent_encode(action, Direction::PosX, 42);
        let (a, d, b) = intent_decode(word);
        assert_eq!(a, action);
        assert_eq!(d, Direction::PosX);
        assert_eq!(b, 42);
    }
}

#[test]
fn bid_range() {
    // Minimum bid (0)
    let word = intent_encode(ActionType::Replicate, Direction::NegZ, 0);
    let (_, _, bid) = intent_decode(word);
    assert_eq!(bid, 0);

    // Maximum 26-bit bid
    let max_bid: u32 = 0x03FF_FFFF;
    let word = intent_encode(ActionType::Move, Direction::Self_, max_bid);
    let (a, d, b) = intent_decode(word);
    assert_eq!(a, ActionType::Move);
    assert_eq!(d, Direction::Self_);
    assert_eq!(b, max_bid);
}

#[test]
fn direction_all_values() {
    let dirs = [
        Direction::PosX,
        Direction::NegX,
        Direction::PosY,
        Direction::NegY,
        Direction::PosZ,
        Direction::NegZ,
        Direction::Self_,
    ];
    for dir in dirs {
        let word = intent_encode(ActionType::Idle, dir, 100);
        let (_, d, _) = intent_decode(word);
        assert_eq!(d, dir);
    }
}

#[test]
fn combine_picks_higher_bid() {
    let low = intent_encode(ActionType::Move, Direction::PosX, 100);
    let high = intent_encode(ActionType::Move, Direction::NegX, 200);
    assert_eq!(intent_combine(low, high), high);
    assert_eq!(intent_combine(high, low), high);
    assert_eq!(intent_combine(low, low), low);
}
