//! Intent words: one packed 32-bit record per declared action.
//!
//! Bits 0-2 hold the target direction, bits 3-5 the action, bits 6-31 a
//! 26-bit priority bid. Of all agents targeting one cell, the largest word
//! wins; because the bid sits in the high bits, the largest word is the
//! largest bid, with ties broken by action and direction bits.

use vstd::prelude::*;

verus! {

/// Direction from an agent to its target cell; `Self_` targets the agent's
/// own cell. Ordered as the six face offsets: +X, -X, +Y, -Y, +Z, -Z.
#[derive(Debug, Clone, Copy, PartialEq, Eq, Structural)]
pub enum Direction {
    PosX,
    NegX,
    PosY,
    NegY,
    PosZ,
    NegZ,
    Self_,
}

/// The action an intent declares.
#[derive(Debug, Clone, Copy, PartialEq, Eq, Structural)]
pub enum ActionType {
    NoAction,
    Die,
    Predate,
    Replicate,
    Move,
    Idle,
}

/// The three direction bits of an intent word.
pub open spec fn spec_direction_code(d: Direction) -> u8 {
    match d {
        Direction::PosX => 0,
        Direction::NegX => 1,
        Direction::PosY => 2,
        Direction::NegY => 3,
        Direction::PosZ => 4,
        Direction::NegZ => 5,
        Direction::Self_ => 6,
    }
}

/// The direction three bits decode to; the unused code decodes to `Self_`.
pub open spec fn spec_direction_from_u8(v: u8) -> Direction {
    if v == 0 { Direction::PosX }
    else if v == 1 { Direction::NegX }
    else if v == 2 { Direction::PosY }
    else if v == 3 { Direction::NegY }
    else if v == 4 { Direction::PosZ }
    else if v == 5 { Direction::NegZ }
    else { Direction::Self_ }
}

/// The three action bits of an intent word.
pub open spec fn spec_action_code(a: ActionType) -> u8 {
    match a {
        ActionType::NoAction => 0,
        ActionType::Die => 1,
        ActionType::Predate => 2,
        ActionType::Replicate => 3,
        ActionType::Move => 4,
        ActionType::Idle => 5,
    }
}

/// The action three bits decode to; unused codes decode to `NoAction`.
pub open spec fn spec_action_from_u8(v: u8) -> ActionType {
    if v == 1 { ActionType::Die }
    else if v == 2 { ActionType::Predate }
    else if v == 3 { ActionType::Replicate }
    else if v == 4 { ActionType::Move }
    else if v == 5 { ActionType::Idle }
    else { ActionType::NoAction }
}

impl Direction {
    /// Decode three direction bits; out-of-range codes decode to `Self_`.
    pub fn from_u8(v: u8) -> (r: Self)
        ensures
            r == spec_direction_from_u8(v),
    {
        match v {
            0 => Self::PosX,
            1 => Self::NegX,
            2 => Self::PosY,
            3 => Self::NegY,
            4 => Self::PosZ,
            5 => Self::NegZ,
            _ => Self::Self_,
        }
    }

    /// The three direction bits of this direction.
    pub fn code(self) -> (r: u8)
        ensures
            r == spec_direction_code(self),
            r < 7,
    {
        match self {
            Direction::PosX => 0,
            Direction::NegX => 1,
            Direction::PosY => 2,
            Direction::NegY => 3,
            Direction::PosZ => 4,
            Direction::NegZ => 5,
            Direction::Self_ => 6,
        }
    }
}

impl ActionType {
    /// Decode three action bits; out-of-range codes decode to `NoAction`.
    pub fn from_u8(v: u8) -> (r: Self)
        ensures
            r == spec_action_from_u8(v),
    {
        match v {
            1 => Self::Die,
            2 => Self::Predate,
            3 => Self::Replicate,
            4 => Self::Move,
            5 => Self::Idle,
            _ => Self::NoAction,
        }
    }

    /// The three action bits of this action.
    pub fn code(self) -> (r: u8)
        ensures
            r == spec_action_code(self),
            r < 6,
    {
        match self {
            ActionType::NoAction => 0,
            ActionType::Die => 1,
            ActionType::Predate => 2,
            ActionType::Replicate => 3,
            ActionType::Move => 4,
            ActionType::Idle => 5,
        }
    }
}

/// The packed intent word for an action, direction and bid; only the low
/// 26 bits of the bid are kept.
pub open spec fn spec_intent_encode(a: ActionType, d: Direction, bid: u32) -> u32 {
    ((spec_direction_code(d) as u32) & 0x7)
        | (((spec_action_code(a) as u32) & 0x7) << 3)
        | ((bid & 0x03ff_ffff) << 6)
}

/// The action an intent word declares.
pub open spec fn spec_intent_action(w: u32) -> ActionType {
    spec_action_from_u8(((w >> 3) & 0x7) as u8)
}

/// The direction an intent word declares.
pub open spec fn spec_intent_direction(w: u32) -> Direction {
    spec_direction_from_u8((w & 0x7) as u8)
}

/// The bid an intent word carries.
pub open spec fn spec_intent_bid(w: u32) -> u32 {
    (w >> 6) & 0x03ff_ffff
}

/// Encode an intent into a single word.
pub fn intent_encode(action: ActionType, direction: Direction, bid: u32) -> (r: u32)
    ensures
        r == spec_intent_encode(action, direction, bid),
{
    let dir_bits = (direction.code() as u32) & 0x7;
    let action_bits = ((action.code() as u32) & 0x7) << 3;
    let bid_bits = (bid & 0x03ff_ffff) << 6;
    dir_bits | action_bits | bid_bits
}

/// Decode an intent word into its action, direction and bid.
pub fn intent_decode(word: u32) -> (r: (ActionType, Direction, u32))
    ensures
        r.0 == spec_intent_action(word),
        r.1 == spec_intent_direction(word),
        r.2 == spec_intent_bid(word),
        r.2 < 0x0400_0000,
{
    proof {
        assert((word >> 6) & 0x03ff_ffff < 0x0400_0000) by (bit_vector);
    }
    let dir = Direction::from_u8((word & 0x7) as u8);
    let action = ActionType::from_u8(((word >> 3) & 0x7) as u8);
    let bid = (word >> 6) & 0x03ff_ffff;
    (action, dir, bid)
}

/// The monotonic combine that resolves write contention: of two intent
/// words the larger wins, so the result is independent of arrival order.
pub fn intent_combine(a: u32, b: u32) -> (r: u32)
    ensures
        r == spec_intent_combine(a, b),
        r == a || r == b,
        r >= a && r >= b,
{
    if a >= b { a } else { b }
}

/// The larger of two intent words.
pub open spec fn spec_intent_combine(a: u32, b: u32) -> u32 {
    if a >= b { a } else { b }
}

/// Bit-level facts about an intent word: every field reads back exactly
/// when the bid fits in 26 bits.
proof fn lemma_intent_word_fields(d: u8, a: u8, bid: u32)
    by (bit_vector)
    requires
        d < 7,
        a < 6,
        bid < 0x0400_0000,
    ensures
        ((((d as u32) & 0x7) | (((a as u32) & 0x7) << 3) | ((bid & 0x03ff_ffff) << 6)) & 0x7) as u8 == d,
        (((((d as u32) & 0x7) | (((a as u32) & 0x7) << 3) | ((bid & 0x03ff_ffff) << 6)) >> 3) & 0x7) as u8 == a,
        ((((d as u32) & 0x7) | (((a as u32) & 0x7) << 3) | ((bid & 0x03ff_ffff) << 6)) >> 6) & 0x03ff_ffff == bid,
{
}

/// Decoding an encoded intent restores the action, the direction, and any
/// bid below 2^26.
pub proof fn lemma_intent_roundtrip(a: ActionType, d: Direction, bid: u32)
    requires
        bid < 0x0400_0000,
    ensures
        spec_intent_action(spec_intent_encode(a, d, bid)) == a,
        spec_intent_direction(spec_intent_encode(a, d, bid)) == d,
        spec_intent_bid(spec_intent_encode(a, d, bid)) == bid,
{
    lemma_intent_word_fields(spec_direction_code(d), spec_action_code(a), bid);
}

/// The combine is commutative and associative, so the winning intent at a
/// cell does not depend on the order in which intents arrive.
pub proof fn lemma_intent_combine_order_free(a: u32, b: u32, c: u32)
    ensures
        spec_intent_combine(a, b) == spec_intent_combine(b, a),
        spec_intent_combine(spec_intent_combine(a, b), c)
            == spec_intent_combine(a, spec_intent_combine(b, c)),
{
}

} // verus!
