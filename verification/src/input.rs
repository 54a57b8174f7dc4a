//! The input reducer: which keys are held and where the pointer is, kept up
//! to date from a stream of input events.

use bit_set::BitSet;
use vstd::prelude::*;

verus! {

/// `bit_set::BitSet`, a set of small numbers; nothing is known of what is
/// inside one but through `held_codes`.
#[verifier::external_type_specification]
#[verifier::external_body]
#[verifier::reject_recursive_types(B)]
pub struct ExBitSet<B>(BitSet<B>);

/// The numbers that a bit set holds.
pub uninterp spec fn held_codes(keys: BitSet<u32>) -> Set<usize>;

/// A pixel of the viewport: column and row, counted from the top left.
#[derive(Clone, Copy, Debug, PartialEq, Eq, Structural)]
pub struct Pixel {
    pub x: i32,
    pub y: i32,
}

/// One event from the window.
#[derive(Clone, Copy, Debug, PartialEq, Eq, Structural)]
pub enum InputEvent {
    /// The key with this code went down.
    KeyDown(u16),
    /// The key with this code came up.
    KeyUp(u16),
    /// The pointer moved to this pixel.
    PointerMoved(i32, i32),
    /// The wheel turned by this many lines (fixed-point).
    Scroll(i64),
    /// The window was closed.
    Closed,
}

/// The direction along one axis: `1` if only the positive key is held, `-1`
/// if only the negative key is, `0` if both are or neither is.
pub open spec fn spec_key_direction(positive_held: bool, negative_held: bool) -> i8 {
    if positive_held && !negative_held {
        1
    } else if negative_held && !positive_held {
        -1i8
    } else {
        0
    }
}

/// The keys that are held down, and the pixel where the pointer was last
/// seen, if it was seen at all.
pub struct InputState {
    pub held_keys: BitSet<u32>,
    pub pointer: Option<Pixel>,
}

impl InputState {
    /// The codes of the keys that are held.
    pub open spec fn held(self) -> Set<usize> {
        held_codes(self.held_keys)
    }

    /// No key is held and the pointer has not been seen.
    pub fn new() -> (state: InputState)
        ensures
            state.held() == Set::<usize>::empty(),
            state.pointer.is_none(),
    {
        InputState { held_keys: keys_new(), pointer: None }
    }

    /// The key `code` went down. Nothing changes if it was held already.
    pub fn press(&mut self, code: u16)
        ensures
            final(self).held() == old(self).held().insert(code as usize),
            final(self).pointer == old(self).pointer,
    {
        keys_insert(&mut self.held_keys, code);
    }

    /// The key `code` came up. Nothing changes if it was not held.
    pub fn release(&mut self, code: u16)
        ensures
            final(self).held() == old(self).held().remove(code as usize),
            final(self).pointer == old(self).pointer,
    {
        keys_remove(&mut self.held_keys, code);
    }

    /// The pointer moved to the pixel `(x, y)`.
    pub fn move_pointer(&mut self, x: i32, y: i32)
        ensures
            final(self).pointer == Some(Pixel { x, y }),
            final(self).held_keys == old(self).held_keys,
    {
        self.pointer = Some(Pixel { x, y });
    }

    /// Whether the key `code` is held down.
    pub fn is_key_held(&self, code: u16) -> (is_held: bool)
        ensures
            is_held == self.held().contains(code as usize),
    {
        keys_contains(&self.held_keys, code)
    }

    /// The direction along the axis of the two keys: `1` if only `positive`
    /// is held, `-1` if only `negative` is, `0` if both are or neither is.
    pub fn get_key_direction(&self, positive: u16, negative: u16) -> (direction: i8)
        ensures
            direction == spec_key_direction(
                self.held().contains(positive as usize),
                self.held().contains(negative as usize),
            ),
    {
        let positive_held: bool = self.is_key_held(positive);
        let negative_held: bool = self.is_key_held(negative);
        if positive_held && !negative_held {
            1
        } else if negative_held && !positive_held {
            -1
        } else {
            0
        }
    }
}

/// Two opposite keys cancel: with both held, or neither, the direction is
/// zero; with one of them held it points that key's way.
pub proof fn lemma_key_direction(positive_held: bool, negative_held: bool)
    ensures
        positive_held == negative_held ==> spec_key_direction(positive_held, negative_held) == 0,
        positive_held && !negative_held ==> spec_key_direction(positive_held, negative_held) == 1,
        negative_held && !positive_held ==> spec_key_direction(positive_held, negative_held) == -1,
        -1 <= spec_key_direction(positive_held, negative_held) <= 1,
{
}

/// Calls `BitSet::new`: the new set holds nothing.
#[verifier::external_body]
fn keys_new() -> (keys: BitSet<u32>)
    ensures
        held_codes(keys) == Set::<usize>::empty(),
{
    BitSet::new()
}

/// Calls `BitSet::insert`: afterwards the set holds `code` besides what it
/// held, and the result says whether `code` is new to it.
#[verifier::external_body]
fn keys_insert(keys: &mut BitSet<u32>, code: u16) -> (fresh: bool)
    ensures
        held_codes(*final(keys)) == held_codes(*old(keys)).insert(code as usize),
        fresh == !held_codes(*old(keys)).contains(code as usize),
{
    keys.insert(code as usize)
}

/// Calls `BitSet::remove`: afterwards the set holds what it held but for
/// `code`, and the result says whether it held `code`.
#[verifier::external_body]
fn keys_remove(keys: &mut BitSet<u32>, code: u16) -> (present: bool)
    ensures
        held_codes(*final(keys)) == held_codes(*old(keys)).remove(code as usize),
        present == held_codes(*old(keys)).contains(code as usize),
{
    keys.remove(code as usize)
}

/// Calls `BitSet::contains`: whether the set holds `code`.
#[verifier::external_body]
fn keys_contains(keys: &BitSet<u32>, code: u16) -> (present: bool)
    ensures
        present == held_codes(*keys).contains(code as usize),
{
    keys.contains(code as usize)
}

} // verus!
