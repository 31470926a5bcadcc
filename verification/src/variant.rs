//! The tier table: each ball carries one of eleven variants, ordered by tier.
//! Merging two balls of the same variant produces the next variant; the
//! terminal `Win` variant has no successor.

use vstd::prelude::*;
use vstd::arithmetic::div_mod::lemma_div_is_ordered;

verus! {

/// The display size of the starting tier, in milli-pixels.
pub const BASE_SIZE_MILLI: u32 = 27000;

/// The growth of the display size from one tier to the next, in percent.
pub const GROWTH_PERCENT: u32 = 127;

/// The sum of the spawn weights of the ten spawnable variants, in
/// hundredths: 100, 80, 60, 25, 10, 4, 1, 0.4, 0.1 and 0.01.
pub const WEIGHT_TOTAL: u32 = 28051;

/// The display size, in milli-pixels, of a ball of the given 1-based order:
/// the base size grown by the fixed ratio once per tier, rounded down at
/// each step.
pub open spec fn size_of_order(order: nat) -> int
    decreases order,
{
    if order <= 1 {
        BASE_SIZE_MILLI as int
    } else {
        size_of_order((order - 1) as nat) * GROWTH_PERCENT / 100
    }
}

/// The tier of a ball, from the common starting tier up to the terminal one.
#[derive(Clone, Copy, PartialEq, Eq, Structural, Debug)]
pub enum BallVariant {
    Sad,
    Angry,
    Surprised,
    Embarrassed,
    Happy,
    Joyful,
    Spite,
    Love,
    Pride,
    Rage,
    Win,
}

impl BallVariant {
    /// The canonical 1-based order of this variant.
    pub open spec fn order_spec(self) -> u32 {
        match self {
            BallVariant::Sad => 1,
            BallVariant::Angry => 2,
            BallVariant::Surprised => 3,
            BallVariant::Embarrassed => 4,
            BallVariant::Happy => 5,
            BallVariant::Joyful => 6,
            BallVariant::Spite => 7,
            BallVariant::Love => 8,
            BallVariant::Pride => 9,
            BallVariant::Rage => 10,
            BallVariant::Win => 11,
        }
    }

    /// Returns the canonical order of this variant (1-based).
    pub fn order(&self) -> (r: u32)
        ensures
            r == self.order_spec(),
            1 <= r <= 11,
    {
        match self {
            BallVariant::Sad => 1,
            BallVariant::Angry => 2,
            BallVariant::Surprised => 3,
            BallVariant::Embarrassed => 4,
            BallVariant::Happy => 5,
            BallVariant::Joyful => 6,
            BallVariant::Spite => 7,
            BallVariant::Love => 8,
            BallVariant::Pride => 9,
            BallVariant::Rage => 10,
            BallVariant::Win => 11,
        }
    }

    /// The successor of this variant, if it has one.
    pub open spec fn next_variant_spec(self) -> Option<BallVariant> {
        match self {
            BallVariant::Sad => Some(BallVariant::Angry),
            BallVariant::Angry => Some(BallVariant::Surprised),
            BallVariant::Surprised => Some(BallVariant::Embarrassed),
            BallVariant::Embarrassed => Some(BallVariant::Happy),
            BallVariant::Happy => Some(BallVariant::Joyful),
            BallVariant::Joyful => Some(BallVariant::Spite),
            BallVariant::Spite => Some(BallVariant::Love),
            BallVariant::Love => Some(BallVariant::Pride),
            BallVariant::Pride => Some(BallVariant::Rage),
            BallVariant::Rage => Some(BallVariant::Win),
            BallVariant::Win => None,
        }
    }

    /// The next tier up, or `None` for the terminal variant.
    ///
    /// A successor exists exactly below the terminal order, and always has
    /// order one above its predecessor.
    pub fn next_variant(&self) -> (r: Option<BallVariant>)
        ensures
            r == self.next_variant_spec(),
            r is Some <==> self.order_spec() < 11,
            r is Some ==> r->0.order_spec() == self.order_spec() + 1,
    {
        match self {
            BallVariant::Sad => Some(BallVariant::Angry),
            BallVariant::Angry => Some(BallVariant::Surprised),
            BallVariant::Surprised => Some(BallVariant::Embarrassed),
            BallVariant::Embarrassed => Some(BallVariant::Happy),
            BallVariant::Happy => Some(BallVariant::Joyful),
            BallVariant::Joyful => Some(BallVariant::Spite),
            BallVariant::Spite => Some(BallVariant::Love),
            BallVariant::Love => Some(BallVariant::Pride),
            BallVariant::Pride => Some(BallVariant::Rage),
            BallVariant::Rage => Some(BallVariant::Win),
            BallVariant::Win => None,
        }
    }

    /// The display size of a ball of this variant, in milli-pixels.
    pub open spec fn size_milli_spec(self) -> int {
        size_of_order(self.order_spec() as nat)
    }

    /// The display size of a ball of this variant, in milli-pixels.
    pub fn size_milli(&self) -> (r: u32)
        ensures
            r == self.size_milli_spec(),
            BASE_SIZE_MILLI <= r <= 294698,
    {
        let order = self.order();
        let mut s: u32 = BASE_SIZE_MILLI;
        let mut i: u32 = 1;
        proof {
            lemma_size_bounds(order as nat);
            lemma_size_bounds(i as nat);
        }
        while i < order
            invariant
                1 <= i <= order,
                order <= 11,
                s == size_of_order(i as nat),
                BASE_SIZE_MILLI <= s <= 294698,
            decreases order - i,
        {
            let grown: u64 = (s as u64) * 127;
            s = (grown / 100) as u32;
            i = i + 1;
            proof {
                lemma_size_bounds(i as nat);
            }
        }
        s
    }

    /// The sprite asset drawn for a ball of this variant.
    pub fn sprite_path(&self) -> (r: &'static str)
        ensures
            r@ =~= self.sprite_path_spec(),
    {
        match self {
            BallVariant::Sad => "sad_sprite.png",
            BallVariant::Angry => "angry_sprite.png",
            BallVariant::Surprised => "surprise_sprite.png",
            BallVariant::Embarrassed => "embarassed_sprite.png",
            BallVariant::Happy => "happy_sprite.png",
            BallVariant::Joyful => "joyful_sprite.png",
            BallVariant::Spite => "spite_sprite.png",
            BallVariant::Love => "love_sprite.png",
            BallVariant::Pride => "pride_sprite.png",
            BallVariant::Rage => "rage_sprite.png",
            BallVariant::Win => "win_sprite.png",
        }
    }

    /// The sprite asset drawn for a ball of this variant.
    pub open spec fn sprite_path_spec(self) -> Seq<char> {
        match self {
            BallVariant::Sad => "sad_sprite.png"@,
            BallVariant::Angry => "angry_sprite.png"@,
            BallVariant::Surprised => "surprise_sprite.png"@,
            BallVariant::Embarrassed => "embarassed_sprite.png"@,
            BallVariant::Happy => "happy_sprite.png"@,
            BallVariant::Joyful => "joyful_sprite.png"@,
            BallVariant::Spite => "spite_sprite.png"@,
            BallVariant::Love => "love_sprite.png"@,
            BallVariant::Pride => "pride_sprite.png"@,
            BallVariant::Rage => "rage_sprite.png"@,
            BallVariant::Win => "win_sprite.png"@,
        }
    }

    /// A freshly spawned ball's variant: one of the ten spawnable tiers,
    /// drawn with weights falling steeply with the tier. The terminal
    /// variant is never spawned, so a spawned ball can always merge.
    pub fn random() -> (v: BallVariant)
        ensures
            v.next_variant_spec() is Some,
            exists|w: u32| w < WEIGHT_TOTAL && v == variant_from_weight_spec(w),
    {
        let w = crate::rng::random_below(WEIGHT_TOTAL);
        let v = variant_from_weight(w);
        proof {
            assert(w < WEIGHT_TOTAL && v == variant_from_weight_spec(w));
        }
        v
    }
}

/// The variant picked for a draw of `w` out of the total spawn weight: each
/// spawnable variant owns a span of the weight range proportional to its
/// weight, the common tiers first. A draw beyond the total falls back to the
/// starting tier.
pub open spec fn variant_from_weight_spec(w: u32) -> BallVariant {
    if w < 10000 {
        BallVariant::Sad
    } else if w < 18000 {
        BallVariant::Angry
    } else if w < 24000 {
        BallVariant::Surprised
    } else if w < 26500 {
        BallVariant::Embarrassed
    } else if w < 27500 {
        BallVariant::Happy
    } else if w < 27900 {
        BallVariant::Joyful
    } else if w < 28000 {
        BallVariant::Spite
    } else if w < 28040 {
        BallVariant::Love
    } else if w < 28050 {
        BallVariant::Pride
    } else if w < WEIGHT_TOTAL {
        BallVariant::Rage
    } else {
        BallVariant::Sad
    }
}

/// The variant picked for a draw of `w` out of the total spawn weight.
pub fn variant_from_weight(w: u32) -> (v: BallVariant)
    ensures
        v == variant_from_weight_spec(w),
        v.next_variant_spec() is Some,
{
    if w < 10000 {
        BallVariant::Sad
    } else if w < 18000 {
        BallVariant::Angry
    } else if w < 24000 {
        BallVariant::Surprised
    } else if w < 26500 {
        BallVariant::Embarrassed
    } else if w < 27500 {
        BallVariant::Happy
    } else if w < 27900 {
        BallVariant::Joyful
    } else if w < 28000 {
        BallVariant::Spite
    } else if w < 28040 {
        BallVariant::Love
    } else if w < 28050 {
        BallVariant::Pride
    } else if w < WEIGHT_TOTAL {
        BallVariant::Rage
    } else {
        BallVariant::Sad
    }
}

/// A successor is always exactly one tier above the variant it replaces.
pub proof fn lemma_successor_order(v: BallVariant)
    requires
        v.next_variant_spec() is Some,
    ensures
        v.next_variant_spec()->0.order_spec() == v.order_spec() + 1,
{
}

/// The display size of every tier, written out.
pub proof fn lemma_size_table()
    ensures
        size_of_order(1) == 27000,
        size_of_order(2) == 34290,
        size_of_order(3) == 43548,
        size_of_order(4) == 55305,
        size_of_order(5) == 70237,
        size_of_order(6) == 89200,
        size_of_order(7) == 113284,
        size_of_order(8) == 143870,
        size_of_order(9) == 182714,
        size_of_order(10) == 232046,
        size_of_order(11) == 294698,
{
    assert(size_of_order(1) == 27000);
    assert(size_of_order(2) == 34290);
    assert(size_of_order(3) == 43548);
    assert(size_of_order(4) == 55305);
    assert(size_of_order(5) == 70237);
    assert(size_of_order(6) == 89200);
    assert(size_of_order(7) == 113284);
    assert(size_of_order(8) == 143870);
    assert(size_of_order(9) == 182714);
    assert(size_of_order(10) == 232046);
    assert(size_of_order(11) == 294698);
}

/// The display size of any tier in range stays within the base size and the
/// terminal tier's size.
pub proof fn lemma_size_bounds(order: nat)
    requires
        1 <= order <= 11,
    ensures
        BASE_SIZE_MILLI <= size_of_order(order) <= 294698,
{
    lemma_size_table();
    lemma_size_at_least_base(order);
    if order < 11 {
        lemma_size_increasing_order(order, 11);
    }
}

/// Growing once strictly enlarges the size: the next tier is drawn strictly
/// larger.
proof fn lemma_size_step_strict(order: nat)
    requires
        1 <= order,
        size_of_order(order) >= BASE_SIZE_MILLI,
    ensures
        size_of_order(order) < size_of_order(order + 1),
{
    let s = size_of_order(order);
    assert(100 * (s + 1) <= s * (GROWTH_PERCENT as int));
    lemma_div_is_ordered(100 * (s + 1), s * (GROWTH_PERCENT as int), 100);
    assert(100 * (s + 1) / 100 == s + 1);
}

/// Every tier in range is at least the base size.
proof fn lemma_size_at_least_base(order: nat)
    requires
        1 <= order,
    ensures
        size_of_order(order) >= BASE_SIZE_MILLI,
    decreases order,
{
    if order > 1 {
        lemma_size_at_least_base((order - 1) as nat);
        let s = size_of_order((order - 1) as nat);
        assert(100 * (BASE_SIZE_MILLI as int) <= s * (GROWTH_PERCENT as int));
        lemma_div_is_ordered(100 * (BASE_SIZE_MILLI as int), s * (GROWTH_PERCENT as int), 100);
        assert(100 * (BASE_SIZE_MILLI as int) / 100 == BASE_SIZE_MILLI as int);
    }
}

/// Display size grows strictly with the tier: a ball of a higher order is
/// always drawn strictly larger.
pub proof fn lemma_size_strictly_increasing(a: BallVariant, b: BallVariant)
    requires
        a.order_spec() < b.order_spec(),
    ensures
        a.size_milli_spec() < b.size_milli_spec(),
{
    lemma_size_increasing_order(a.order_spec() as nat, b.order_spec() as nat);
}

/// Display size grows strictly with the order.
proof fn lemma_size_increasing_order(o1: nat, o2: nat)
    requires
        1 <= o1 < o2,
    ensures
        size_of_order(o1) < size_of_order(o2),
    decreases o2,
{
    lemma_size_at_least_base((o2 - 1) as nat);
    lemma_size_step_strict((o2 - 1) as nat);
    if o1 < o2 - 1 {
        lemma_size_increasing_order(o1, (o2 - 1) as nat);
    }
}

} // verus!
