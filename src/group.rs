//! Thruster channel masks: one bit for each of twelve control channels.
use vstd::prelude::*;

verus! {

/// Number of control channels (six translations, six rotations).
pub const CHANNELS: usize = 12;

/// A set of control channels; bit `c` stands for channel `c`.
#[derive(Copy, Clone, Debug, Default, PartialEq, Eq, Structural)]
pub struct ThrusterGroup(pub u32);

/// One control channel. Its slot (see `Channel::slot`) is its bit in a mask
/// and its index into a per-channel thrust table.
#[derive(Copy, Clone, Debug, PartialEq, Eq, Structural)]
pub enum Channel {
    Forward,
    Backward,
    Left,
    Right,
    Up,
    Down,
    RotX,
    NegRotX,
    RotY,
    NegRotY,
    RotZ,
    NegRotZ,
}

impl Channel {
    pub open spec fn slot(self) -> int {
        match self {
            Channel::Forward => 0,
            Channel::Backward => 1,
            Channel::Left => 2,
            Channel::Right => 3,
            Channel::Up => 4,
            Channel::Down => 5,
            Channel::RotX => 6,
            Channel::NegRotX => 7,
            Channel::RotY => 8,
            Channel::NegRotY => 9,
            Channel::RotZ => 10,
            Channel::NegRotZ => 11,
        }
    }

    /// The channel's slot.
    pub fn index(self) -> (r: usize)
        ensures
            r == self.slot(),
    {
        match self {
            Channel::Forward => 0,
            Channel::Backward => 1,
            Channel::Left => 2,
            Channel::Right => 3,
            Channel::Up => 4,
            Channel::Down => 5,
            Channel::RotX => 6,
            Channel::NegRotX => 7,
            Channel::RotY => 8,
            Channel::NegRotY => 9,
            Channel::RotZ => 10,
            Channel::NegRotZ => 11,
        }
    }
}

impl ThrusterGroup {
    /// The empty set.
    pub fn none() -> (r: ThrusterGroup)
        ensures
            r@ == Set::<int>::empty(),
            forall|c: int| !#[trigger] r.has(c),
    {
        proof {
            assert forall|c: int| !#[trigger] ThrusterGroup(0).has(c) by {
                if 0 <= c < 32 {
                    let j = c as u32;
                    assert((0u32 >> j) & 1u32 == 0u32) by (bit_vector);
                }
            }
        }
        let r = ThrusterGroup(0);
        proof {
            assert(r@ =~= Set::<int>::empty());
        }
        r
    }

    /// The set that holds `ch` alone.
    pub fn of(ch: Channel) -> (r: ThrusterGroup)
        ensures
            r@ == set![ch.slot()],
            forall|c: int| #[trigger] r.has(c) == (c == ch.slot()),
            r.0 != 0,
    {
        let i = ch.index() as u32;
        proof {
            lemma_single_bit(i);
        }
        let r = ThrusterGroup(1u32 << i);
        assert(r.has(i as int));
        let bits = r.0;
        assert(((bits >> i) & 1u32 == 1u32) ==> bits != 0) by (bit_vector);
        proof {
            assert(r@ =~= set![ch.slot()]);
        }
        r
    }

    /// Whether channel `c` is in the set.
    pub open spec fn has(self, c: int) -> bool {
        0 <= c < 32 && (self.0 >> (c as u32)) & 1u32 == 1u32
    }

    /// The set of channels, as bit positions.
    pub open spec fn view(self) -> Set<int> {
        Set::new(|c: int| self.has(c))
    }

    /// Whether the two sets share a channel.
    pub fn intersects(self, other: ThrusterGroup) -> (r: bool)
        ensures
            r == exists|c: int| #[trigger] self.has(c) && other.has(c),
    {
        let both = self.0 & other.0;
        proof {
            lemma_bits_and(self.0, other.0);
            lemma_nonzero_has_bit(both);
            if both != 0 {
                let c = choose|c: int| 0 <= c < 32 && #[trigger] ((both >> (c as u32)) & 1u32) == 1u32;
                assert(self.has(c) && other.has(c));
            } else {
                assert forall|c: int| !(#[trigger] self.has(c) && other.has(c)) by {
                    if 0 <= c < 32 {
                        let j = c as u32;
                        assert(((both >> j) & 1u32 == 1u32) == ((self.0 >> j) & 1u32 == 1u32 && (other.0 >> j) & 1u32 == 1u32));
                    }
                }
            }
        }
        both != 0
    }

    /// The slot of the lowest channel in the set.
    pub fn index(self) -> (r: usize)
        requires
            self.0 != 0,
        ensures
            r < 32,
            self.has(r as int),
            forall|c: int| 0 <= c < r ==> !#[trigger] self.has(c),
    {
        proof {
            vstd::std_specs::bits::axiom_u32_trailing_zeros(self.0);
        }
        let r = self.0.trailing_zeros();
        proof {
            assert forall|c: int| 0 <= c < r implies !#[trigger] self.has(c) by {
                let j = c as u32;
                assert((self.0 >> j) & 1u32 == 0u32);
            }
        }
        r as usize
    }

    /// The channel that turns the body the positive way about `axis`.
    pub fn positive_rotation(axis: usize) -> (r: ThrusterGroup)
        requires
            axis < 3,
        ensures
            r@ == set![rotation_channel(axis as int, true)],
            forall|c: int| #[trigger] r.has(c) == (c == rotation_channel(axis as int, true)),
            r.0 != 0,
    {
        let ch = match axis {
            0 => Channel::RotX,
            1 => Channel::RotY,
            _ => Channel::RotZ,
        };
        ThrusterGroup::of(ch)
    }

    /// The channel that turns the body the negative way about `axis`.
    pub fn negative_rotation(axis: usize) -> (r: ThrusterGroup)
        requires
            axis < 3,
        ensures
            r@ == set![rotation_channel(axis as int, false)],
            forall|c: int| #[trigger] r.has(c) == (c == rotation_channel(axis as int, false)),
            r.0 != 0,
    {
        let ch = match axis {
            0 => Channel::NegRotX,
            1 => Channel::NegRotY,
            _ => Channel::NegRotZ,
        };
        ThrusterGroup::of(ch)
    }

    /// Union of two sets.
    pub fn bitor(self, rhs: ThrusterGroup) -> (r: ThrusterGroup)
        ensures
            forall|c: int| #[trigger] r.has(c) == (self.has(c) || rhs.has(c)),
    {
        proof {
            lemma_bits_or(self.0, rhs.0);
        }
        ThrusterGroup(self.0 | rhs.0)
    }

    /// Adds the channels of `rhs` to the set.
    pub fn bitor_assign(&mut self, rhs: ThrusterGroup)
        ensures
            forall|c: int| #[trigger] final(self).has(c) == (old(self).has(c) || rhs.has(c)),
    {
        proof {
            lemma_bits_or(self.0, rhs.0);
        }
        self.0 = self.0 | rhs.0;
    }
}

/// The channel slot of the rotation about `axis` in the given sense:
/// 6 and 7 for X, 8 and 9 for Y, 10 and 11 for Z.
pub open spec fn rotation_channel(axis: int, positive: bool) -> int {
    6 + 2 * axis + if positive { 0int } else { 1int }
}

/// A bit is set in `a & b` exactly when it is set in both.
pub proof fn lemma_bits_and(a: u32, b: u32)
    ensures
        forall|j: u32|
            j < 32 ==> (#[trigger] ((a & b) >> j) & 1u32 == 1u32) == ((a >> j) & 1u32 == 1u32 && (b
                >> j) & 1u32 == 1u32),
{
    assert forall|j: u32| j < 32 implies (#[trigger] ((a & b) >> j) & 1u32 == 1u32) == ((a >> j)
        & 1u32 == 1u32 && (b >> j) & 1u32 == 1u32) by {
        assert(j < 32 ==> (((a & b) >> j) & 1u32 == 1u32) == ((a >> j) & 1u32 == 1u32 && (b >> j)
            & 1u32 == 1u32)) by (bit_vector);
    }
}

/// A bit is set in `a | b` exactly when it is set in either.
pub proof fn lemma_bits_or(a: u32, b: u32)
    ensures
        forall|c: int| #[trigger] ThrusterGroup(a | b).has(c) == (ThrusterGroup(a).has(c) || ThrusterGroup(b).has(c)),
{
    assert forall|c: int| #[trigger] ThrusterGroup(a | b).has(c) == (ThrusterGroup(a).has(c) || ThrusterGroup(b).has(c)) by {
        if 0 <= c < 32 {
            let j = c as u32;
            assert(j < 32 ==> (((a | b) >> j) & 1u32 == 1u32) == ((a >> j) & 1u32 == 1u32 || (b >> j)
                & 1u32 == 1u32)) by (bit_vector);
        }
    }
}

/// `1 << i` has bit `i` set and no other.
pub proof fn lemma_single_bit(i: u32)
    requires
        i < 32,
    ensures
        forall|c: int| #[trigger] ThrusterGroup(1u32 << i).has(c) == (c == i),
{
    assert forall|c: int| #[trigger] ThrusterGroup(1u32 << i).has(c) == (c == i) by {
        if 0 <= c < 32 {
            let j = c as u32;
            assert(i < 32 && j < 32 ==> ((((1u32 << i) >> j) & 1u32 == 1u32) == (i == j))) by (bit_vector);
        }
    }
}

/// A nonzero word has a set bit.
pub proof fn lemma_nonzero_has_bit(x: u32)
    ensures
        x != 0 <==> exists|c: int| 0 <= c < 32 && #[trigger] ((x >> (c as u32)) & 1u32) == 1u32,
{
    vstd::std_specs::bits::axiom_u32_trailing_zeros(x);
    if x != 0 {
        let t = x.trailing_zeros() as int;
        assert(0 <= t < 32 && ((x >> (t as u32)) & 1u32) == 1u32);
    } else {
        assert forall|c: int| 0 <= c < 32 implies #[trigger] ((x >> (c as u32)) & 1u32) != 1u32 by {
            let j = c as u32;
            assert(x == 0 ==> (x >> j) & 1u32 == 0u32) by (bit_vector);
        }
    }
}

} // verus!
