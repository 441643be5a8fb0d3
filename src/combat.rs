use vstd::prelude::*;

verus! {

/// Marks the player's character.
pub struct Player;

/// Marks a character that the game controls.
pub struct Npc;

/// The side that a character fights for.
pub struct Side(pub usize);

pub const SIDE_NEUTRAL: usize = 0;
pub const SIDE_1: usize = 1;
pub const SIDE_2: usize = 2;
pub const SIDE_3: usize = 3;
pub const SIDE_4: usize = 4;
pub const SIDE_5: usize = 5;
pub const SIDE_6: usize = 6;
pub const SIDE_7: usize = 7;

/// The relationships between sides: entry `i` has bit `j` set when side `i`
/// is the enemy of side `j`. Side 0 is neutral.
pub struct SideRelationships(pub Vec<u8>);

/// How one side stands towards another.
#[derive(Clone, Copy, Debug, PartialEq, Eq, Structural)]
pub enum SideRelationship {
    Neutral,
    Allied,
    Enemy,
}

/// True when bit `bit` of `mask` is set.
pub open spec fn has_bit(mask: u8, bit: usize) -> bool {
    mask & (1u8 << bit) != 0
}

/// `mask` with bit `bit` set when `on`, cleared otherwise.
pub open spec fn with_bit(mask: u8, bit: usize, on: bool) -> u8 {
    if on {
        mask | (1u8 << bit)
    } else {
        mask & !(1u8 << bit)
    }
}

/// How `side` stands towards `target_side` in the table `masks`.
pub open spec fn relationship_of(masks: Seq<u8>, side: usize, target_side: usize) -> SideRelationship {
    if target_side == SIDE_NEUTRAL || side == SIDE_NEUTRAL {
        SideRelationship::Neutral
    } else if has_bit(masks[side as int], target_side) {
        SideRelationship::Enemy
    } else {
        SideRelationship::Allied
    }
}

/// The table after marking `from_side` and `to_side` as enemies (or not) of
/// each other.
pub open spec fn with_relationship(masks: Seq<u8>, from_side: usize, to_side: usize, is_enemy: bool) -> Seq<u8> {
    let first = masks.update(from_side as int, with_bit(masks[from_side as int], to_side, is_enemy));
    first.update(to_side as int, with_bit(first[to_side as int], from_side, is_enemy))
}

proof fn lemma_with_bit(mask: u8, bit: usize, on: bool)
    requires
        bit < 8,
    ensures
        has_bit(with_bit(mask, bit, on), bit) == on,
{
    if on {
        assert((mask | (1u8 << bit)) & (1u8 << bit) != 0) by (bit_vector)
            requires bit < 8;
    } else {
        assert((mask & !(1u8 << bit)) & (1u8 << bit) == 0) by (bit_vector)
            requires bit < 8;
    }
}

/// A request to change the allegiance between two sides: enemies when the
/// flag is set, allies otherwise.
pub struct ChangeAllegiance(pub usize, pub usize, pub bool);

impl SideRelationships {
    /// How `side` stands towards `target_side` in `relationships`: neutral if
    /// either is the neutral side, else enemy or allied as the table says.
    pub fn get_relationship(&self, side: usize, target_side: usize, relationships: &Vec<u8>) -> (r: SideRelationship)
        requires
            side != SIDE_NEUTRAL && target_side != SIDE_NEUTRAL ==> side < relationships.len() && target_side < 8,
        ensures
            r == relationship_of(relationships@, side, target_side),
    {
        if target_side == SIDE_NEUTRAL || side == SIDE_NEUTRAL {
            return SideRelationship::Neutral;
        }
        let reln = relationships[side];
        if reln & (1u8 << target_side) != 0 {
            SideRelationship::Enemy
        } else {
            SideRelationship::Allied
        }
    }

    /// Make `from_side` and `to_side` enemies of each other when `is_enemy`,
    /// allies otherwise; the relationship then reads the same both ways.
    pub fn set_relationship(&mut self, from_side: usize, to_side: usize, is_enemy: bool)
        requires
            from_side < old(self).0.len(),
            to_side < old(self).0.len(),
            from_side < 8,
            to_side < 8,
        ensures
            final(self).0@ == with_relationship(old(self).0@, from_side, to_side, is_enemy),
            from_side != SIDE_NEUTRAL && to_side != SIDE_NEUTRAL ==> relationship_of(final(self).0@, from_side, to_side)
                == (if is_enemy { SideRelationship::Enemy } else { SideRelationship::Allied }),
            from_side != SIDE_NEUTRAL && to_side != SIDE_NEUTRAL ==> relationship_of(final(self).0@, to_side, from_side)
                == relationship_of(final(self).0@, from_side, to_side),
    {
        let ghost masks = self.0@;
        if is_enemy {
            let m = self.0[from_side] | (1u8 << to_side);
            self.0.set(from_side, m);
            let n = self.0[to_side] | (1u8 << from_side);
            self.0.set(to_side, n);
        } else {
            let m = self.0[from_side] & !(1u8 << to_side);
            self.0.set(from_side, m);
            let n = self.0[to_side] & !(1u8 << from_side);
            self.0.set(to_side, n);
        }
        proof {
            let first = masks.update(from_side as int, with_bit(masks[from_side as int], to_side, is_enemy));
            lemma_with_bit(masks[from_side as int], to_side, is_enemy);
            lemma_with_bit(first[to_side as int], from_side, is_enemy);
            if from_side == to_side {
                lemma_with_bit(masks[from_side as int], to_side, is_enemy);
            }
            assert(self.0@ =~= with_relationship(masks, from_side, to_side, is_enemy));
        }
    }
}

} // verus!
