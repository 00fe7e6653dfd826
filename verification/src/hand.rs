//! Hands, fingers and finger joints, by the numbers that the StereoKit
//! runtime gives them.
use vstd::prelude::*;

verus! {

/// A hand.
#[derive(Clone, Copy, Debug, PartialEq, Eq, Structural)]
pub enum Handed {
    Left,
    Rigth,
}

/// The number of a hand: 0 for the left, 1 for the right.
pub open spec fn handed_number(h: Handed) -> u32 {
    match h {
        Handed::Left => 0,
        Handed::Rigth => 1,
    }
}

impl Handed {
    /// The hand with the given number; only 0 and 1 name a hand.
    pub fn from_raw(value: u32) -> (h: Handed)
        requires
            value < 2,
        ensures
            handed_number(h) == value,
    {
        if value == 0 {
            Handed::Left
        } else {
            Handed::Rigth
        }
    }

    /// The number of this hand.
    pub fn to_raw(&self) -> (v: u32)
        ensures
            v == handed_number(*self),
    {
        match self {
            Handed::Left => 0,
            Handed::Rigth => 1,
        }
    }
}

/// A hand and its number stand for each other.
pub proof fn law_handed_round_trip(h: Handed, value: u32)
    ensures
        handed_number(h) < 2,
        value < 2 ==> (handed_number(h) == value <==> h == (if value == 0 { Handed::Left } else { Handed::Rigth })),
{
}

/// A finger, by its row in a hand's joint table.
#[derive(Clone, Copy, Debug, PartialEq, Eq, Structural)]
pub enum FingerId {
    Thumb,
    Index,
    Middle,
    Ring,
    Little,
}

/// The row of a finger in a hand's joint table, from the thumb (0) to the
/// little finger (4).
pub open spec fn finger_row(f: FingerId) -> usize {
    match f {
        FingerId::Thumb => 0,
        FingerId::Index => 1,
        FingerId::Middle => 2,
        FingerId::Ring => 3,
        FingerId::Little => 4,
    }
}

impl FingerId {
    /// The row of this finger in a hand's joint table.
    pub fn index(&self) -> (i: usize)
        ensures
            i == finger_row(*self),
            i < 5,
    {
        match self {
            FingerId::Thumb => 0,
            FingerId::Index => 1,
            FingerId::Middle => 2,
            FingerId::Ring => 3,
            FingerId::Little => 4,
        }
    }
}

/// A joint of a finger, by its column in a hand's joint table.
#[derive(Clone, Copy, Debug, PartialEq, Eq, Structural)]
pub enum JointId {
    Root,
    KnuckleMajor,
    KnuckleMid,
    KnuckleMinor,
    Tip,
}

/// The column of a joint in a hand's joint table, from the root (0) to the
/// tip (4).
pub open spec fn joint_column(j: JointId) -> usize {
    match j {
        JointId::Root => 0,
        JointId::KnuckleMajor => 1,
        JointId::KnuckleMid => 2,
        JointId::KnuckleMinor => 3,
        JointId::Tip => 4,
    }
}

impl JointId {
    /// The column of this joint in a hand's joint table.
    pub fn index(&self) -> (i: usize)
        ensures
            i == joint_column(*self),
            i < 5,
    {
        match self {
            JointId::Root => 0,
            JointId::KnuckleMajor => 1,
            JointId::KnuckleMid => 2,
            JointId::KnuckleMinor => 3,
            JointId::Tip => 4,
        }
    }
}

/// The runtime's numbering of fingers and joints: fingers from the thumb (0)
/// to the little finger (4), joints from the root (0) to the tip (4), each
/// number used once.
pub proof fn law_finger_and_joint_numbers()
    ensures
        finger_row(FingerId::Thumb) == 0,
        finger_row(FingerId::Index) == 1,
        finger_row(FingerId::Middle) == 2,
        finger_row(FingerId::Ring) == 3,
        finger_row(FingerId::Little) == 4,
        joint_column(JointId::Root) == 0,
        joint_column(JointId::KnuckleMajor) == 1,
        joint_column(JointId::KnuckleMid) == 2,
        joint_column(JointId::KnuckleMinor) == 3,
        joint_column(JointId::Tip) == 4,
        handed_number(Handed::Left) == 0,
        handed_number(Handed::Rigth) == 1,
        forall|a: FingerId, b: FingerId| finger_row(a) == finger_row(b) ==> a == b,
        forall|a: JointId, b: JointId| joint_column(a) == joint_column(b) ==> a == b,
{
}

} // verus!
