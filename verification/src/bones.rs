use vstd::prelude::*;

verus! {

/// The bones of a player model that the aimbot can aim at, in the order of the
/// bone selector's T-pose layout.
#[derive(Clone, Copy, Debug, PartialEq, Eq, Structural)]
pub enum Bones {
    Head,
    Neck,
    Spine4,
    Spine3,
    Spine2,
    Spine1,
    Hip,
    LeftShoulder,
    LeftElbow,
    LeftHand,
    RightShoulder,
    RightElbow,
    RightHand,
    LeftHip,
    LeftKnee,
    LeftFoot,
    RightHip,
    RightKnee,
    RightFoot,
}

/// The number of bones.
pub const BONE_COUNT: usize = 19;

/// The position of a bone in the T-pose layout.
pub open spec fn spec_bone_idx(bone: Bones) -> nat {
    match bone {
        Bones::Head => 0,
        Bones::Neck => 1,
        Bones::Spine4 => 2,
        Bones::Spine3 => 3,
        Bones::Spine2 => 4,
        Bones::Spine1 => 5,
        Bones::Hip => 6,
        Bones::LeftShoulder => 7,
        Bones::LeftElbow => 8,
        Bones::LeftHand => 9,
        Bones::RightShoulder => 10,
        Bones::RightElbow => 11,
        Bones::RightHand => 12,
        Bones::LeftHip => 13,
        Bones::LeftKnee => 14,
        Bones::LeftFoot => 15,
        Bones::RightHip => 16,
        Bones::RightKnee => 17,
        Bones::RightFoot => 18,
    }
}

/// Every bone, in the order of their positions.
pub open spec fn spec_all_bones() -> Seq<Bones> {
    seq![
        Bones::Head,
        Bones::Neck,
        Bones::Spine4,
        Bones::Spine3,
        Bones::Spine2,
        Bones::Spine1,
        Bones::Hip,
        Bones::LeftShoulder,
        Bones::LeftElbow,
        Bones::LeftHand,
        Bones::RightShoulder,
        Bones::RightElbow,
        Bones::RightHand,
        Bones::LeftHip,
        Bones::LeftKnee,
        Bones::LeftFoot,
        Bones::RightHip,
        Bones::RightKnee,
        Bones::RightFoot,
    ]
}

/// The name a bone is shown under: its variant name.
pub open spec fn spec_bone_name(bone: Bones) -> Seq<char> {
    match bone {
        Bones::Head => "Head"@,
        Bones::Neck => "Neck"@,
        Bones::Spine4 => "Spine4"@,
        Bones::Spine3 => "Spine3"@,
        Bones::Spine2 => "Spine2"@,
        Bones::Spine1 => "Spine1"@,
        Bones::Hip => "Hip"@,
        Bones::LeftShoulder => "LeftShoulder"@,
        Bones::LeftElbow => "LeftElbow"@,
        Bones::LeftHand => "LeftHand"@,
        Bones::RightShoulder => "RightShoulder"@,
        Bones::RightElbow => "RightElbow"@,
        Bones::RightHand => "RightHand"@,
        Bones::LeftHip => "LeftHip"@,
        Bones::LeftKnee => "LeftKnee"@,
        Bones::LeftFoot => "LeftFoot"@,
        Bones::RightHip => "RightHip"@,
        Bones::RightKnee => "RightKnee"@,
        Bones::RightFoot => "RightFoot"@,
    }
}

/// `s` with every occurrence of `x` taken out, the rest in order.
pub open spec fn remove_all(s: Seq<Bones>, x: Bones) -> Seq<Bones>
    decreases s.len(),
{
    if s.len() == 0 {
        Seq::empty()
    } else if s.last() == x {
        remove_all(s.drop_last(), x)
    } else {
        remove_all(s.drop_last(), x).push(s.last())
    }
}

/// The bone list after a click on `bone` in the selector: a selected bone is
/// taken out, any other is appended.
pub open spec fn spec_toggle_bone(s: Seq<Bones>, bone: Bones) -> Seq<Bones> {
    if s.contains(bone) {
        remove_all(s, bone)
    } else {
        s.push(bone)
    }
}

/// No bone occurs twice.
pub open spec fn no_duplicates(s: Seq<Bones>) -> bool {
    forall|i: int, j: int| 0 <= i < j < s.len() ==> s[i] != s[j]
}


/// An occurrence of `y` survives taking out every `x` exactly when `y` was
/// there and is not `x`.
pub proof fn lemma_remove_all_contains(s: Seq<Bones>, x: Bones, y: Bones)
    ensures
        remove_all(s, x).contains(y) <==> (s.contains(y) && y != x),
    decreases s.len(),
{
    if s.len() > 0 {
        lemma_remove_all_contains(s.drop_last(), x, y);
        if s.contains(y) && y != x {
            let k = choose|k: int| 0 <= k < s.len() && s[k] == y;
            if k < s.len() - 1 {
                assert(s.drop_last()[k] == y);
            }
        }
        if s.drop_last().contains(y) {
            let k = choose|k: int| 0 <= k < s.drop_last().len() && s.drop_last()[k] == y;
            assert(s[k] == y);
        }
        let r = remove_all(s.drop_last(), x);
        if s.last() != x {
            if r.push(s.last()).contains(y) {
                let k = choose|k: int| 0 <= k < r.push(s.last()).len() && r.push(s.last())[k] == y;
                if k < r.len() {
                    assert(r[k] == y);
                }
            }
            if r.contains(y) {
                let k = choose|k: int| 0 <= k < r.len() && r[k] == y;
                assert(r.push(s.last())[k] == y);
            }
            assert(r.push(s.last())[r.len() as int] == s.last());
        }
    }
}

/// Taking every `x` out of a list without duplicates leaves a list without
/// duplicates.
pub proof fn lemma_remove_all_no_duplicates(s: Seq<Bones>, x: Bones)
    requires
        no_duplicates(s),
    ensures
        no_duplicates(remove_all(s, x)),
    decreases s.len(),
{
    if s.len() > 0 {
        let d = s.drop_last();
        assert(no_duplicates(d)) by {
            assert forall|i: int, j: int| 0 <= i < j < d.len() implies d[i] != d[j] by {
                assert(d[i] == s[i] && d[j] == s[j]);
            }
        }
        lemma_remove_all_no_duplicates(d, x);
        lemma_remove_all_contains(d, x, s.last());
        if d.contains(s.last()) {
            let k = choose|k: int| 0 <= k < d.len() && d[k] == s.last();
            assert(s[k] == s[s.len() - 1]);
        }
    }
}

/// Taking out a bone that is not in the list changes nothing.
pub proof fn lemma_remove_absent(s: Seq<Bones>, x: Bones)
    requires
        !s.contains(x),
    ensures
        remove_all(s, x) == s,
    decreases s.len(),
{
    if s.len() > 0 {
        let d = s.drop_last();
        if d.contains(x) {
            let k = choose|k: int| 0 <= k < d.len() && d[k] == x;
            assert(s[k] == x);
        }
        lemma_remove_absent(d, x);
        assert(s.last() != x) by {
            if s.last() == x {
                assert(s[s.len() - 1] == x);
            }
        }
        assert(d.push(s.last()) =~= s);
    }
}

/// A click on a bone in the selector flips whether that bone is selected.
pub proof fn law_toggle_bone_flips(s: Seq<Bones>, bone: Bones)
    ensures
        spec_toggle_bone(s, bone).contains(bone) == !s.contains(bone),
{
    if s.contains(bone) {
        lemma_remove_all_contains(s, bone, bone);
    } else {
        assert(s.push(bone)[s.len() as int] == bone);
    }
}

/// A click on a bone leaves every other bone selected or not as it was.
pub proof fn law_toggle_bone_keeps_others(s: Seq<Bones>, bone: Bones, other: Bones)
    requires
        other != bone,
    ensures
        spec_toggle_bone(s, bone).contains(other) == s.contains(other),
{
    if s.contains(bone) {
        lemma_remove_all_contains(s, bone, other);
    } else {
        let t = s.push(bone);
        if t.contains(other) {
            let k = choose|k: int| 0 <= k < t.len() && t[k] == other;
            assert(k < s.len());
            assert(s[k] == other);
        }
        if s.contains(other) {
            let k = choose|k: int| 0 <= k < s.len() && s[k] == other;
            assert(t[k] == other);
        }
    }
}

/// A bone list without duplicates keeps none after a click.
pub proof fn law_toggle_bone_no_duplicates(s: Seq<Bones>, bone: Bones)
    requires
        no_duplicates(s),
    ensures
        no_duplicates(spec_toggle_bone(s, bone)),
{
    if s.contains(bone) {
        lemma_remove_all_no_duplicates(s, bone);
    } else {
        let t = s.push(bone);
        assert forall|i: int, j: int| 0 <= i < j < t.len() implies t[i] != t[j] by {
            if j == s.len() {
                assert(s[i] == t[i]);
            } else {
                assert(s[i] == t[i] && s[j] == t[j]);
            }
        }
    }
}

/// Two clicks on the same bone give back the same selection.
pub proof fn law_toggle_bone_twice(s: Seq<Bones>, bone: Bones)
    ensures
        spec_toggle_bone(spec_toggle_bone(s, bone), bone).to_set() == s.to_set(),
{
    let t = spec_toggle_bone(s, bone);
    let u = spec_toggle_bone(t, bone);
    assert forall|y: Bones| u.to_set().contains(y) == s.to_set().contains(y) by {
        if y == bone {
            law_toggle_bone_flips(s, bone);
            law_toggle_bone_flips(t, bone);
        } else {
            law_toggle_bone_keeps_others(s, bone, y);
            law_toggle_bone_keeps_others(t, bone, y);
        }
    }
    assert(u.to_set() =~= s.to_set());
}

/// Selecting a bone that was not selected and then clicking it again gives
/// back the very same list.
pub proof fn law_toggle_bone_undo(s: Seq<Bones>, bone: Bones)
    requires
        !s.contains(bone),
    ensures
        spec_toggle_bone(spec_toggle_bone(s, bone), bone) == s,
{
    let t = s.push(bone);
    assert(t[s.len() as int] == bone);
    lemma_remove_absent(s, bone);
    assert(t.drop_last() =~= s);
}

/// The layout positions are distinct, one for each bone, and "All" lists
/// every bone once, at its position.
pub proof fn law_bone_positions()
    ensures
        spec_all_bones().len() == BONE_COUNT,
        no_duplicates(spec_all_bones()),
        forall|b: Bones| #[trigger] spec_all_bones().contains(b),
        forall|i: int| 0 <= i < BONE_COUNT ==> spec_bone_idx(#[trigger] spec_all_bones()[i]) == i,
        forall|a: Bones, b: Bones| #[trigger] spec_bone_idx(a) == #[trigger] spec_bone_idx(b) ==> a == b,
{
    let all = spec_all_bones();
    assert forall|i: int| 0 <= i < BONE_COUNT implies spec_bone_idx(#[trigger] all[i]) == i by {
    }
    assert forall|b: Bones| #[trigger] all.contains(b) by {
        assert(all[spec_bone_idx(b) as int] == b);
    }
    assert forall|i: int, j: int| 0 <= i < j < all.len() implies all[i] != all[j] by {
        assert(spec_bone_idx(all[i]) == i);
        assert(spec_bone_idx(all[j]) == j);
    }
}


/// A bone's layout position is its place in the declaration of `Bones`
/// (the order of the T-pose table), and "All" lists the bones in that
/// declaration order.
pub proof fn law_bone_idx_is_declaration_order(b: Bones)
    ensures
        spec_bone_idx(b) == b as int,
        forall|i: int| 0 <= i < spec_all_bones().len() ==> (#[trigger] spec_all_bones()[i]) as int == i,
{
}


/// The names of the bones, in the order the bones are declared.
pub open spec fn bone_names_in_order() -> Seq<Seq<char>> {
    seq!["Head"@, "Neck"@, "Spine4"@, "Spine3"@, "Spine2"@, "Spine1"@, "Hip"@, "LeftShoulder"@, "LeftElbow"@, "LeftHand"@, "RightShoulder"@, "RightElbow"@, "RightHand"@, "LeftHip"@, "LeftKnee"@, "LeftFoot"@, "RightHip"@, "RightKnee"@, "RightFoot"@]
}

/// Each bone is shown under the name at its declaration position.
pub proof fn law_bone_names(b: Bones)
    ensures
        spec_bone_name(b) == bone_names_in_order()[b as int],
{
}

/// The position of `bone` in the T-pose layout.
pub fn bone_idx(bone: Bones) -> (idx: usize)
    ensures
        idx == spec_bone_idx(bone),
        idx < BONE_COUNT,
{
    match bone {
        Bones::Head => 0,
        Bones::Neck => 1,
        Bones::Spine4 => 2,
        Bones::Spine3 => 3,
        Bones::Spine2 => 4,
        Bones::Spine1 => 5,
        Bones::Hip => 6,
        Bones::LeftShoulder => 7,
        Bones::LeftElbow => 8,
        Bones::LeftHand => 9,
        Bones::RightShoulder => 10,
        Bones::RightElbow => 11,
        Bones::RightHand => 12,
        Bones::LeftHip => 13,
        Bones::LeftKnee => 14,
        Bones::LeftFoot => 15,
        Bones::RightHip => 16,
        Bones::RightKnee => 17,
        Bones::RightFoot => 18,
    }
}

/// Every bone, in the order of their positions; what "All" selects.
pub fn all_bones() -> (v: Vec<Bones>)
    ensures
        v@ == spec_all_bones(),
{
    let v: Vec<Bones> = vec![
        Bones::Head,
        Bones::Neck,
        Bones::Spine4,
        Bones::Spine3,
        Bones::Spine2,
        Bones::Spine1,
        Bones::Hip,
        Bones::LeftShoulder,
        Bones::LeftElbow,
        Bones::LeftHand,
        Bones::RightShoulder,
        Bones::RightElbow,
        Bones::RightHand,
        Bones::LeftHip,
        Bones::LeftKnee,
        Bones::LeftFoot,
        Bones::RightHip,
        Bones::RightKnee,
        Bones::RightFoot,
    ];
    assert(v@ =~= spec_all_bones());
    v
}

/// The name a bone is shown under in the selector.
pub fn bone_name(bone: Bones) -> (s: &'static str)
    ensures
        s@ == spec_bone_name(bone),
{
    match bone {
        Bones::Head => "Head",
        Bones::Neck => "Neck",
        Bones::Spine4 => "Spine4",
        Bones::Spine3 => "Spine3",
        Bones::Spine2 => "Spine2",
        Bones::Spine1 => "Spine1",
        Bones::Hip => "Hip",
        Bones::LeftShoulder => "LeftShoulder",
        Bones::LeftElbow => "LeftElbow",
        Bones::LeftHand => "LeftHand",
        Bones::RightShoulder => "RightShoulder",
        Bones::RightElbow => "RightElbow",
        Bones::RightHand => "RightHand",
        Bones::LeftHip => "LeftHip",
        Bones::LeftKnee => "LeftKnee",
        Bones::LeftFoot => "LeftFoot",
        Bones::RightHip => "RightHip",
        Bones::RightKnee => "RightKnee",
        Bones::RightFoot => "RightFoot",
    }
}

/// Whether `bone` is in the list.
pub fn contains_bone(bones: &Vec<Bones>, bone: Bones) -> (found: bool)
    ensures
        found == bones@.contains(bone),
{
    let mut i: usize = 0;
    while i < bones.len()
        invariant
            i <= bones.len(),
            forall|j: int| 0 <= j < i ==> bones@[j] != bone,
        decreases bones.len() - i,
    {
        if bones[i] == bone {
            assert(bones@[i as int] == bone);
            return true;
        }
        i = i + 1;
    }
    false
}

/// A click on `bone` in the selector: takes it out of the list when it is
/// selected, appends it otherwise.
pub fn toggle_bone(bones: &mut Vec<Bones>, bone: Bones)
    ensures
        final(bones)@ == spec_toggle_bone(old(bones)@, bone),
{
    if contains_bone(bones, bone) {
        let mut kept: Vec<Bones> = Vec::new();
        let mut i: usize = 0;
        while i < bones.len()
            invariant
                i <= bones.len(),
                kept@ == remove_all(bones@.take(i as int), bone),
            decreases bones.len() - i,
        {
            let b = bones[i];
            assert(bones@.take(i + 1).drop_last() =~= bones@.take(i as int));
            if b != bone {
                kept.push(b);
            }
            i = i + 1;
        }
        assert(bones@.take(bones@.len() as int) =~= bones@);
        *bones = kept;
    } else {
        bones.push(bone);
    }
}

} // verus!
