use deadlocked::bones::{all_bones, bone_idx, bone_name, contains_bone, toggle_bone, Bones, BONE_COUNT};

#[test]
fn bone_positions_follow_layout() {
    assert_eq!(bone_idx(Bones::Head), 0);
    assert_eq!(bone_idx(Bones::Hip), 6);
    assert_eq!(bone_idx(Bones::LeftShoulder), 7);
    assert_eq!(bone_idx(Bones::RightFoot), 18);
    let all = all_bones();
    assert_eq!(all.len(), BONE_COUNT);
    for (i, b) in all.iter().enumerate() {
        assert_eq!(bone_idx(*b), i);
    }
}

#[test]
fn bone_names() {
    assert_eq!(bone_name(Bones::Head), "Head");
    assert_eq!(bone_name(Bones::Spine4), "Spine4");
    assert_eq!(bone_name(Bones::LeftKnee), "LeftKnee");
    assert_eq!(format!("{:?}", Bones::RightElbow), bone_name(Bones::RightElbow));
}

#[test]
fn toggle_appends_and_removes() {
    let mut bones = vec![Bones::Head, Bones::Neck];
    toggle_bone(&mut bones, Bones::Hip);
    assert_eq!(bones, vec![Bones::Head, Bones::Neck, Bones::Hip]);
    toggle_bone(&mut bones, Bones::Neck);
    assert_eq!(bones, vec![Bones::Head, Bones::Hip]);
    toggle_bone(&mut bones, Bones::Neck);
    assert_eq!(bones, vec![Bones::Head, Bones::Hip, Bones::Neck]);
}

#[test]
fn toggle_removes_every_copy() {
    let mut bones = vec![Bones::Head, Bones::Neck, Bones::Head];
    toggle_bone(&mut bones, Bones::Head);
    assert_eq!(bones, vec![Bones::Neck]);
    assert!(!contains_bone(&bones, Bones::Head));
    assert!(contains_bone(&bones, Bones::Neck));
}

#[test]
fn toggle_twice_of_new_bone_undoes() {
    let start = vec![Bones::Spine1, Bones::LeftHand];
    let mut bones = start.clone();
    toggle_bone(&mut bones, Bones::RightHip);
    toggle_bone(&mut bones, Bones::RightHip);
    assert_eq!(bones, start);
}

#[test]
fn toggle_empty_list() {
    let mut bones = Vec::new();
    toggle_bone(&mut bones, Bones::Head);
    assert_eq!(bones, vec![Bones::Head]);
    toggle_bone(&mut bones, Bones::Head);
    assert!(bones.is_empty());
}
