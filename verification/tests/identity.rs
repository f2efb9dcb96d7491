use lodestone_core::identity::{prefix_in_use, select_identity, InstanceUuid, PREFIX_LEN};

fn id(text: &str) -> InstanceUuid {
    InstanceUuid::new(text.to_string()).unwrap()
}

#[test]
fn identity_needs_eight_characters() {
    assert!(InstanceUuid::new("1234567".to_string()).is_none());
    assert!(InstanceUuid::new(String::new()).is_none());
    assert!(InstanceUuid::new("12345678".to_string()).is_some());
}

#[test]
fn identity_keeps_its_text() {
    let uuid = id("0a1b2c3d-4e5f-6789");
    assert_eq!(uuid.as_str(), "0a1b2c3d-4e5f-6789");
    assert_eq!(uuid.clone().as_str(), "0a1b2c3d-4e5f-6789");
}

#[test]
fn prefix_is_the_first_eight_characters() {
    assert_eq!(PREFIX_LEN, 8);
    assert_eq!(id("0a1b2c3d-4e5f-6789").prefix(), "0a1b2c3d");
    assert_eq!(id("12345678").prefix(), "12345678");
}

#[test]
fn prefix_counts_characters_not_bytes() {
    let uuid = id("äöüäöüäö-rest");
    assert_eq!(uuid.prefix(), "äöüäöüäö");
}

#[test]
fn identities_are_compared_by_text() {
    assert!(id("aaaaaaaa-1").same_as(&id("aaaaaaaa-1")));
    assert!(!id("aaaaaaaa-1").same_as(&id("aaaaaaaa-2")));
}

#[test]
fn collision_is_decided_by_the_prefix() {
    assert!(id("aaaaaaaa-1").collides_with(&id("aaaaaaaa-2")));
    assert!(!id("aaaaaaaa-1").collides_with(&id("aaaaaaab-1")));
}

#[test]
fn prefix_in_use_finds_a_collision() {
    let existing = vec![id("aaaaaaaa-1"), id("bbbbbbbb-1")];
    assert!(prefix_in_use(&existing, &id("bbbbbbbb-9")));
    assert!(!prefix_in_use(&existing, &id("cccccccc-1")));
    assert!(!prefix_in_use(&Vec::new(), &id("cccccccc-1")));
}

#[test]
fn select_identity_takes_the_first_free_candidate() {
    let existing = vec![id("aaaaaaaa-1"), id("bbbbbbbb-1")];
    let candidates = vec![id("aaaaaaaa-7"), id("bbbbbbbb-7"), id("cccccccc-7"), id("dddddddd-7")];
    let chosen = select_identity(&existing, &candidates).unwrap();
    assert_eq!(chosen.as_str(), "cccccccc-7");
}

#[test]
fn select_identity_gives_up_when_all_collide() {
    let existing = vec![id("aaaaaaaa-1"), id("bbbbbbbb-1")];
    let candidates = vec![id("aaaaaaaa-7"), id("bbbbbbbb-7")];
    assert!(select_identity(&existing, &candidates).is_none());
    assert!(select_identity(&existing, &Vec::new()).is_none());
}

#[test]
fn generated_identities_never_share_a_prefix() {
    // identities are drawn one after another from candidates that repeat prefixes
    let mut existing: Vec<InstanceUuid> = vec![id("00000000-a"), id("00000001-a")];
    for round in 0..20 {
        let candidates: Vec<InstanceUuid> =
            (0..40).map(|n| id(&format!("{:08}-{}", (n * 7 + round) % 23, round))).collect();
        match select_identity(&existing, &candidates) {
            Some(chosen) => {
                for other in &existing {
                    assert_ne!(other.prefix(), chosen.prefix());
                }
                existing.push(chosen);
            }
            None => {
                for candidate in &candidates {
                    assert!(prefix_in_use(&existing, candidate));
                }
            }
        }
    }
    assert_eq!(existing.len(), 22);
}
