use event_notification::name::{Name, LEAF_COUNT, NAME_COUNT};

fn all_names() -> Vec<Name> {
    (1..=NAME_COUNT).map(|d| Name::from_repr(d).unwrap()).collect()
}

#[test]
fn from_repr_covers_one_to_forty() {
    assert_eq!(Name::from_repr(0), None);
    assert_eq!(Name::from_repr(41), None);
    assert_eq!(Name::from_repr(u32::MAX), None);
    assert_eq!(Name::from_repr(1), Some(Name::ObjectAccessedGet));
    assert_eq!(Name::from_repr(9), Some(Name::ObjectCreatedPut));
    assert_eq!(Name::from_repr(32), Some(Name::IlmDelMarkerExpirationDelete));
    assert_eq!(Name::from_repr(33), Some(Name::ObjectAccessedAll));
    assert_eq!(Name::from_repr(40), Some(Name::Everything));
    for d in 1..=NAME_COUNT {
        assert_eq!(Name::from_repr(d).unwrap().ordinal(), d);
    }
}

#[test]
fn leaf_expands_to_itself() {
    for d in 1..=LEAF_COUNT {
        let leaf = Name::from_repr(d).unwrap();
        assert_eq!(leaf.expand(), vec![leaf]);
    }
}

#[test]
fn leaf_mask_has_exactly_one_bit() {
    for d in 1..=LEAF_COUNT {
        let leaf = Name::from_repr(d).unwrap();
        assert_eq!(leaf.mask(), 1u64 << (d - 1));
        assert_eq!(leaf.mask().count_ones(), 1);
    }
    assert_eq!(Name::ObjectAccessedGet.mask(), 1);
    assert_eq!(Name::ObjectCreatedPut.mask(), 256);
    assert_eq!(Name::IlmDelMarkerExpirationDelete.mask(), 0x8000_0000);
}

#[test]
fn group_mask_is_union_of_member_masks() {
    for d in (LEAF_COUNT + 1)..=NAME_COUNT {
        let group = Name::from_repr(d).unwrap();
        let mut union = 0u64;
        for leaf in group.expand() {
            assert!(leaf.ordinal() <= LEAF_COUNT, "a group holds only leaves");
            union |= leaf.mask();
        }
        assert_eq!(group.mask(), union);
    }
}

#[test]
fn group_masks_have_their_values() {
    assert_eq!(Name::ObjectAccessedAll.mask(), 0b1_1111);
    assert_eq!(Name::ObjectCreatedAll.mask(), 0b1_1111_1110_0000);
    assert_eq!(Name::ObjectRemovedAll.mask(), 0b1_1110_0000_0000_0000);
    assert_eq!(Name::ObjectReplicationAll.mask(), 0x00F8_0000);
    assert_eq!(Name::ObjectRestoreAll.mask(), 0x0300_0000);
    assert_eq!(Name::ObjectTransitionAll.mask(), 0x0C00_0000);
    assert_eq!(Name::ObjectScannerAll.mask(), 0x7000_0000);
    assert_eq!(Name::Everything.mask(), 0xFFFF_FFFF);
}

#[test]
fn group_expansions_follow_the_table() {
    assert_eq!(
        Name::ObjectAccessedAll.expand(),
        vec![
            Name::ObjectAccessedGet,
            Name::ObjectAccessedHead,
            Name::ObjectAccessedGetRetention,
            Name::ObjectAccessedGetLegalHold,
            Name::ObjectAccessedAttributes,
        ]
    );
    assert_eq!(
        Name::ObjectCreatedAll.expand(),
        vec![
            Name::ObjectCreatedCompleteMultipartUpload,
            Name::ObjectCreatedCopy,
            Name::ObjectCreatedPost,
            Name::ObjectCreatedPut,
            Name::ObjectCreatedPutRetention,
            Name::ObjectCreatedPutLegalHold,
            Name::ObjectCreatedPutTagging,
            Name::ObjectCreatedDeleteTagging,
        ]
    );
    assert_eq!(
        Name::ObjectRemovedAll.expand(),
        vec![
            Name::ObjectRemovedDelete,
            Name::ObjectRemovedDeleteMarkerCreated,
            Name::ObjectRemovedNoOp,
            Name::ObjectRemovedDeleteAllVersions,
        ]
    );
    assert_eq!(
        Name::ObjectReplicationAll.expand(),
        vec![
            Name::ObjectReplicationFailed,
            Name::ObjectReplicationComplete,
            Name::ObjectReplicationNotTracked,
            Name::ObjectReplicationMissedThreshold,
            Name::ObjectReplicationReplicatedAfterThreshold,
        ]
    );
    assert_eq!(
        Name::ObjectRestoreAll.expand(),
        vec![Name::ObjectRestorePost, Name::ObjectRestoreCompleted]
    );
    assert_eq!(
        Name::ObjectTransitionAll.expand(),
        vec![Name::ObjectTransitionFailed, Name::ObjectTransitionComplete]
    );
    assert_eq!(
        Name::ObjectScannerAll.expand(),
        vec![Name::ObjectManyVersions, Name::ObjectLargeVersions, Name::PrefixManyFolders]
    );
}

#[test]
fn everything_expands_to_thirty_two_leaves_in_order() {
    let all = Name::Everything.expand();
    assert_eq!(all.len(), 32);
    for (i, leaf) in all.iter().enumerate() {
        assert_eq!(leaf.ordinal() as usize, i + 1);
    }
}

#[test]
fn wire_form_is_screaming_snake_case() {
    assert_eq!(Name::ObjectCreatedPut.as_str(), "OBJECT_CREATED_PUT");
    assert_eq!(Name::ObjectCreatedPut.to_wire(), "OBJECT_CREATED_PUT".to_string());
    assert_eq!(
        Name::ObjectCreatedCompleteMultipartUpload.as_str(),
        "OBJECT_CREATED_COMPLETE_MULTIPART_UPLOAD"
    );
    assert_eq!(Name::ObjectRemovedNoOp.as_str(), "OBJECT_REMOVED_NO_OP");
    assert_eq!(
        Name::IlmDelMarkerExpirationDelete.as_str(),
        "ILM_DEL_MARKER_EXPIRATION_DELETE"
    );
    assert_eq!(Name::Everything.as_str(), "EVERYTHING");
}

#[test]
fn parse_is_the_inverse_of_the_wire_form() {
    for name in all_names() {
        assert_eq!(Name::parse(name.as_str()), Some(name));
    }
    assert_eq!(Name::parse("OBJECT_CREATED_PUT"), Some(Name::ObjectCreatedPut));
}

#[test]
fn parse_rejects_what_is_no_tag() {
    assert_eq!(Name::parse(""), None);
    assert_eq!(Name::parse("object_created_put"), None);
    assert_eq!(Name::parse("ObjectCreatedPut"), None);
    assert_eq!(Name::parse("OBJECT_CREATED_PUT "), None);
    assert_eq!(Name::parse("OBJECT_CREATED"), None);
}

#[test]
fn wire_tags_are_distinct() {
    let names = all_names();
    for a in &names {
        for b in &names {
            if a != b {
                assert_ne!(a.as_str(), b.as_str());
            }
        }
    }
}

#[test]
fn matches_is_a_shared_mask_bit() {
    assert!(Name::ObjectCreatedPut.matches(Name::ObjectCreatedAll));
    assert!(Name::ObjectCreatedAll.matches(Name::ObjectCreatedPut));
    assert!(!Name::ObjectCreatedPut.matches(Name::ObjectRemovedAll));
    assert!(Name::ObjectCreatedPut.matches(Name::Everything));
    assert!(!Name::BucketCreated.matches(Name::ObjectCreatedAll));
    assert!(Name::BucketCreated.matches(Name::Everything));
    for a in all_names() {
        for b in all_names() {
            assert_eq!(a.matches(b), a.mask() & b.mask() != 0);
        }
    }
}
