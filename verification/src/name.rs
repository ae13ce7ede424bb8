//! The closed taxonomy of event names: thirty-two concrete kinds (leaves) and
//! eight groups that stand for fixed sets of leaves, with the bit mask used for
//! membership tests and the upper-case tag used on the wire.
use crate::text::same_text;
use vstd::prelude::*;

verus! {

/// An event name. The first thirty-two variants are leaves; the remaining
/// eight are groups.
#[derive(Debug, Clone, Copy, PartialEq, Eq, Structural)]
pub enum Name {
    ObjectAccessedGet,
    ObjectAccessedGetRetention,
    ObjectAccessedGetLegalHold,
    ObjectAccessedHead,
    ObjectAccessedAttributes,
    ObjectCreatedCompleteMultipartUpload,
    ObjectCreatedCopy,
    ObjectCreatedPost,
    ObjectCreatedPut,
    ObjectCreatedPutRetention,
    ObjectCreatedPutLegalHold,
    ObjectCreatedPutTagging,
    ObjectCreatedDeleteTagging,
    ObjectRemovedDelete,
    ObjectRemovedDeleteMarkerCreated,
    ObjectRemovedDeleteAllVersions,
    ObjectRemovedNoOp,
    BucketCreated,
    BucketRemoved,
    ObjectReplicationFailed,
    ObjectReplicationComplete,
    ObjectReplicationMissedThreshold,
    ObjectReplicationReplicatedAfterThreshold,
    ObjectReplicationNotTracked,
    ObjectRestorePost,
    ObjectRestoreCompleted,
    ObjectTransitionFailed,
    ObjectTransitionComplete,
    ObjectManyVersions,
    ObjectLargeVersions,
    PrefixManyFolders,
    IlmDelMarkerExpirationDelete,
    ObjectAccessedAll,
    ObjectCreatedAll,
    ObjectRemovedAll,
    ObjectReplicationAll,
    ObjectRestoreAll,
    ObjectTransitionAll,
    ObjectScannerAll,
    Everything,
}

/// Number of leaves in the taxonomy.
pub const LEAF_COUNT: u32 = 32;

/// Number of names in the taxonomy, leaves and groups together.
pub const NAME_COUNT: u32 = 40;


/// Bitwise OR of the leaf bits of `names`.
pub open spec fn union_bits(names: Seq<Name>) -> u64
    decreases names.len(),
{
    if names.len() == 0 {
        0
    } else {
        union_bits(names.drop_last()) | names.last().leaf_bit()
    }
}

/// Bitwise OR of the masks of `names`.
pub open spec fn union_masks(names: Seq<Name>) -> u64
    decreases names.len(),
{
    if names.len() == 0 {
        0
    } else {
        union_masks(names.drop_last()) | names.last().spec_mask()
    }
}

/// True when every element of `names` is a leaf.
pub open spec fn all_leaves(names: Seq<Name>) -> bool {
    forall|i: int| 0 <= i < names.len() ==> (#[trigger] names[i]).is_leaf()
}

impl Name {
    /// Position of the name in the taxonomy, counted from one.
    pub open spec fn spec_ordinal(self) -> int {
        match self {
            Name::ObjectAccessedGet => 1,
            Name::ObjectAccessedGetRetention => 2,
            Name::ObjectAccessedGetLegalHold => 3,
            Name::ObjectAccessedHead => 4,
            Name::ObjectAccessedAttributes => 5,
            Name::ObjectCreatedCompleteMultipartUpload => 6,
            Name::ObjectCreatedCopy => 7,
            Name::ObjectCreatedPost => 8,
            Name::ObjectCreatedPut => 9,
            Name::ObjectCreatedPutRetention => 10,
            Name::ObjectCreatedPutLegalHold => 11,
            Name::ObjectCreatedPutTagging => 12,
            Name::ObjectCreatedDeleteTagging => 13,
            Name::ObjectRemovedDelete => 14,
            Name::ObjectRemovedDeleteMarkerCreated => 15,
            Name::ObjectRemovedDeleteAllVersions => 16,
            Name::ObjectRemovedNoOp => 17,
            Name::BucketCreated => 18,
            Name::BucketRemoved => 19,
            Name::ObjectReplicationFailed => 20,
            Name::ObjectReplicationComplete => 21,
            Name::ObjectReplicationMissedThreshold => 22,
            Name::ObjectReplicationReplicatedAfterThreshold => 23,
            Name::ObjectReplicationNotTracked => 24,
            Name::ObjectRestorePost => 25,
            Name::ObjectRestoreCompleted => 26,
            Name::ObjectTransitionFailed => 27,
            Name::ObjectTransitionComplete => 28,
            Name::ObjectManyVersions => 29,
            Name::ObjectLargeVersions => 30,
            Name::PrefixManyFolders => 31,
            Name::IlmDelMarkerExpirationDelete => 32,
            Name::ObjectAccessedAll => 33,
            Name::ObjectCreatedAll => 34,
            Name::ObjectRemovedAll => 35,
            Name::ObjectReplicationAll => 36,
            Name::ObjectRestoreAll => 37,
            Name::ObjectTransitionAll => 38,
            Name::ObjectScannerAll => 39,
            Name::Everything => 40,
        }
    }

    /// The name at position `d`, if `d` is between one and forty.
    pub open spec fn spec_from_repr(d: int) -> Option<Name> {
        if d == 1 {
            Some(Name::ObjectAccessedGet)
        } else if d == 2 {
            Some(Name::ObjectAccessedGetRetention)
        } else if d == 3 {
            Some(Name::ObjectAccessedGetLegalHold)
        } else if d == 4 {
            Some(Name::ObjectAccessedHead)
        } else if d == 5 {
            Some(Name::ObjectAccessedAttributes)
        } else if d == 6 {
            Some(Name::ObjectCreatedCompleteMultipartUpload)
        } else if d == 7 {
            Some(Name::ObjectCreatedCopy)
        } else if d == 8 {
            Some(Name::ObjectCreatedPost)
        } else if d == 9 {
            Some(Name::ObjectCreatedPut)
        } else if d == 10 {
            Some(Name::ObjectCreatedPutRetention)
        } else if d == 11 {
            Some(Name::ObjectCreatedPutLegalHold)
        } else if d == 12 {
            Some(Name::ObjectCreatedPutTagging)
        } else if d == 13 {
            Some(Name::ObjectCreatedDeleteTagging)
        } else if d == 14 {
            Some(Name::ObjectRemovedDelete)
        } else if d == 15 {
            Some(Name::ObjectRemovedDeleteMarkerCreated)
        } else if d == 16 {
            Some(Name::ObjectRemovedDeleteAllVersions)
        } else if d == 17 {
            Some(Name::ObjectRemovedNoOp)
        } else if d == 18 {
            Some(Name::BucketCreated)
        } else if d == 19 {
            Some(Name::BucketRemoved)
        } else if d == 20 {
            Some(Name::ObjectReplicationFailed)
        } else if d == 21 {
            Some(Name::ObjectReplicationComplete)
        } else if d == 22 {
            Some(Name::ObjectReplicationMissedThreshold)
        } else if d == 23 {
            Some(Name::ObjectReplicationReplicatedAfterThreshold)
        } else if d == 24 {
            Some(Name::ObjectReplicationNotTracked)
        } else if d == 25 {
            Some(Name::ObjectRestorePost)
        } else if d == 26 {
            Some(Name::ObjectRestoreCompleted)
        } else if d == 27 {
            Some(Name::ObjectTransitionFailed)
        } else if d == 28 {
            Some(Name::ObjectTransitionComplete)
        } else if d == 29 {
            Some(Name::ObjectManyVersions)
        } else if d == 30 {
            Some(Name::ObjectLargeVersions)
        } else if d == 31 {
            Some(Name::PrefixManyFolders)
        } else if d == 32 {
            Some(Name::IlmDelMarkerExpirationDelete)
        } else if d == 33 {
            Some(Name::ObjectAccessedAll)
        } else if d == 34 {
            Some(Name::ObjectCreatedAll)
        } else if d == 35 {
            Some(Name::ObjectRemovedAll)
        } else if d == 36 {
            Some(Name::ObjectReplicationAll)
        } else if d == 37 {
            Some(Name::ObjectRestoreAll)
        } else if d == 38 {
            Some(Name::ObjectTransitionAll)
        } else if d == 39 {
            Some(Name::ObjectScannerAll)
        } else if d == 40 {
            Some(Name::Everything)
        } else {
            None
        }
    }

    /// A leaf is a concrete event kind; the other names are groups.
    pub open spec fn is_leaf(self) -> bool {
        self.spec_ordinal() <= 32
    }

    /// The leaves a name stands for: a leaf stands for itself, a group for its
    /// members, `Everything` for all leaves in taxonomy order.
    pub open spec fn spec_expand(self) -> Seq<Name> {
        match self {
            Name::ObjectAccessedAll => seq![
                Name::ObjectAccessedGet,
                Name::ObjectAccessedHead,
                Name::ObjectAccessedGetRetention,
                Name::ObjectAccessedGetLegalHold,
                Name::ObjectAccessedAttributes,
            ],
            Name::ObjectCreatedAll => seq![
                Name::ObjectCreatedCompleteMultipartUpload,
                Name::ObjectCreatedCopy,
                Name::ObjectCreatedPost,
                Name::ObjectCreatedPut,
                Name::ObjectCreatedPutRetention,
                Name::ObjectCreatedPutLegalHold,
                Name::ObjectCreatedPutTagging,
                Name::ObjectCreatedDeleteTagging,
            ],
            Name::ObjectRemovedAll => seq![
                Name::ObjectRemovedDelete,
                Name::ObjectRemovedDeleteMarkerCreated,
                Name::ObjectRemovedNoOp,
                Name::ObjectRemovedDeleteAllVersions,
            ],
            Name::ObjectReplicationAll => seq![
                Name::ObjectReplicationFailed,
                Name::ObjectReplicationComplete,
                Name::ObjectReplicationNotTracked,
                Name::ObjectReplicationMissedThreshold,
                Name::ObjectReplicationReplicatedAfterThreshold,
            ],
            Name::ObjectRestoreAll => seq![
                Name::ObjectRestorePost,
                Name::ObjectRestoreCompleted,
            ],
            Name::ObjectTransitionAll => seq![
                Name::ObjectTransitionFailed,
                Name::ObjectTransitionComplete,
            ],
            Name::ObjectScannerAll => seq![
                Name::ObjectManyVersions,
                Name::ObjectLargeVersions,
                Name::PrefixManyFolders,
            ],
            Name::Everything => Seq::new(32, |i: int| Name::spec_from_repr(i + 1).unwrap()),
            _ => seq![self],
        }
    }

    /// The single bit that stands for a leaf: bit `k - 1` for the leaf at
    /// position `k`.
    pub open spec fn leaf_bit(self) -> u64 {
        1u64 << ((self.spec_ordinal() - 1) as u64)
    }

    /// The mask of a name: one bit for each leaf it stands for.
    pub open spec fn spec_mask(self) -> u64 {
        union_bits(self.spec_expand())
    }

    /// Two names match when their masks share a bit.
    pub open spec fn spec_matches(self, other: Name) -> bool {
        self.spec_mask() & other.spec_mask() != 0
    }

    /// The tag of a name on the wire: its symbolic name in upper case with
    /// underscores between the words.
    pub open spec fn spec_wire(self) -> Seq<char> {
        match self {
            Name::ObjectAccessedGet => "OBJECT_ACCESSED_GET"@,
            Name::ObjectAccessedGetRetention => "OBJECT_ACCESSED_GET_RETENTION"@,
            Name::ObjectAccessedGetLegalHold => "OBJECT_ACCESSED_GET_LEGAL_HOLD"@,
            Name::ObjectAccessedHead => "OBJECT_ACCESSED_HEAD"@,
            Name::ObjectAccessedAttributes => "OBJECT_ACCESSED_ATTRIBUTES"@,
            Name::ObjectCreatedCompleteMultipartUpload => "OBJECT_CREATED_COMPLETE_MULTIPART_UPLOAD"@,
            Name::ObjectCreatedCopy => "OBJECT_CREATED_COPY"@,
            Name::ObjectCreatedPost => "OBJECT_CREATED_POST"@,
            Name::ObjectCreatedPut => "OBJECT_CREATED_PUT"@,
            Name::ObjectCreatedPutRetention => "OBJECT_CREATED_PUT_RETENTION"@,
            Name::ObjectCreatedPutLegalHold => "OBJECT_CREATED_PUT_LEGAL_HOLD"@,
            Name::ObjectCreatedPutTagging => "OBJECT_CREATED_PUT_TAGGING"@,
            Name::ObjectCreatedDeleteTagging => "OBJECT_CREATED_DELETE_TAGGING"@,
            Name::ObjectRemovedDelete => "OBJECT_REMOVED_DELETE"@,
            Name::ObjectRemovedDeleteMarkerCreated => "OBJECT_REMOVED_DELETE_MARKER_CREATED"@,
            Name::ObjectRemovedDeleteAllVersions => "OBJECT_REMOVED_DELETE_ALL_VERSIONS"@,
            Name::ObjectRemovedNoOp => "OBJECT_REMOVED_NO_OP"@,
            Name::BucketCreated => "BUCKET_CREATED"@,
            Name::BucketRemoved => "BUCKET_REMOVED"@,
            Name::ObjectReplicationFailed => "OBJECT_REPLICATION_FAILED"@,
            Name::ObjectReplicationComplete => "OBJECT_REPLICATION_COMPLETE"@,
            Name::ObjectReplicationMissedThreshold => "OBJECT_REPLICATION_MISSED_THRESHOLD"@,
            Name::ObjectReplicationReplicatedAfterThreshold => "OBJECT_REPLICATION_REPLICATED_AFTER_THRESHOLD"@,
            Name::ObjectReplicationNotTracked => "OBJECT_REPLICATION_NOT_TRACKED"@,
            Name::ObjectRestorePost => "OBJECT_RESTORE_POST"@,
            Name::ObjectRestoreCompleted => "OBJECT_RESTORE_COMPLETED"@,
            Name::ObjectTransitionFailed => "OBJECT_TRANSITION_FAILED"@,
            Name::ObjectTransitionComplete => "OBJECT_TRANSITION_COMPLETE"@,
            Name::ObjectManyVersions => "OBJECT_MANY_VERSIONS"@,
            Name::ObjectLargeVersions => "OBJECT_LARGE_VERSIONS"@,
            Name::PrefixManyFolders => "PREFIX_MANY_FOLDERS"@,
            Name::IlmDelMarkerExpirationDelete => "ILM_DEL_MARKER_EXPIRATION_DELETE"@,
            Name::ObjectAccessedAll => "OBJECT_ACCESSED_ALL"@,
            Name::ObjectCreatedAll => "OBJECT_CREATED_ALL"@,
            Name::ObjectRemovedAll => "OBJECT_REMOVED_ALL"@,
            Name::ObjectReplicationAll => "OBJECT_REPLICATION_ALL"@,
            Name::ObjectRestoreAll => "OBJECT_RESTORE_ALL"@,
            Name::ObjectTransitionAll => "OBJECT_TRANSITION_ALL"@,
            Name::ObjectScannerAll => "OBJECT_SCANNER_ALL"@,
            Name::Everything => "EVERYTHING"@,
        }
    }

    /// Position of the name in the taxonomy, counted from one.
    pub fn ordinal(&self) -> (r: u32)
        ensures
            r == self.spec_ordinal(),
            1 <= r <= 40,
    {
        match self {
            Name::ObjectAccessedGet => 1,
            Name::ObjectAccessedGetRetention => 2,
            Name::ObjectAccessedGetLegalHold => 3,
            Name::ObjectAccessedHead => 4,
            Name::ObjectAccessedAttributes => 5,
            Name::ObjectCreatedCompleteMultipartUpload => 6,
            Name::ObjectCreatedCopy => 7,
            Name::ObjectCreatedPost => 8,
            Name::ObjectCreatedPut => 9,
            Name::ObjectCreatedPutRetention => 10,
            Name::ObjectCreatedPutLegalHold => 11,
            Name::ObjectCreatedPutTagging => 12,
            Name::ObjectCreatedDeleteTagging => 13,
            Name::ObjectRemovedDelete => 14,
            Name::ObjectRemovedDeleteMarkerCreated => 15,
            Name::ObjectRemovedDeleteAllVersions => 16,
            Name::ObjectRemovedNoOp => 17,
            Name::BucketCreated => 18,
            Name::BucketRemoved => 19,
            Name::ObjectReplicationFailed => 20,
            Name::ObjectReplicationComplete => 21,
            Name::ObjectReplicationMissedThreshold => 22,
            Name::ObjectReplicationReplicatedAfterThreshold => 23,
            Name::ObjectReplicationNotTracked => 24,
            Name::ObjectRestorePost => 25,
            Name::ObjectRestoreCompleted => 26,
            Name::ObjectTransitionFailed => 27,
            Name::ObjectTransitionComplete => 28,
            Name::ObjectManyVersions => 29,
            Name::ObjectLargeVersions => 30,
            Name::PrefixManyFolders => 31,
            Name::IlmDelMarkerExpirationDelete => 32,
            Name::ObjectAccessedAll => 33,
            Name::ObjectCreatedAll => 34,
            Name::ObjectRemovedAll => 35,
            Name::ObjectReplicationAll => 36,
            Name::ObjectRestoreAll => 37,
            Name::ObjectTransitionAll => 38,
            Name::ObjectScannerAll => 39,
            Name::Everything => 40,
        }
    }

    /// The name at position `discriminant`, counted from one; `None` outside
    /// one to forty.
    pub fn from_repr(discriminant: u32) -> (r: Option<Name>)
        ensures
            r == Name::spec_from_repr(discriminant as int),
            r is Some <==> 1 <= discriminant <= 40,
            r is Some ==> r.unwrap().spec_ordinal() == discriminant,
    {
        match discriminant {
            1 => Some(Name::ObjectAccessedGet),
            2 => Some(Name::ObjectAccessedGetRetention),
            3 => Some(Name::ObjectAccessedGetLegalHold),
            4 => Some(Name::ObjectAccessedHead),
            5 => Some(Name::ObjectAccessedAttributes),
            6 => Some(Name::ObjectCreatedCompleteMultipartUpload),
            7 => Some(Name::ObjectCreatedCopy),
            8 => Some(Name::ObjectCreatedPost),
            9 => Some(Name::ObjectCreatedPut),
            10 => Some(Name::ObjectCreatedPutRetention),
            11 => Some(Name::ObjectCreatedPutLegalHold),
            12 => Some(Name::ObjectCreatedPutTagging),
            13 => Some(Name::ObjectCreatedDeleteTagging),
            14 => Some(Name::ObjectRemovedDelete),
            15 => Some(Name::ObjectRemovedDeleteMarkerCreated),
            16 => Some(Name::ObjectRemovedDeleteAllVersions),
            17 => Some(Name::ObjectRemovedNoOp),
            18 => Some(Name::BucketCreated),
            19 => Some(Name::BucketRemoved),
            20 => Some(Name::ObjectReplicationFailed),
            21 => Some(Name::ObjectReplicationComplete),
            22 => Some(Name::ObjectReplicationMissedThreshold),
            23 => Some(Name::ObjectReplicationReplicatedAfterThreshold),
            24 => Some(Name::ObjectReplicationNotTracked),
            25 => Some(Name::ObjectRestorePost),
            26 => Some(Name::ObjectRestoreCompleted),
            27 => Some(Name::ObjectTransitionFailed),
            28 => Some(Name::ObjectTransitionComplete),
            29 => Some(Name::ObjectManyVersions),
            30 => Some(Name::ObjectLargeVersions),
            31 => Some(Name::PrefixManyFolders),
            32 => Some(Name::IlmDelMarkerExpirationDelete),
            33 => Some(Name::ObjectAccessedAll),
            34 => Some(Name::ObjectCreatedAll),
            35 => Some(Name::ObjectRemovedAll),
            36 => Some(Name::ObjectReplicationAll),
            37 => Some(Name::ObjectRestoreAll),
            38 => Some(Name::ObjectTransitionAll),
            39 => Some(Name::ObjectScannerAll),
            40 => Some(Name::Everything),
            _ => None,
        }
    }

    /// The leaves this name stands for.
    pub fn expand(&self) -> (r: Vec<Name>)
        ensures
            r@ == self.spec_expand(),
    {
        let r = match self {
            Name::ObjectAccessedAll => vec![
                Name::ObjectAccessedGet,
                Name::ObjectAccessedHead,
                Name::ObjectAccessedGetRetention,
                Name::ObjectAccessedGetLegalHold,
                Name::ObjectAccessedAttributes,
            ],
            Name::ObjectCreatedAll => vec![
                Name::ObjectCreatedCompleteMultipartUpload,
                Name::ObjectCreatedCopy,
                Name::ObjectCreatedPost,
                Name::ObjectCreatedPut,
                Name::ObjectCreatedPutRetention,
                Name::ObjectCreatedPutLegalHold,
                Name::ObjectCreatedPutTagging,
                Name::ObjectCreatedDeleteTagging,
            ],
            Name::ObjectRemovedAll => vec![
                Name::ObjectRemovedDelete,
                Name::ObjectRemovedDeleteMarkerCreated,
                Name::ObjectRemovedNoOp,
                Name::ObjectRemovedDeleteAllVersions,
            ],
            Name::ObjectReplicationAll => vec![
                Name::ObjectReplicationFailed,
                Name::ObjectReplicationComplete,
                Name::ObjectReplicationNotTracked,
                Name::ObjectReplicationMissedThreshold,
                Name::ObjectReplicationReplicatedAfterThreshold,
            ],
            Name::ObjectRestoreAll => vec![
                Name::ObjectRestorePost,
                Name::ObjectRestoreCompleted,
            ],
            Name::ObjectTransitionAll => vec![
                Name::ObjectTransitionFailed,
                Name::ObjectTransitionComplete,
            ],
            Name::ObjectScannerAll => vec![
                Name::ObjectManyVersions,
                Name::ObjectLargeVersions,
                Name::PrefixManyFolders,
            ],
            Name::Everything => {
                let mut all: Vec<Name> = Vec::new();
                let mut d: u32 = 1;
                while d <= LEAF_COUNT
                    invariant
                        1 <= d <= 33,
                        all@ =~= Seq::new((d - 1) as nat, |i: int| Name::spec_from_repr(i + 1).unwrap()),
                    decreases 33 - d,
                {
                    let leaf = Name::from_repr(d);
                    all.push(leaf.unwrap());
                    d = d + 1;
                }
                all
            },
            _ => vec![*self],
        };
        assert(r@ =~= self.spec_expand());
        r
    }

    /// The mask of this name: bit `k - 1` is set exactly when the leaf at
    /// position `k` is among the leaves the name stands for.
    pub fn mask(&self) -> (r: u64)
        ensures
            r == self.spec_mask(),
    {
        let names = self.expand();
        let mut acc: u64 = 0;
        let mut i: usize = 0;
        while i < names.len()
            invariant
                0 <= i <= names.len(),
                acc == union_bits(names@.take(i as int)),
            decreases names.len() - i,
        {
            let ord = names[i].ordinal();
            proof {
                assert(names@.take(i as int + 1).drop_last() =~= names@.take(i as int));
            }
            acc = acc | (1u64 << ((ord - 1) as u64));
            i = i + 1;
        }
        proof {
            assert(names@.take(i as int) =~= names@);
        }
        acc
    }

    /// Membership test: true exactly when the masks of the two names share a
    /// bit.
    pub fn matches(&self, other: Name) -> (r: bool)
        ensures
            r == self.spec_matches(other),
    {
        (self.mask() & other.mask()) != 0
    }

    /// The tag of this name on the wire.
    pub fn as_str(&self) -> (r: &'static str)
        ensures
            r@ == self.spec_wire(),
    {
        match self {
            Name::ObjectAccessedGet => "OBJECT_ACCESSED_GET",
            Name::ObjectAccessedGetRetention => "OBJECT_ACCESSED_GET_RETENTION",
            Name::ObjectAccessedGetLegalHold => "OBJECT_ACCESSED_GET_LEGAL_HOLD",
            Name::ObjectAccessedHead => "OBJECT_ACCESSED_HEAD",
            Name::ObjectAccessedAttributes => "OBJECT_ACCESSED_ATTRIBUTES",
            Name::ObjectCreatedCompleteMultipartUpload => "OBJECT_CREATED_COMPLETE_MULTIPART_UPLOAD",
            Name::ObjectCreatedCopy => "OBJECT_CREATED_COPY",
            Name::ObjectCreatedPost => "OBJECT_CREATED_POST",
            Name::ObjectCreatedPut => "OBJECT_CREATED_PUT",
            Name::ObjectCreatedPutRetention => "OBJECT_CREATED_PUT_RETENTION",
            Name::ObjectCreatedPutLegalHold => "OBJECT_CREATED_PUT_LEGAL_HOLD",
            Name::ObjectCreatedPutTagging => "OBJECT_CREATED_PUT_TAGGING",
            Name::ObjectCreatedDeleteTagging => "OBJECT_CREATED_DELETE_TAGGING",
            Name::ObjectRemovedDelete => "OBJECT_REMOVED_DELETE",
            Name::ObjectRemovedDeleteMarkerCreated => "OBJECT_REMOVED_DELETE_MARKER_CREATED",
            Name::ObjectRemovedDeleteAllVersions => "OBJECT_REMOVED_DELETE_ALL_VERSIONS",
            Name::ObjectRemovedNoOp => "OBJECT_REMOVED_NO_OP",
            Name::BucketCreated => "BUCKET_CREATED",
            Name::BucketRemoved => "BUCKET_REMOVED",
            Name::ObjectReplicationFailed => "OBJECT_REPLICATION_FAILED",
            Name::ObjectReplicationComplete => "OBJECT_REPLICATION_COMPLETE",
            Name::ObjectReplicationMissedThreshold => "OBJECT_REPLICATION_MISSED_THRESHOLD",
            Name::ObjectReplicationReplicatedAfterThreshold => "OBJECT_REPLICATION_REPLICATED_AFTER_THRESHOLD",
            Name::ObjectReplicationNotTracked => "OBJECT_REPLICATION_NOT_TRACKED",
            Name::ObjectRestorePost => "OBJECT_RESTORE_POST",
            Name::ObjectRestoreCompleted => "OBJECT_RESTORE_COMPLETED",
            Name::ObjectTransitionFailed => "OBJECT_TRANSITION_FAILED",
            Name::ObjectTransitionComplete => "OBJECT_TRANSITION_COMPLETE",
            Name::ObjectManyVersions => "OBJECT_MANY_VERSIONS",
            Name::ObjectLargeVersions => "OBJECT_LARGE_VERSIONS",
            Name::PrefixManyFolders => "PREFIX_MANY_FOLDERS",
            Name::IlmDelMarkerExpirationDelete => "ILM_DEL_MARKER_EXPIRATION_DELETE",
            Name::ObjectAccessedAll => "OBJECT_ACCESSED_ALL",
            Name::ObjectCreatedAll => "OBJECT_CREATED_ALL",
            Name::ObjectRemovedAll => "OBJECT_REMOVED_ALL",
            Name::ObjectReplicationAll => "OBJECT_REPLICATION_ALL",
            Name::ObjectRestoreAll => "OBJECT_RESTORE_ALL",
            Name::ObjectTransitionAll => "OBJECT_TRANSITION_ALL",
            Name::ObjectScannerAll => "OBJECT_SCANNER_ALL",
            Name::Everything => "EVERYTHING",
        }
    }

    /// The tag of this name on the wire, as an owned string.
    pub fn to_wire(&self) -> (r: String)
        ensures
            r@ == self.spec_wire(),
    {
        self.as_str().to_owned()
    }

    /// Reads a wire tag: the name whose tag is `text`, or `None` when no name
    /// has that tag.
    pub fn parse(text: &str) -> (r: Option<Name>)
        ensures
            match r {
                Some(n) => n.spec_wire() == text@,
                None => forall|n: Name| n.spec_wire() != text@,
            },
    {
        let mut d: u32 = 1;
        while d <= NAME_COUNT
            invariant
                1 <= d <= 41,
                forall|n: Name| n.spec_ordinal() < d ==> n.spec_wire() != text@,
            decreases 41 - d,
        {
            let candidate = Name::from_repr(d).unwrap();
            if same_text(candidate.as_str(), text) {
                return Some(candidate);
            }
            proof {
                assert forall|n: Name| n.spec_ordinal() < d + 1 implies n.spec_wire() != text@ by {
                    if n.spec_ordinal() == d {
                        ordinal_round_trip(n);
                    }
                }
            }
            d = d + 1;
        }
        None
    }
}

/// Every name sits at a position between one and forty, and the position
/// leads back to the name.
pub proof fn ordinal_round_trip(n: Name)
    ensures
        1 <= n.spec_ordinal() <= 40,
        Name::spec_from_repr(n.spec_ordinal()) == Some(n),
{
}

/// A leaf stands for itself alone.
pub proof fn leaf_expands_to_itself(l: Name)
    requires
        l.is_leaf(),
    ensures
        l.spec_expand() == seq![l],
{
}

/// No name stands for a group: every element of an expansion is a leaf.
pub proof fn expansion_holds_only_leaves(n: Name)
    ensures
        all_leaves(n.spec_expand()),
{
}

/// `Everything` stands for all thirty-two leaves, in taxonomy order.
pub proof fn everything_expands_to_all_leaves()
    ensures
        Name::Everything.spec_expand().len() == 32,
        forall|i: int|
            0 <= i < 32 ==> (#[trigger] Name::Everything.spec_expand()[i]).spec_ordinal() == i + 1,
{
}

/// The mask of a leaf is its own bit, and exactly one bit of it is set.
pub proof fn leaf_mask_has_one_bit(l: Name)
    requires
        l.is_leaf(),
    ensures
        l.spec_mask() == l.leaf_bit(),
        l.spec_mask() != 0,
        l.spec_mask() & ((l.spec_mask() - 1) as u64) == 0,
{
    let k = (l.spec_ordinal() - 1) as u64;
    assert(l.spec_expand() =~= seq![l]);
    assert(seq![l].drop_last() =~= Seq::<Name>::empty());
    assert(union_bits(seq![l]) == union_bits(Seq::<Name>::empty()) | l.leaf_bit());
    assert(0u64 | (1u64 << k) == 1u64 << k) by (bit_vector);
    assert(k < 64 ==> (1u64 << k) != 0 && (1u64 << k) & (((1u64 << k) - 1) as u64) == 0)
        by (bit_vector);
}

/// Over leaves, the union of the masks is the union of the leaf bits.
pub proof fn union_of_leaf_masks(names: Seq<Name>)
    requires
        all_leaves(names),
    ensures
        union_masks(names) == union_bits(names),
    decreases names.len(),
{
    if names.len() > 0 {
        assert(all_leaves(names.drop_last())) by {
            assert forall|i: int| 0 <= i < names.drop_last().len() implies (
            #[trigger] names.drop_last()[i]).is_leaf() by {
                assert(names.drop_last()[i] == names[i]);
            }
        }
        union_of_leaf_masks(names.drop_last());
        leaf_mask_has_one_bit(names.last());
    }
}

/// The mask of any name is the union of the masks of the leaves it stands
/// for.
pub proof fn mask_is_union_of_member_masks(n: Name)
    ensures
        n.spec_mask() == union_masks(n.spec_expand()),
{
    expansion_holds_only_leaves(n);
    union_of_leaf_masks(n.spec_expand());
}

/// True when the two sequences hold a common name.
pub open spec fn share_a_name(a: Seq<Name>, b: Seq<Name>) -> bool {
    exists|i: int, j: int| 0 <= i < a.len() && 0 <= j < b.len() && a[i] == b[j]
}

/// The bit of a name is set in a union exactly when the name is a member.
pub proof fn bit_is_set_for_members(names: Seq<Name>, n: Name)
    ensures
        (union_bits(names) & n.leaf_bit() != 0) <==> names.contains(n),
    decreases names.len(),
{
    if names.len() > 0 {
        let rest = names.drop_last();
        let last = names.last();
        bit_is_set_for_members(rest, n);
        ordinal_round_trip(last);
        ordinal_round_trip(n);
        let u = union_bits(rest);
        let j = (last.spec_ordinal() - 1) as u64;
        let k = (n.spec_ordinal() - 1) as u64;
        assert(((u | (1u64 << j)) & (1u64 << k) != 0) <==> ((u & (1u64 << k) != 0) || ((1u64 << j)
            & (1u64 << k) != 0))) by (bit_vector);
        assert(j < 64 && k < 64 ==> (((1u64 << j) & (1u64 << k) != 0) <==> j == k))
            by (bit_vector);
        if names.contains(n) {
            let i = choose|i: int| 0 <= i < names.len() && names[i] == n;
            if i < rest.len() {
                assert(rest[i] == n);
            }
        }
        if rest.contains(n) {
            let i = choose|i: int| 0 <= i < rest.len() && rest[i] == n;
            assert(names[i] == n);
        }
        if j == k {
            assert(names[names.len() - 1] == n);
        }
    } else {
        assert(0u64 & n.leaf_bit() == 0) by (bit_vector);
    }
}

/// Two unions of leaf bits share a bit exactly when the two sequences share
/// a name.
pub proof fn unions_meet_on_shared_names(a: Seq<Name>, b: Seq<Name>)
    ensures
        (union_bits(a) & union_bits(b) != 0) <==> share_a_name(a, b),
    decreases b.len(),
{
    if b.len() > 0 {
        let rest = b.drop_last();
        let last = b.last();
        unions_meet_on_shared_names(a, rest);
        bit_is_set_for_members(a, last);
        let ua = union_bits(a);
        let ur = union_bits(rest);
        let bit = last.leaf_bit();
        assert((ua & (ur | bit) != 0) <==> ((ua & ur != 0) || (ua & bit != 0))) by (bit_vector);
        if share_a_name(a, b) {
            let (i, j) = choose|i: int, j: int|
                0 <= i < a.len() && 0 <= j < b.len() && a[i] == b[j];
            if j < rest.len() {
                assert(rest[j] == a[i]);
                assert(share_a_name(a, rest));
            } else {
                assert(a.contains(last));
            }
        }
        if share_a_name(a, rest) {
            let (i, j) = choose|i: int, j: int|
                0 <= i < a.len() && 0 <= j < rest.len() && a[i] == rest[j];
            assert(b[j] == a[i]);
        }
        if a.contains(last) {
            let i = choose|i: int| 0 <= i < a.len() && a[i] == last;
            assert(b[b.len() - 1] == a[i]);
        }
    } else {
        let ua = union_bits(a);
        assert(ua & 0u64 == 0) by (bit_vector);
    }
}

/// The membership test is faithful: the masks of two names share a bit
/// exactly when the two names stand for a common leaf.
pub proof fn names_match_on_shared_leaves(a: Name, b: Name)
    ensures
        a.spec_matches(b) <==> share_a_name(a.spec_expand(), b.spec_expand()),
{
    unions_meet_on_shared_names(a.spec_expand(), b.spec_expand());
}

/// Distinct names have distinct wire tags.
pub proof fn wire_is_injective(a: Name, b: Name)
    requires
        a.spec_wire() == b.spec_wire(),
    ensures
        a == b,
{
    reveal_strlit("OBJECT_ACCESSED_GET");
    reveal_strlit("OBJECT_ACCESSED_GET_RETENTION");
    reveal_strlit("OBJECT_ACCESSED_GET_LEGAL_HOLD");
    reveal_strlit("OBJECT_ACCESSED_HEAD");
    reveal_strlit("OBJECT_ACCESSED_ATTRIBUTES");
    reveal_strlit("OBJECT_CREATED_COMPLETE_MULTIPART_UPLOAD");
    reveal_strlit("OBJECT_CREATED_COPY");
    reveal_strlit("OBJECT_CREATED_POST");
    reveal_strlit("OBJECT_CREATED_PUT");
    reveal_strlit("OBJECT_CREATED_PUT_RETENTION");
    reveal_strlit("OBJECT_CREATED_PUT_LEGAL_HOLD");
    reveal_strlit("OBJECT_CREATED_PUT_TAGGING");
    reveal_strlit("OBJECT_CREATED_DELETE_TAGGING");
    reveal_strlit("OBJECT_REMOVED_DELETE");
    reveal_strlit("OBJECT_REMOVED_DELETE_MARKER_CREATED");
    reveal_strlit("OBJECT_REMOVED_DELETE_ALL_VERSIONS");
    reveal_strlit("OBJECT_REMOVED_NO_OP");
    reveal_strlit("BUCKET_CREATED");
    reveal_strlit("BUCKET_REMOVED");
    reveal_strlit("OBJECT_REPLICATION_FAILED");
    reveal_strlit("OBJECT_REPLICATION_COMPLETE");
    reveal_strlit("OBJECT_REPLICATION_MISSED_THRESHOLD");
    reveal_strlit("OBJECT_REPLICATION_REPLICATED_AFTER_THRESHOLD");
    reveal_strlit("OBJECT_REPLICATION_NOT_TRACKED");
    reveal_strlit("OBJECT_RESTORE_POST");
    reveal_strlit("OBJECT_RESTORE_COMPLETED");
    reveal_strlit("OBJECT_TRANSITION_FAILED");
    reveal_strlit("OBJECT_TRANSITION_COMPLETE");
    reveal_strlit("OBJECT_MANY_VERSIONS");
    reveal_strlit("OBJECT_LARGE_VERSIONS");
    reveal_strlit("PREFIX_MANY_FOLDERS");
    reveal_strlit("ILM_DEL_MARKER_EXPIRATION_DELETE");
    reveal_strlit("OBJECT_ACCESSED_ALL");
    reveal_strlit("OBJECT_CREATED_ALL");
    reveal_strlit("OBJECT_REMOVED_ALL");
    reveal_strlit("OBJECT_REPLICATION_ALL");
    reveal_strlit("OBJECT_RESTORE_ALL");
    reveal_strlit("OBJECT_TRANSITION_ALL");
    reveal_strlit("OBJECT_SCANNER_ALL");
    reveal_strlit("EVERYTHING");
    let sa = a.spec_wire();
    let sb = b.spec_wire();
    match a {
        Name::ObjectAccessedGet => {
            assert(sb.len() == 19);
            assert(sb[16] == 'G');
        },
        Name::ObjectAccessedGetRetention => {
            assert(sb.len() == 29);
            assert(sb[7] == 'A');
        },
        Name::ObjectAccessedGetLegalHold => {
            assert(sb.len() == 30);
            assert(sb[7] == 'A');
        },
        Name::ObjectAccessedHead => {
            assert(sb.len() == 20);
            assert(sb[7] == 'A');
        },
        Name::ObjectAccessedAttributes => {
            assert(sb.len() == 26);
            assert(sb[7] == 'A');
        },
        Name::ObjectCreatedCompleteMultipartUpload => {
            assert(sb.len() == 40);
        },
        Name::ObjectCreatedCopy => {
            assert(sb.len() == 19);
            assert(sb[15] == 'C');
        },
        Name::ObjectCreatedPost => {
            assert(sb.len() == 19);
            assert(sb[7] == 'C');
            assert(sb[15] == 'P');
        },
        Name::ObjectCreatedPut => {
            assert(sb.len() == 18);
            assert(sb[15] == 'P');
        },
        Name::ObjectCreatedPutRetention => {
            assert(sb.len() == 28);
        },
        Name::ObjectCreatedPutLegalHold => {
            assert(sb.len() == 29);
            assert(sb[15] == 'P');
        },
        Name::ObjectCreatedPutTagging => {
            assert(sb.len() == 26);
            assert(sb[7] == 'C');
        },
        Name::ObjectCreatedDeleteTagging => {
            assert(sb.len() == 29);
            assert(sb[15] == 'D');
        },
        Name::ObjectRemovedDelete => {
            assert(sb.len() == 21);
            assert(sb[7] == 'R');
        },
        Name::ObjectRemovedDeleteMarkerCreated => {
            assert(sb.len() == 36);
        },
        Name::ObjectRemovedDeleteAllVersions => {
            assert(sb.len() == 34);
        },
        Name::ObjectRemovedNoOp => {
            assert(sb.len() == 20);
            assert(sb[7] == 'R');
        },
        Name::BucketCreated => {
            assert(sb.len() == 14);
            assert(sb[7] == 'C');
        },
        Name::BucketRemoved => {
            assert(sb.len() == 14);
            assert(sb[7] == 'R');
        },
        Name::ObjectReplicationFailed => {
            assert(sb.len() == 25);
        },
        Name::ObjectReplicationComplete => {
            assert(sb.len() == 27);
        },
        Name::ObjectReplicationMissedThreshold => {
            assert(sb.len() == 35);
        },
        Name::ObjectReplicationReplicatedAfterThreshold => {
            assert(sb.len() == 45);
        },
        Name::ObjectReplicationNotTracked => {
            assert(sb.len() == 30);
            assert(sb[7] == 'R');
        },
        Name::ObjectRestorePost => {
            assert(sb.len() == 19);
            assert(sb[7] == 'R');
        },
        Name::ObjectRestoreCompleted => {
            assert(sb.len() == 24);
            assert(sb[7] == 'R');
        },
        Name::ObjectTransitionFailed => {
            assert(sb.len() == 24);
            assert(sb[7] == 'T');
        },
        Name::ObjectTransitionComplete => {
            assert(sb.len() == 26);
            assert(sb[7] == 'T');
        },
        Name::ObjectManyVersions => {
            assert(sb.len() == 20);
            assert(sb[7] == 'M');
        },
        Name::ObjectLargeVersions => {
            assert(sb.len() == 21);
            assert(sb[7] == 'L');
        },
        Name::PrefixManyFolders => {
            assert(sb.len() == 19);
            assert(sb[0] == 'P');
        },
        Name::IlmDelMarkerExpirationDelete => {
            assert(sb.len() == 32);
        },
        Name::ObjectAccessedAll => {
            assert(sb.len() == 19);
            assert(sb[16] == 'A');
        },
        Name::ObjectCreatedAll => {
            assert(sb.len() == 18);
            assert(sb[7] == 'C');
            assert(sb[15] == 'A');
        },
        Name::ObjectRemovedAll => {
            assert(sb.len() == 18);
            assert(sb[9] == 'M');
        },
        Name::ObjectReplicationAll => {
            assert(sb.len() == 22);
        },
        Name::ObjectRestoreAll => {
            assert(sb.len() == 18);
            assert(sb[9] == 'S');
        },
        Name::ObjectTransitionAll => {
            assert(sb.len() == 21);
            assert(sb[7] == 'T');
        },
        Name::ObjectScannerAll => {
            assert(sb.len() == 18);
            assert(sb[7] == 'S');
        },
        Name::Everything => {
            assert(sb.len() == 10);
        },
    }
}

/// Reading the wire tag of a name gives the name back: whatever `parse`
/// returns for the tag of `n` is `n`.
pub proof fn parse_inverts_wire(n: Name, parsed: Option<Name>)
    requires
        match parsed {
            Some(m) => m.spec_wire() == n.spec_wire(),
            None => forall|m: Name| m.spec_wire() != n.spec_wire(),
        },
    ensures
        parsed == Some(n),
{
    match parsed {
        Some(m) => {
            wire_is_injective(m, n);
        },
        None => {
            assert(n.spec_wire() == n.spec_wire());
        },
    }
}

} // verus!
