use scam::metadata::{
    FileTimestamp, MetadataSnapshot, PermissionBits, TimestampUpdate, temporarily_writable,
    with_owner_write,
};

#[test]
fn chooses_which_timestamps_to_restore() {
    let a = FileTimestamp { seconds: 1_700_000_000, nanos: 5 };
    let m = FileTimestamp { seconds: 1_710_000_000, nanos: 0 };
    let permissions = PermissionBits { readonly: true, mode: Some(0o444) };
    let both = MetadataSnapshot { permissions, accessed: Some(a), modified: Some(m) };
    assert_eq!(both.timestamp_update(), TimestampUpdate::Both { accessed: a, modified: m });
    let only_m = MetadataSnapshot { permissions, accessed: None, modified: Some(m) };
    assert_eq!(only_m.timestamp_update(), TimestampUpdate::ModifiedOnly(m));
    let only_a = MetadataSnapshot { permissions, accessed: Some(a), modified: None };
    assert_eq!(only_a.timestamp_update(), TimestampUpdate::AccessedOnly(a));
    let none = MetadataSnapshot { permissions, accessed: None, modified: None };
    assert_eq!(none.timestamp_update(), TimestampUpdate::Nothing);
}

#[test]
fn makes_read_only_destinations_writable() {
    assert_eq!(with_owner_write(0o444), 0o644);
    assert_eq!(with_owner_write(0o755), 0o755);
    assert_eq!(
        temporarily_writable(PermissionBits { readonly: true, mode: Some(0o444) }),
        Some(PermissionBits { readonly: false, mode: Some(0o644) })
    );
    assert_eq!(
        temporarily_writable(PermissionBits { readonly: true, mode: None }),
        Some(PermissionBits { readonly: false, mode: None })
    );
    assert_eq!(temporarily_writable(PermissionBits { readonly: false, mode: Some(0o644) }), None);
}
