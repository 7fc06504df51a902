use cubism_core::{
    align_padding, aligned_alloc_len, check_moc_buffer, check_model_buffer, check_supported,
    decode_constant_flags, decode_count, decode_dynamic_flags, CoreError, DynamicDrawableFlags,
    ModelEpoch, MocVersion, NonDynamicDrawableFlags, ALIGN_OF_MOC, ALIGN_OF_MODEL,
    BLEND_ADDITIVE, BLEND_MULTIPLICATIVE, CONSTANT_FLAGS_ALL, DRAW_ORDER_DID_CHANGE,
    DYNAMIC_FLAGS_ALL, DYNAMIC_FLAGS_CHANGED, IS_DOUBLE_SIDED, IS_VISIBLE, MOC_VERSION_30,
    MOC_VERSION_33, MOC_VERSION_40, MOC_VERSION_UNKNOWN, NOT_APPLICABLE, OPACITY_DID_CHANGE,
    RENDER_ORDER_DID_CHANGE, VISIBILITY_DID_CHANGE,
};

#[test]
fn alignment_constants_match_the_runtime() {
    assert_eq!(ALIGN_OF_MOC, 64);
    assert_eq!(ALIGN_OF_MODEL, 16);
}

#[test]
fn count_sentinel_is_absence() {
    assert_eq!(NOT_APPLICABLE, -1);
    assert_eq!(decode_count(NOT_APPLICABLE), None);
    assert_eq!(decode_count(-1), None);
}

#[test]
fn count_other_negatives_are_absence() {
    assert_eq!(decode_count(-2), None);
    assert_eq!(decode_count(i32::MIN), None);
}

#[test]
fn count_non_negative_passes_through() {
    assert_eq!(decode_count(0), Some(0));
    assert_eq!(decode_count(7), Some(7));
    assert_eq!(decode_count(i32::MAX), Some(i32::MAX as u32));
}

#[test]
fn version_raw_values_decode() {
    assert_eq!(MocVersion::from_raw(MOC_VERSION_UNKNOWN), Some(MocVersion::Unknown));
    assert_eq!(MocVersion::from_raw(0), Some(MocVersion::Unknown));
    assert_eq!(MocVersion::from_raw(1), Some(MocVersion::Version30));
    assert_eq!(MocVersion::from_raw(2), Some(MocVersion::Version33));
    assert_eq!(MocVersion::from_raw(3), Some(MocVersion::Version40));
}

#[test]
fn version_unrecognised_raw_value_is_none() {
    assert_eq!(MocVersion::from_raw(4), None);
    assert_eq!(MocVersion::from_raw(u32::MAX), None);
}

#[test]
fn version_round_trips_through_raw() {
    for v in [
        MocVersion::Unknown,
        MocVersion::Version30,
        MocVersion::Version33,
        MocVersion::Version40,
    ] {
        assert_eq!(MocVersion::from_raw(v.to_raw()), Some(v));
    }
    assert_eq!(MocVersion::Version40.to_raw(), 3);
}

#[test]
fn modern_formats_are_supported() {
    for raw in [MOC_VERSION_30, MOC_VERSION_33, MOC_VERSION_40] {
        let v = MocVersion::from_raw(raw).unwrap();
        assert!(v.is_known());
        assert_eq!(check_supported(v), Ok(v));
    }
}

#[test]
fn unknown_format_is_unsupported() {
    assert!(!MocVersion::Unknown.is_known());
    assert_eq!(check_supported(MocVersion::Unknown), Err(CoreError::UnsupportedVersion));
}

#[test]
fn constant_flags_mask_unknown_bits() {
    let f = NonDynamicDrawableFlags::from_bits_truncate(0xff);
    assert_eq!(f.bits(), CONSTANT_FLAGS_ALL);
    assert_eq!(f, NonDynamicDrawableFlags::all());
    assert_eq!(NonDynamicDrawableFlags::from_bits_truncate(0x0a).bits(), BLEND_MULTIPLICATIVE);
}

#[test]
fn constant_flags_strict_decoding_rejects_unknown_bits() {
    assert_eq!(NonDynamicDrawableFlags::from_bits(0x08), None);
    let f = NonDynamicDrawableFlags::from_bits(BLEND_ADDITIVE | IS_DOUBLE_SIDED).unwrap();
    assert_eq!(f.bits(), 5);
    assert!(f.contains(BLEND_ADDITIVE));
    assert!(f.contains(IS_DOUBLE_SIDED));
    assert!(!f.contains(BLEND_MULTIPLICATIVE));
    assert_eq!(NonDynamicDrawableFlags::empty().bits(), 0);
}

#[test]
fn dynamic_flags_mask_unknown_bits() {
    let f = DynamicDrawableFlags::from_bits_truncate(0xe5);
    assert_eq!(f.bits(), IS_VISIBLE | OPACITY_DID_CHANGE);
    assert_eq!(DynamicDrawableFlags::from_bits(0x20), None);
    assert_eq!(DynamicDrawableFlags::from_bits(0x1f), Some(DynamicDrawableFlags::all()));
    assert_eq!(DynamicDrawableFlags::all().bits(), DYNAMIC_FLAGS_ALL);
}

#[test]
fn dynamic_flags_queries() {
    let f = DynamicDrawableFlags::from_bits_truncate(IS_VISIBLE | DRAW_ORDER_DID_CHANGE);
    assert!(f.is_visible());
    assert!(f.any_changed());
    assert!(f.contains(DRAW_ORDER_DID_CHANGE));
    assert!(!f.contains(RENDER_ORDER_DID_CHANGE));
    let g = DynamicDrawableFlags::from_bits_truncate(VISIBILITY_DID_CHANGE);
    assert!(!g.is_visible());
    assert!(!DynamicDrawableFlags::empty().any_changed());
}

#[test]
fn reset_clears_changes_and_keeps_visibility() {
    let visible = DynamicDrawableFlags::from_bits_truncate(0x1f);
    let r = visible.without_changes();
    assert_eq!(r.bits() & DYNAMIC_FLAGS_CHANGED, 0);
    assert!(r.is_visible());
    assert_eq!(r.bits(), IS_VISIBLE);

    let hidden = DynamicDrawableFlags::from_bits_truncate(0x1e);
    let r = hidden.without_changes();
    assert!(!r.any_changed());
    assert!(!r.is_visible());
    assert_eq!(r.bits(), 0);
}

#[test]
fn flag_tables_decode_one_entry_per_drawable() {
    let raw = [0x00u8, 0x01, 0x07, 0xf9];
    let c: Vec<u8> = decode_constant_flags(&raw).iter().map(|f| f.bits()).collect();
    assert_eq!(c, vec![0x00, 0x01, 0x07, 0x01]);
    let d: Vec<u8> = decode_dynamic_flags(&raw).iter().map(|f| f.bits()).collect();
    assert_eq!(d, vec![0x00, 0x01, 0x07, 0x19]);
}

#[test]
fn empty_flag_tables_decode_to_nothing() {
    assert!(decode_constant_flags(&[]).is_empty());
    assert!(decode_dynamic_flags(&[]).is_empty());
}

#[test]
fn same_raw_table_gives_same_snapshot() {
    let raw = [0x13u8, 0x02, 0xff];
    assert_eq!(decode_dynamic_flags(&raw), decode_dynamic_flags(&raw));
    assert_eq!(decode_constant_flags(&raw), decode_constant_flags(&raw));
}

#[test]
fn padding_reaches_next_boundary() {
    assert_eq!(align_padding(130, 64), 62);
    assert_eq!(align_padding(128, 64), 0);
    assert_eq!(align_padding(0, 16), 0);
    assert_eq!(align_padding(17, 16), 15);
    assert_eq!(align_padding(usize::MAX, 1), 0);
}

#[test]
fn aligned_allocation_leaves_room_for_padding() {
    assert_eq!(aligned_alloc_len(10, 64), Some(73));
    assert_eq!(aligned_alloc_len(0, 16), Some(15));
    assert_eq!(aligned_alloc_len(usize::MAX, 64), None);
    assert_eq!(aligned_alloc_len(usize::MAX, 1), Some(usize::MAX));
}

#[test]
fn moc_buffer_must_be_aligned() {
    assert_eq!(check_moc_buffer(130, 10), Err(CoreError::InvalidAlignment));
    assert_eq!(check_moc_buffer(16, 10), Err(CoreError::InvalidAlignment));
    assert_eq!(check_moc_buffer(128, 10), Ok(10));
    assert_eq!(check_moc_buffer(0, 0), Ok(0));
}

#[test]
fn moc_buffer_length_must_fit_the_size_parameter() {
    let too_long = u32::MAX as usize + 1;
    assert_eq!(check_moc_buffer(64, too_long), Err(CoreError::BufferTooLarge));
    assert_eq!(check_moc_buffer(64, u32::MAX as usize), Ok(u32::MAX));
    assert_eq!(check_moc_buffer(65, too_long), Err(CoreError::InvalidAlignment));
}

#[test]
fn model_buffer_must_be_aligned() {
    assert_eq!(check_model_buffer(16, 100), Ok(100));
    assert_eq!(check_model_buffer(8, 100), Err(CoreError::InvalidAlignment));
    assert_eq!(check_model_buffer(48, u32::MAX as usize + 1), Err(CoreError::BufferTooLarge));
}

#[test]
fn view_is_current_until_the_model_changes() {
    let mut epoch = ModelEpoch::new();
    let stamp = epoch.stamp();
    assert_eq!(epoch.check(&stamp), Ok(()));
    assert!(epoch.can_advance());
    epoch.advance();
    assert_eq!(epoch.check(&stamp), Err(CoreError::StaleView));
    let fresh = epoch.stamp();
    assert_eq!(epoch.check(&fresh), Ok(()));
    assert_ne!(fresh, stamp);
}
