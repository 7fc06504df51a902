//! Safe handles over the Cubism Core native runtime: the decisions that sit
//! between the raw entry points and their callers, stated and proved.
//!
//! The native calls themselves live outside this library; what they hand back
//! (sentinel integers, flag bytes, buffer addresses) is decoded and checked here.

mod counts;
mod error;
mod flags;
mod layout;
mod version;
mod views;

pub use counts::{decode_count, is_count_absent, NOT_APPLICABLE};
pub use error::CoreError;
pub use layout::{
    align_padding, aligned_alloc_len, buffer_verdict, check_moc_buffer, check_model_buffer, ALIGN_OF_MOC,
    ALIGN_OF_MODEL,
};
pub use version::{
    check_supported, decode_version, encode_version, lemma_known_raw_is_supported, lemma_version_round_trip, MocVersion,
    MOC_VERSION_30, MOC_VERSION_33, MOC_VERSION_40, MOC_VERSION_UNKNOWN,
};
pub use flags::{
    cleared_changes,
    decode_constant_flags, decode_dynamic_flags, lemma_constant_snapshots_agree, lemma_dynamic_snapshots_agree,
    lemma_reset_clears_changes, DynamicDrawableFlags,
    NonDynamicDrawableFlags, BLEND_ADDITIVE, BLEND_MULTIPLICATIVE, CONSTANT_FLAGS_ALL,
    DRAW_ORDER_DID_CHANGE, DYNAMIC_FLAGS_ALL, DYNAMIC_FLAGS_CHANGED, IS_DOUBLE_SIDED, IS_VISIBLE,
    OPACITY_DID_CHANGE, RENDER_ORDER_DID_CHANGE, VISIBILITY_DID_CHANGE,
};
pub use views::{is_current, lemma_stale_view_rejected, ModelEpoch, ViewStamp};
