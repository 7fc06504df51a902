use vstd::prelude::*;

verus! {

/// Constant flag: the drawable blends additively.
pub const BLEND_ADDITIVE: u8 = 1;

/// Constant flag: the drawable blends multiplicatively.
pub const BLEND_MULTIPLICATIVE: u8 = 2;

/// Constant flag: the drawable is drawn from both sides.
pub const IS_DOUBLE_SIDED: u8 = 4;

/// Every constant flag the runtime defines.
pub const CONSTANT_FLAGS_ALL: u8 = 7;

/// Dynamic flag: the drawable is visible.
pub const IS_VISIBLE: u8 = 1;

/// Dynamic flag: visibility changed during the last update.
pub const VISIBILITY_DID_CHANGE: u8 = 2;

/// Dynamic flag: opacity changed during the last update.
pub const OPACITY_DID_CHANGE: u8 = 4;

/// Dynamic flag: draw order changed during the last update.
pub const DRAW_ORDER_DID_CHANGE: u8 = 8;

/// Dynamic flag: render order changed during the last update.
pub const RENDER_ORDER_DID_CHANGE: u8 = 16;

/// The four "did change" flags together.
pub const DYNAMIC_FLAGS_CHANGED: u8 = 30;

/// Every dynamic flag the runtime defines.
pub const DYNAMIC_FLAGS_ALL: u8 = 31;

/// The dynamic flags that remain once the "did change" flags are cleared.
pub open spec fn cleared_changes(bits: u8) -> u8 {
    bits & IS_VISIBLE
}

/// Render flags of a drawable that do not change while the model animates.
///
/// Bits the runtime does not define are masked off when decoding.
#[derive(Clone, Copy, Debug, PartialEq, Eq, Structural)]
pub struct NonDynamicDrawableFlags {
    bits: u8,
}

impl View for NonDynamicDrawableFlags {
    type V = u8;

    closed spec fn view(&self) -> u8 {
        self.bits
    }
}

impl NonDynamicDrawableFlags {
    /// No flag set.
    pub fn empty() -> (r: Self)
        ensures
            r@ == 0,
    {
        NonDynamicDrawableFlags { bits: 0 }
    }

    /// Every defined flag set.
    pub fn all() -> (r: Self)
        ensures
            r@ == CONSTANT_FLAGS_ALL,
    {
        NonDynamicDrawableFlags { bits: CONSTANT_FLAGS_ALL }
    }

    /// The flags of `bits`, or `None` where `bits` holds an undefined bit.
    pub fn from_bits(bits: u8) -> (r: Option<Self>)
        ensures
            r is Some <==> bits & CONSTANT_FLAGS_ALL == bits,
            r matches Some(f) ==> f@ == bits,
    {
        if bits & CONSTANT_FLAGS_ALL == bits {
            Some(NonDynamicDrawableFlags { bits })
        } else {
            None
        }
    }

    /// The flags of `bits`, with undefined bits dropped.
    pub fn from_bits_truncate(bits: u8) -> (r: Self)
        ensures
            r@ == bits & CONSTANT_FLAGS_ALL,
    {
        NonDynamicDrawableFlags { bits: bits & CONSTANT_FLAGS_ALL }
    }

    /// The raw bits.
    pub fn bits(&self) -> (r: u8)
        ensures
            r == self@,
    {
        self.bits
    }

    /// Whether every bit of `flags` is set.
    pub fn contains(&self, flags: u8) -> (r: bool)
        ensures
            r <==> self@ & flags == flags,
    {
        self.bits & flags == flags
    }
}

/// Render flags of a drawable that the runtime recomputes on every update.
///
/// Bits the runtime does not define are masked off when decoding.
#[derive(Clone, Copy, Debug, PartialEq, Eq, Structural)]
pub struct DynamicDrawableFlags {
    bits: u8,
}

impl View for DynamicDrawableFlags {
    type V = u8;

    closed spec fn view(&self) -> u8 {
        self.bits
    }
}

impl DynamicDrawableFlags {
    /// No flag set.
    pub fn empty() -> (r: Self)
        ensures
            r@ == 0,
    {
        DynamicDrawableFlags { bits: 0 }
    }

    /// Every defined flag set.
    pub fn all() -> (r: Self)
        ensures
            r@ == DYNAMIC_FLAGS_ALL,
    {
        DynamicDrawableFlags { bits: DYNAMIC_FLAGS_ALL }
    }

    /// The flags of `bits`, or `None` where `bits` holds an undefined bit.
    pub fn from_bits(bits: u8) -> (r: Option<Self>)
        ensures
            r is Some <==> bits & DYNAMIC_FLAGS_ALL == bits,
            r matches Some(f) ==> f@ == bits,
    {
        if bits & DYNAMIC_FLAGS_ALL == bits {
            Some(DynamicDrawableFlags { bits })
        } else {
            None
        }
    }

    /// The flags of `bits`, with undefined bits dropped.
    pub fn from_bits_truncate(bits: u8) -> (r: Self)
        ensures
            r@ == bits & DYNAMIC_FLAGS_ALL,
    {
        DynamicDrawableFlags { bits: bits & DYNAMIC_FLAGS_ALL }
    }

    /// The raw bits.
    pub fn bits(&self) -> (r: u8)
        ensures
            r == self@,
    {
        self.bits
    }

    /// Whether every bit of `flags` is set.
    pub fn contains(&self, flags: u8) -> (r: bool)
        ensures
            r <==> self@ & flags == flags,
    {
        self.bits & flags == flags
    }

    /// Whether the drawable is visible.
    pub fn is_visible(&self) -> (r: bool)
        ensures
            r <==> self@ & IS_VISIBLE != 0,
    {
        self.bits & IS_VISIBLE != 0
    }

    /// Whether any "did change" flag is set.
    pub fn any_changed(&self) -> (r: bool)
        ensures
            r <==> self@ & DYNAMIC_FLAGS_CHANGED != 0,
    {
        self.bits & DYNAMIC_FLAGS_CHANGED != 0
    }

    /// The same flags with every "did change" flag cleared, as the runtime
    /// leaves them after a reset.
    pub fn without_changes(&self) -> (r: Self)
        ensures
            r@ == cleared_changes(self@),
    {
        DynamicDrawableFlags { bits: self.bits & IS_VISIBLE }
    }
}

/// Clearing the "did change" flags leaves none of them set and keeps the
/// visibility flag as it was.
pub proof fn lemma_reset_clears_changes(bits: u8)
    ensures
        cleared_changes(bits) & DYNAMIC_FLAGS_CHANGED == 0,
        cleared_changes(bits) & IS_VISIBLE == bits & IS_VISIBLE,
        cleared_changes(bits) & DYNAMIC_FLAGS_ALL == cleared_changes(bits),
{
    assert(bits & 1u8 & 30u8 == 0u8) by (bit_vector);
    assert(bits & 1u8 & 1u8 == bits & 1u8) by (bit_vector);
    assert(bits & 1u8 & 31u8 == bits & 1u8) by (bit_vector);
}

/// Two dynamic-flag snapshots decoded from the same raw table are identical.
pub proof fn lemma_dynamic_snapshots_agree(
    raw: Seq<u8>,
    a: Seq<DynamicDrawableFlags>,
    b: Seq<DynamicDrawableFlags>,
)
    requires
        a.len() == raw.len(),
        b.len() == raw.len(),
        forall|i: int| 0 <= i < raw.len() ==> #[trigger] a[i]@ == raw[i] & DYNAMIC_FLAGS_ALL,
        forall|i: int| 0 <= i < raw.len() ==> #[trigger] b[i]@ == raw[i] & DYNAMIC_FLAGS_ALL,
    ensures
        a == b,
{
    assert forall|i: int| 0 <= i < raw.len() implies a[i] == b[i] by {
        assert(a[i]@ == b[i]@);
    }
    assert(a =~= b);
}

/// Two constant-flag snapshots decoded from the same raw table are identical.
pub proof fn lemma_constant_snapshots_agree(
    raw: Seq<u8>,
    a: Seq<NonDynamicDrawableFlags>,
    b: Seq<NonDynamicDrawableFlags>,
)
    requires
        a.len() == raw.len(),
        b.len() == raw.len(),
        forall|i: int| 0 <= i < raw.len() ==> #[trigger] a[i]@ == raw[i] & CONSTANT_FLAGS_ALL,
        forall|i: int| 0 <= i < raw.len() ==> #[trigger] b[i]@ == raw[i] & CONSTANT_FLAGS_ALL,
    ensures
        a == b,
{
    assert forall|i: int| 0 <= i < raw.len() implies a[i] == b[i] by {
        assert(a[i]@ == b[i]@);
    }
    assert(a =~= b);
}

/// Decodes the runtime's table of constant flags, one byte per drawable,
/// masking off undefined bits.
pub fn decode_constant_flags(raw: &[u8]) -> (r: Vec<NonDynamicDrawableFlags>)
    ensures
        r@.len() == raw@.len(),
        forall|i: int| 0 <= i < raw@.len() ==> #[trigger] r@[i]@ == raw@[i] & CONSTANT_FLAGS_ALL,
{
    let mut out: Vec<NonDynamicDrawableFlags> = Vec::new();
    let mut i: usize = 0;
    while i < raw.len()
        invariant
            i <= raw@.len(),
            out@.len() == i,
            forall|j: int| 0 <= j < i ==> #[trigger] out@[j]@ == raw@[j] & CONSTANT_FLAGS_ALL,
        decreases raw@.len() - i,
    {
        out.push(NonDynamicDrawableFlags::from_bits_truncate(raw[i]));
        i += 1;
    }
    out
}

/// Decodes the runtime's table of dynamic flags, one byte per drawable,
/// masking off undefined bits.
pub fn decode_dynamic_flags(raw: &[u8]) -> (r: Vec<DynamicDrawableFlags>)
    ensures
        r@.len() == raw@.len(),
        forall|i: int| 0 <= i < raw@.len() ==> #[trigger] r@[i]@ == raw@[i] & DYNAMIC_FLAGS_ALL,
{
    let mut out: Vec<DynamicDrawableFlags> = Vec::new();
    let mut i: usize = 0;
    while i < raw.len()
        invariant
            i <= raw@.len(),
            out@.len() == i,
            forall|j: int| 0 <= j < i ==> #[trigger] out@[j]@ == raw@[j] & DYNAMIC_FLAGS_ALL,
        decreases raw@.len() - i,
    {
        out.push(DynamicDrawableFlags::from_bits_truncate(raw[i]));
        i += 1;
    }
    out
}

} // verus!
