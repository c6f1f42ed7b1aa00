//! Specification model of the driver's shadow state.
//!
//! The shadow is the in-memory cache of the eight desired channel values,
//! indices 0 through 7. Each mutating operation of the driver is described
//! here as a pure function on the shadow sequence, and the driver's
//! contracts state their effect through these functions. [`ShadowOp`] and
//! [`apply_ops`] describe whole call sequences, so that what a flush puts on
//! the wire can be related to the cumulative effect of all prior mutators.

use vstd::prelude::*;

verus! {

/// Number of output channels, and so the length of the shadow.
pub const CHANNEL_COUNT: usize = 8;

/// Register address of the first control register, with auto-increment
/// enabled by the payload that is written there.
pub const CONTROL_REG: u8 = 0x80;

/// Register address selecting auto-increment writes starting at the first
/// PWM duty-cycle register.
pub const AUTO_INCREMENT_REG: u8 = 0xA2;

/// The shadow right after construction or after `off`: all channels at zero.
pub open spec fn all_off() -> Seq<u8> {
    Seq::new(CHANNEL_COUNT as nat, |i: int| 0u8)
}

/// Effect of `set(channel, value)`: overwrite one in-range channel;
/// an out-of-range channel index leaves the shadow untouched.
pub open spec fn set_shadow(s: Seq<u8>, channel: u8, value: u8) -> Seq<u8> {
    if channel < 8 {
        s.update(channel as int, value)
    } else {
        s
    }
}

/// First shadow index of an RGB group: group 1 occupies indices 4..7,
/// every other group value selects indices 0..3.
pub open spec fn rgb_base(group: u8) -> int {
    if group == 1 {
        4
    } else {
        0
    }
}

/// Effect of `rgb(group, (red, green, blue))`: the three values land in the
/// group's block in device-wiring order (blue, green, red).
pub open spec fn rgb_shadow(s: Seq<u8>, group: u8, red: u8, green: u8, blue: u8) -> Seq<u8> {
    s.update(rgb_base(group), blue).update(rgb_base(group) + 1, green).update(
        rgb_base(group) + 2,
        red,
    )
}

/// Effect of `aux(group, value)`: group 0 owns index 3, group 1 owns
/// index 7, any other group value is a no-op.
pub open spec fn aux_shadow(s: Seq<u8>, group: u8, value: u8) -> Seq<u8> {
    if group == 0 {
        s.update(3, value)
    } else if group == 1 {
        s.update(7, value)
    } else {
        s
    }
}

/// One local mutation of the shadow, as issued by the driver's setters.
pub enum ShadowOp {
    SetChannel { channel: u8, value: u8 },
    SetRgb { group: u8, red: u8, green: u8, blue: u8 },
    SetAux { group: u8, value: u8 },
}

/// Effect of a single mutator call on the shadow.
pub open spec fn apply_op(s: Seq<u8>, op: ShadowOp) -> Seq<u8> {
    match op {
        ShadowOp::SetChannel { channel, value } => set_shadow(s, channel, value),
        ShadowOp::SetRgb { group, red, green, blue } => rgb_shadow(s, group, red, green, blue),
        ShadowOp::SetAux { group, value } => aux_shadow(s, group, value),
    }
}

/// Cumulative effect of a sequence of mutator calls, in call order.
pub open spec fn apply_ops(s: Seq<u8>, ops: Seq<ShadowOp>) -> Seq<u8>
    decreases ops.len(),
{
    if ops.len() == 0 {
        s
    } else {
        apply_ops(apply_op(s, ops[0]), ops.drop_first())
    }
}

/// Payload of the one-time configuration transaction: the control register
/// address followed by the 18 fixed configuration bytes (auto-increment on,
/// default timing mode, all PWM registers zeroed, full group brightness,
/// zero group blink period, per-channel PWM output mode, default
/// sub-addresses and all-call address).
pub open spec fn setup_payload() -> Seq<u8> {
    seq![
        CONTROL_REG,
        0x81u8,
        0x03u8,
        0x00u8,
        0x00u8,
        0x00u8,
        0x00u8,
        0x00u8,
        0x00u8,
        0x00u8,
        0x00u8,
        0xFFu8,
        0x00u8,
        0xAAu8,
        0xAAu8,
        0x92u8,
        0x94u8,
        0x98u8,
        0xD0u8,
    ]
}

/// Payload of a flush transaction: the auto-increment PWM base register
/// address followed by the eight shadow bytes verbatim, in index order.
pub open spec fn update_payload(s: Seq<u8>) -> Seq<u8> {
    seq![AUTO_INCREMENT_REG] + s
}

/// An in-range `set` overwrites exactly the addressed channel: index
/// `channel` holds `value` afterwards and every other index is unchanged.
pub proof fn lemma_set_in_range(s: Seq<u8>, channel: u8, value: u8)
    requires
        s.len() == 8,
        channel < 8,
    ensures
        set_shadow(s, channel, value).len() == 8,
        set_shadow(s, channel, value)[channel as int] == value,
        forall|i: int|
            0 <= i < 8 && i != channel as int ==> set_shadow(s, channel, value)[i] == s[i],
{
}

/// A `set` with an out-of-range channel index leaves the shadow untouched.
pub proof fn lemma_set_out_of_range(s: Seq<u8>, channel: u8, value: u8)
    requires
        channel >= 8,
    ensures
        set_shadow(s, channel, value) == s,
{
}

/// `rgb` stores blue, green, red at the group's three consecutive indices
/// and leaves every other index, in particular the two auxiliary slots
/// 3 and 7, unchanged.
pub proof fn lemma_rgb(s: Seq<u8>, group: u8, red: u8, green: u8, blue: u8)
    requires
        s.len() == 8,
    ensures
        rgb_shadow(s, group, red, green, blue).len() == 8,
        rgb_shadow(s, group, red, green, blue)[rgb_base(group)] == blue,
        rgb_shadow(s, group, red, green, blue)[rgb_base(group) + 1] == green,
        rgb_shadow(s, group, red, green, blue)[rgb_base(group) + 2] == red,
        forall|i: int|
            0 <= i < 8 && !(rgb_base(group) <= i < rgb_base(group) + 3) ==> rgb_shadow(
                s,
                group,
                red,
                green,
                blue,
            )[i] == s[i],
        rgb_shadow(s, group, red, green, blue)[3] == s[3],
        rgb_shadow(s, group, red, green, blue)[7] == s[7],
{
}

/// Any group value other than 1 selects the same block as group 0:
/// `rgb` falls back to the first group rather than failing.
pub proof fn lemma_rgb_group_fallback(s: Seq<u8>, group: u8, red: u8, green: u8, blue: u8)
    requires
        group != 1,
    ensures
        rgb_shadow(s, group, red, green, blue) == rgb_shadow(s, 0, red, green, blue),
{
}

/// `aux` with group 0 overwrites exactly index 3, with group 1 exactly
/// index 7, and with any other group value nothing at all.
pub proof fn lemma_aux(s: Seq<u8>, group: u8, value: u8)
    requires
        s.len() == 8,
    ensures
        aux_shadow(s, group, value).len() == 8,
        group == 0 ==> aux_shadow(s, group, value)[3] == value,
        group == 1 ==> aux_shadow(s, group, value)[7] == value,
        group == 0 ==> forall|i: int| 0 <= i < 8 && i != 3 ==> aux_shadow(s, group, value)[i] == s[i],
        group == 1 ==> forall|i: int| 0 <= i < 8 && i != 7 ==> aux_shadow(s, group, value)[i] == s[i],
        group != 0 && group != 1 ==> aux_shadow(s, group, value) == s,
{
}

/// Every single mutation preserves the shadow's length.
pub proof fn lemma_apply_op_len(s: Seq<u8>, op: ShadowOp)
    requires
        s.len() == 8,
    ensures
        apply_op(s, op).len() == 8,
{
}

/// Every sequence of mutations preserves the shadow's length: the shadow
/// always has exactly one byte per channel.
pub proof fn lemma_apply_ops_len(s: Seq<u8>, ops: Seq<ShadowOp>)
    requires
        s.len() == 8,
    ensures
        apply_ops(s, ops).len() == 8,
    decreases ops.len(),
{
    if ops.len() > 0 {
        lemma_apply_op_len(s, ops[0]);
        lemma_apply_ops_len(apply_op(s, ops[0]), ops.drop_first());
    }
}

/// Mutations accumulate in call order: running one sequence of mutator
/// calls after another is the same as running their concatenation.
pub proof fn lemma_apply_ops_concat(s: Seq<u8>, ops1: Seq<ShadowOp>, ops2: Seq<ShadowOp>)
    ensures
        apply_ops(s, ops1 + ops2) == apply_ops(apply_ops(s, ops1), ops2),
    decreases ops1.len(),
{
    if ops1.len() == 0 {
        assert(ops1 + ops2 =~= ops2);
    } else {
        assert((ops1 + ops2)[0] == ops1[0]);
        assert((ops1 + ops2).drop_first() =~= ops1.drop_first() + ops2);
        lemma_apply_ops_concat(apply_op(s, ops1[0]), ops1.drop_first(), ops2);
    }
}

} // verus!
