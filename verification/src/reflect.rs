//! Type data attached to reflected components, and the editing of a
//! component's raw bytes through the inspector widgets.

use vstd::prelude::*;
use bevy_rapier2d::prelude::LockedAxes;

verus! {

/// Bits of `LockedAxes::TRANSLATION_LOCKED_X`.
/// bevy_rapier2d defines that flag as `1 << 0`; nothing else is claimed.
#[verifier::external_body]
fn translation_locked_x_bits() -> (bits: u8)
    ensures
        bits == 1,
{
    LockedAxes::TRANSLATION_LOCKED_X.bits()
}

/// Bits of `LockedAxes::TRANSLATION_LOCKED_Y`, defined as `1 << 1`.
#[verifier::external_body]
fn translation_locked_y_bits() -> (bits: u8)
    ensures
        bits == 2,
{
    LockedAxes::TRANSLATION_LOCKED_Y.bits()
}

/// Bits of `LockedAxes::TRANSLATION_LOCKED_Z`, defined as `1 << 2`.
#[verifier::external_body]
fn translation_locked_z_bits() -> (bits: u8)
    ensures
        bits == 4,
{
    LockedAxes::TRANSLATION_LOCKED_Z.bits()
}

/// Bits of `LockedAxes::TRANSLATION_LOCKED`, the union of the three
/// translation flags (`1 | 2 | 4`).
#[verifier::external_body]
fn translation_locked_bits() -> (bits: u8)
    ensures
        bits == 7,
{
    LockedAxes::TRANSLATION_LOCKED.bits()
}

/// Bits of `LockedAxes::ROTATION_LOCKED_X`, defined as `1 << 3`.
#[verifier::external_body]
fn rotation_locked_x_bits() -> (bits: u8)
    ensures
        bits == 8,
{
    LockedAxes::ROTATION_LOCKED_X.bits()
}

/// Bits of `LockedAxes::ROTATION_LOCKED_Y`, defined as `1 << 4`.
#[verifier::external_body]
fn rotation_locked_y_bits() -> (bits: u8)
    ensures
        bits == 16,
{
    LockedAxes::ROTATION_LOCKED_Y.bits()
}

/// Bits of `LockedAxes::ROTATION_LOCKED_Z`, defined as `1 << 5`.
#[verifier::external_body]
fn rotation_locked_z_bits() -> (bits: u8)
    ensures
        bits == 32,
{
    LockedAxes::ROTATION_LOCKED_Z.bits()
}

/// Bits of `LockedAxes::ROTATION_LOCKED`, the union of the three
/// rotation flags (`8 | 16 | 32`).
#[verifier::external_body]
fn rotation_locked_bits() -> (bits: u8)
    ensures
        bits == 56,
{
    LockedAxes::ROTATION_LOCKED.bits()
}

/// Number of entries of the locked-axes list box.
pub const LOCKED_AXES_CHOICES: u8 = 8;

/// The flags offered by entry `index` of the locked-axes list box, in the
/// order TRANSLATION_LOCKED_X, _Y, _Z, TRANSLATION_LOCKED, ROTATION_LOCKED_X,
/// _Y, _Z, ROTATION_LOCKED.
pub open spec fn locked_axes_bits(index: int) -> u8 {
    if index == 0 {
        1
    } else if index == 1 {
        2
    } else if index == 2 {
        4
    } else if index == 3 {
        7
    } else if index == 4 {
        8
    } else if index == 5 {
        16
    } else if index == 6 {
        32
    } else {
        56
    }
}

/// `bits` is one of the flag values that the list box offers.
pub open spec fn is_locked_axes_choice(bits: u8) -> bool {
    bits == 1 || bits == 2 || bits == 4 || bits == 7 || bits == 8 || bits == 16 || bits == 32
        || bits == 56
}

/// The list-box entry that shows `bits`: the inverse of `locked_axes_bits`.
pub open spec fn locked_axes_index(bits: u8) -> int {
    if bits == 1 {
        0
    } else if bits == 2 {
        1
    } else if bits == 4 {
        2
    } else if bits == 7 {
        3
    } else if bits == 8 {
        4
    } else if bits == 16 {
        5
    } else if bits == 32 {
        6
    } else {
        7
    }
}

/// The list-box entry of a flag value: the position of `axes` among the
/// offered flags.
pub fn convert_to_index(axes: u8) -> (index: u8)
    requires
        is_locked_axes_choice(axes),
    ensures
        index < LOCKED_AXES_CHOICES,
        locked_axes_bits(index as int) == axes,
        index == locked_axes_index(axes),
{
    proof {
        lemma_locked_axes_index(axes);
    }
    if axes == translation_locked_x_bits() {
        0
    } else if axes == translation_locked_y_bits() {
        1
    } else if axes == translation_locked_z_bits() {
        2
    } else if axes == translation_locked_bits() {
        3
    } else if axes == rotation_locked_x_bits() {
        4
    } else if axes == rotation_locked_y_bits() {
        5
    } else if axes == rotation_locked_z_bits() {
        6
    } else {
        assert(axes == 56);
        7
    }
}

/// The flag value offered by list-box entry `index`.
pub fn convert_to_locked(index: u8) -> (axes: u8)
    requires
        index < LOCKED_AXES_CHOICES,
    ensures
        axes == locked_axes_bits(index as int),
{
    match index {
        0 => translation_locked_x_bits(),
        1 => translation_locked_y_bits(),
        2 => translation_locked_z_bits(),
        3 => translation_locked_bits(),
        4 => rotation_locked_x_bits(),
        5 => rotation_locked_y_bits(),
        6 => rotation_locked_z_bits(),
        _ => rotation_locked_bits(),
    }
}

/// The list box offers, in order, the three single translation flags (one
/// bit each, doubling), their union, the three single rotation flags
/// (continuing to double), and their union; no two entries share a bit
/// pattern.
pub proof fn lemma_locked_axes_entries()
    ensures
        locked_axes_bits(0) == 1,
        locked_axes_bits(1) == 2 * locked_axes_bits(0),
        locked_axes_bits(2) == 2 * locked_axes_bits(1),
        locked_axes_bits(3) == locked_axes_bits(0) + locked_axes_bits(1) + locked_axes_bits(2),
        locked_axes_bits(4) == 2 * locked_axes_bits(2),
        locked_axes_bits(5) == 2 * locked_axes_bits(4),
        locked_axes_bits(6) == 2 * locked_axes_bits(5),
        locked_axes_bits(7) == locked_axes_bits(4) + locked_axes_bits(5) + locked_axes_bits(6),
        forall|i: int, j: int|
            0 <= i < j < LOCKED_AXES_CHOICES ==> #[trigger] locked_axes_bits(i) != #[trigger] locked_axes_bits(j),
{
}

/// The offered flag values are pairwise distinct, so each has exactly one entry.
proof fn lemma_locked_axes_index(bits: u8)
    requires
        is_locked_axes_choice(bits),
    ensures
        0 <= locked_axes_index(bits) < LOCKED_AXES_CHOICES,
        locked_axes_bits(locked_axes_index(bits)) == bits,
        forall|i: int|
            0 <= i < LOCKED_AXES_CHOICES && #[trigger] locked_axes_bits(i) == bits
                ==> i == locked_axes_index(bits),
{
}

/// Showing a flag value in the list box and reading the shown entry back
/// gives the same flags; and the entry of the flags of an entry is that entry.
pub proof fn lemma_locked_axes_round_trip(bits: u8, index: int)
    requires
        is_locked_axes_choice(bits),
        0 <= index < LOCKED_AXES_CHOICES,
    ensures
        locked_axes_bits(locked_axes_index(bits)) == bits,
        is_locked_axes_choice(locked_axes_bits(index)),
        locked_axes_index(locked_axes_bits(index)) == index,
{
    lemma_locked_axes_index(bits);
    assert(is_locked_axes_choice(locked_axes_bits(index)));
    lemma_locked_axes_index(locked_axes_bits(index));
}

/// The component types whose type data the inspector registers.
#[derive(Clone, Copy, Debug, PartialEq, Eq, Structural)]
pub enum ReflectKind {
    Transform,
    GlobalTransform,
    LockedAxes,
    ViewVisibility,
}

/// Type data of a reflected component: which inspector widget edits its bytes.
#[derive(Clone, Copy, Debug, PartialEq, Eq, Structural)]
pub struct ReflectTypeData {
    pub kind: ReflectKind,
}

/// What an inspector widget shows, or reports back after the user edited it.
#[derive(Clone, Copy, Debug, PartialEq, Eq, Structural)]
pub enum WidgetValue {
    /// The widget works on the bytes itself (the float fields of transforms),
    /// or the component has no widget.
    Bytes,
    /// The selected entry of a list box.
    ListIndex(i32),
    /// The state of a check box.
    Checkbox(bool),
}

/// The component bytes hold a value that the widget of `kind` can show.
pub open spec fn shows(kind: ReflectKind, data: Seq<u8>) -> bool {
    match kind {
        ReflectKind::LockedAxes => data.len() >= 1 && is_locked_axes_choice(data[0]),
        ReflectKind::ViewVisibility => data.len() >= 1 && data[0] <= 1,
        _ => true,
    }
}

/// What the widget of `kind` shows for the component bytes `data`.
pub open spec fn widget_of(kind: ReflectKind, data: Seq<u8>) -> WidgetValue {
    match kind {
        ReflectKind::LockedAxes => WidgetValue::ListIndex(locked_axes_index(data[0]) as i32),
        ReflectKind::ViewVisibility => WidgetValue::Checkbox(data[0] != 0),
        _ => WidgetValue::Bytes,
    }
}

/// The widget report `value` can be written back into a component of `kind`
/// of `len` bytes.
pub open spec fn accepts(kind: ReflectKind, len: nat, value: WidgetValue) -> bool {
    match (kind, value) {
        (ReflectKind::LockedAxes, WidgetValue::ListIndex(i)) => len >= 1 && (i as u8) < LOCKED_AXES_CHOICES,
        (ReflectKind::ViewVisibility, WidgetValue::Checkbox(_)) => len >= 1,
        _ => true,
    }
}

/// The component bytes after the widget of `kind` reported `value`.
pub open spec fn edited(kind: ReflectKind, data: Seq<u8>, value: WidgetValue) -> Seq<u8> {
    match (kind, value) {
        (ReflectKind::LockedAxes, WidgetValue::ListIndex(i)) => data.update(0, locked_axes_bits((i as u8) as int)),
        (ReflectKind::ViewVisibility, WidgetValue::Checkbox(b)) => data.update(0, if b { 1u8 } else { 0u8 }),
        _ => data,
    }
}

impl ReflectTypeData {
    /// The value that the inspector widget shows for the component bytes `data`.
    pub fn widget_value(&self, data: &Vec<u8>) -> (value: WidgetValue)
        requires
            shows(self.kind, data@),
        ensures
            value == widget_of(self.kind, data@),
    {
        match self.kind {
            ReflectKind::LockedAxes => {
                let index = convert_to_index(data[0]);
                WidgetValue::ListIndex(index as i32)
            },
            ReflectKind::ViewVisibility => WidgetValue::Checkbox(data[0] != 0),
            _ => WidgetValue::Bytes,
        }
    }

    /// Writes what the inspector widget reported back into the component bytes.
    pub fn display_imgui(&self, data: &mut Vec<u8>, value: WidgetValue)
        requires
            accepts(self.kind, old(data)@.len(), value),
        ensures
            final(data)@ == edited(self.kind, old(data)@, value),
    {
        match (self.kind, value) {
            (ReflectKind::LockedAxes, WidgetValue::ListIndex(i)) => {
                let axes = convert_to_locked(i as u8);
                data.set(0, axes);
            },
            (ReflectKind::ViewVisibility, WidgetValue::Checkbox(b)) => {
                data.set(0, if b { 1u8 } else { 0u8 });
            },
            _ => {},
        }
    }
}

/// Writing back what a widget shows leaves the component bytes as they were.
pub proof fn lemma_unedited_widget_keeps_bytes(kind: ReflectKind, data: Seq<u8>)
    requires
        shows(kind, data),
    ensures
        accepts(kind, data.len(), widget_of(kind, data)),
        edited(kind, data, widget_of(kind, data)) == data,
{
    match kind {
        ReflectKind::LockedAxes => {
            lemma_locked_axes_index(data[0]);
            let i = locked_axes_index(data[0]);
            assert(((i as i32) as u8) as int == i);
            assert(data.update(0, data[0]) =~= data);
        },
        ReflectKind::ViewVisibility => {
            assert(data.update(0, if data[0] != 0 { 1u8 } else { 0u8 }) =~= data);
        },
        _ => {},
    }
}

/// A check-box report overwrites byte 0 of a visibility component with the
/// reported state (1 ticked, 0 not), whatever it held, and keeps the other
/// bytes; reading the widget back shows the reported state.
pub proof fn lemma_checkbox_writes_state(data: Seq<u8>, ticked: bool)
    requires
        data.len() >= 1,
    ensures
        accepts(ReflectKind::ViewVisibility, data.len(), WidgetValue::Checkbox(ticked)),
        edited(ReflectKind::ViewVisibility, data, WidgetValue::Checkbox(ticked)).len() == data.len(),
        edited(ReflectKind::ViewVisibility, data, WidgetValue::Checkbox(ticked))[0] == (if ticked {
            1u8
        } else {
            0u8
        }),
        forall|k: int|
            1 <= k < data.len() ==> #[trigger] edited(
                ReflectKind::ViewVisibility,
                data,
                WidgetValue::Checkbox(ticked),
            )[k] == data[k],
        shows(ReflectKind::ViewVisibility, edited(ReflectKind::ViewVisibility, data, WidgetValue::Checkbox(ticked))),
        widget_of(
            ReflectKind::ViewVisibility,
            edited(ReflectKind::ViewVisibility, data, WidgetValue::Checkbox(ticked)),
        ) == WidgetValue::Checkbox(ticked),
{
}

/// Choosing entry `index` of the locked-axes list box writes one of the
/// offered flag values into byte 0, keeps the other bytes, and the list box
/// then shows entry `index` again.
pub proof fn lemma_list_choice_is_shown_back(data: Seq<u8>, index: i32)
    requires
        data.len() >= 1,
        0 <= index < LOCKED_AXES_CHOICES,
    ensures
        accepts(ReflectKind::LockedAxes, data.len(), WidgetValue::ListIndex(index)),
        edited(ReflectKind::LockedAxes, data, WidgetValue::ListIndex(index)).len() == data.len(),
        forall|k: int|
            1 <= k < data.len() ==> #[trigger] edited(ReflectKind::LockedAxes, data, WidgetValue::ListIndex(index))[k]
                == data[k],
        shows(ReflectKind::LockedAxes, edited(ReflectKind::LockedAxes, data, WidgetValue::ListIndex(index))),
        widget_of(ReflectKind::LockedAxes, edited(ReflectKind::LockedAxes, data, WidgetValue::ListIndex(index)))
            == WidgetValue::ListIndex(index),
{
    assert((index as u8) as int == index) by (bit_vector)
        requires
            0 <= index < 8,
    ;
}

/// Edits through a widget never change a component's length, and only the
/// locked-axes and visibility widgets change any byte at all.
pub proof fn lemma_edit_keeps_length(kind: ReflectKind, data: Seq<u8>, value: WidgetValue)
    requires
        accepts(kind, data.len(), value),
    ensures
        edited(kind, data, value).len() == data.len(),
        kind != ReflectKind::LockedAxes && kind != ReflectKind::ViewVisibility ==> edited(kind, data, value)
            == data,
{
}

} // verus!
