//! Active-layer tracking: a bitmask of active layers, updated from key
//! transitions through a per-layer table of layer-control actions.

use vstd::prelude::*;

verus! {

/// The most layers that an active-layer mask can describe.
pub const MAX_LAYERS: usize = 32;

/// A physical key transition at a matrix position.
#[derive(Clone, Copy, Debug, PartialEq, Eq, Structural)]
pub struct KeyEvent {
    pub row: u8,
    pub col: u8,
    pub pressed: bool,
}

/// What the layer tracker needs to know of a key's resolved action.
#[derive(Clone, Copy, Debug, PartialEq, Eq, Structural)]
pub enum LayerAction {
    /// Layer active while the key is held.
    LayerOn(u8),
    /// Layer inactive while the key is held.
    LayerOff(u8),
    /// Layer flipped on release.
    LayerToggle(u8),
    /// On release: the layer alone if it was off, no layer if it was on.
    LayerToggleOnly(u8),
    /// Any action that does not control layers (keys, `No`, `Transparent`).
    Other,
}

/// The mask bit of layer `l`.
pub open spec fn layer_bit(l: u8) -> u32 {
    1u32 << (l as u32)
}

/// Whether layer `i` is set in `mask`.
pub open spec fn has_layer(mask: u32, i: nat) -> bool {
    i < 32 && (mask >> (i as u32)) & 1u32 == 1u32
}

/// The mask after `action` on a press (`pressed`) or a release, with
/// `layer_count` layers configured. A layer index out of range changes nothing.
pub open spec fn next_mask(mask: u32, action: LayerAction, pressed: bool, layer_count: nat) -> u32 {
    match action {
        LayerAction::LayerOn(l) => {
            if l as nat >= layer_count {
                mask
            } else if pressed {
                mask | layer_bit(l)
            } else {
                mask & !layer_bit(l)
            }
        },
        LayerAction::LayerOff(l) => {
            if l as nat >= layer_count {
                mask
            } else if pressed {
                mask & !layer_bit(l)
            } else {
                mask | layer_bit(l)
            }
        },
        LayerAction::LayerToggle(l) => {
            if l as nat >= layer_count || pressed {
                mask
            } else {
                mask ^ layer_bit(l)
            }
        },
        LayerAction::LayerToggleOnly(l) => {
            if l as nat >= layer_count || pressed {
                mask
            } else {
                (mask ^ layer_bit(l)) & layer_bit(l)
            }
        },
        LayerAction::Other => mask,
    }
}

/// The highest layer below `n` that is set in `mask`; layer 0 when none is.
pub open spec fn top_layer(mask: u32, n: nat) -> nat
    decreases n,
{
    if n == 0 {
        0
    } else if has_layer(mask, (n - 1) as nat) {
        (n - 1) as nat
    } else {
        top_layer(mask, (n - 1) as nat)
    }
}

/// Applies one layer-control action to a mask, as `next_mask` describes.
pub fn apply_layer_action(mask: u32, action: LayerAction, pressed: bool, layer_count: usize) -> (r: u32)
    requires
        layer_count <= MAX_LAYERS,
    ensures
        r == next_mask(mask, action, pressed, layer_count as nat),
{
    match action {
        LayerAction::LayerOn(l) => {
            if l as usize >= layer_count {
                mask
            } else if pressed {
                mask | (1u32 << l as u32)
            } else {
                mask & !(1u32 << l as u32)
            }
        },
        LayerAction::LayerOff(l) => {
            if l as usize >= layer_count {
                mask
            } else if pressed {
                mask & !(1u32 << l as u32)
            } else {
                mask | (1u32 << l as u32)
            }
        },
        LayerAction::LayerToggle(l) => {
            if l as usize >= layer_count || pressed {
                mask
            } else {
                mask ^ (1u32 << l as u32)
            }
        },
        LayerAction::LayerToggleOnly(l) => {
            if l as usize >= layer_count || pressed {
                mask
            } else {
                (mask ^ (1u32 << l as u32)) & (1u32 << l as u32)
            }
        },
        LayerAction::Other => mask,
    }
}

/// The highest active layer among the first `layer_count`, or 0.
pub fn highest_layer(mask: u32, layer_count: usize) -> (r: usize)
    requires
        layer_count <= MAX_LAYERS,
    ensures
        r as nat == top_layer(mask, layer_count as nat),
{
    let mut i: usize = layer_count;
    while i > 0
        invariant
            i <= layer_count <= MAX_LAYERS,
            top_layer(mask, layer_count as nat) == top_layer(mask, i as nat),
        decreases i,
    {
        if (mask >> ((i - 1) as u32)) & 1u32 == 1u32 {
            return i - 1;
        }
        i = i - 1;
    }
    0
}

/// A per-layer table of layer-control actions, indexed by layer, row and column.
pub struct Keymap {
    pub table: Vec<Vec<Vec<LayerAction>>>,
}

impl Keymap {
    /// Number of configured layers.
    pub open spec fn layer_count(&self) -> nat {
        self.table@.len()
    }

    /// The action at a position; `Other` where the table has no entry.
    pub open spec fn action_at(&self, layer: int, row: int, col: int) -> LayerAction {
        if 0 <= layer < self.table@.len() && 0 <= row < self.table@[layer]@.len() && 0 <= col
            < self.table@[layer]@[row]@.len() {
            self.table@[layer]@[row]@[col]
        } else {
            LayerAction::Other
        }
    }

    pub open spec fn wf(&self) -> bool {
        self.layer_count() <= MAX_LAYERS
    }

    /// A keymap over `table`, or `None` when it has more layers than a mask holds.
    pub fn new(table: Vec<Vec<Vec<LayerAction>>>) -> (r: Option<Keymap>)
        ensures
            table@.len() <= MAX_LAYERS <==> r.is_some(),
            r matches Some(k) ==> k.table@ == table@,
    {
        if table.len() <= MAX_LAYERS {
            Some(Keymap { table })
        } else {
            None
        }
    }

    /// Number of configured layers.
    pub fn num_layers(&self) -> (r: usize)
        ensures
            r as nat == self.layer_count(),
    {
        self.table.len()
    }

    /// The action bound at `(layer, row, col)`.
    pub fn lookup(&self, layer: usize, row: usize, col: usize) -> (r: LayerAction)
        ensures
            r == self.action_at(layer as int, row as int, col as int),
    {
        if layer < self.table.len() && row < self.table[layer].len() && col
            < self.table[layer][row].len() {
            self.table[layer][row][col]
        } else {
            LayerAction::Other
        }
    }
}

/// The mask after key event `ev`: the action is resolved on the highest
/// active layer, then applied to the mask.
pub open spec fn mask_after(keymap: &Keymap, mask: u32, ev: KeyEvent) -> u32 {
    let top = top_layer(mask, keymap.layer_count());
    next_mask(
        mask,
        keymap.action_at(top as int, ev.row as int, ev.col as int),
        ev.pressed,
        keymap.layer_count(),
    )
}

/// Derives the set of active layers from raw key transitions.
pub struct LayerTracker {
    keymap: Keymap,
    active_layers: u32,
}

impl LayerTracker {
    pub open spec fn wf(&self) -> bool {
        self.keymap().wf()
    }

    pub closed spec fn keymap(&self) -> &Keymap {
        &self.keymap
    }

    pub closed spec fn mask(&self) -> u32 {
        self.active_layers
    }

    /// A tracker with no layer active beyond the base layer.
    pub fn new(keymap: Keymap) -> (r: LayerTracker)
        requires
            keymap.wf(),
        ensures
            r.wf(),
            r.mask() == 0,
            r.keymap() == keymap,
    {
        LayerTracker { keymap, active_layers: 0 }
    }

    /// Updates the active-layer mask from one key transition.
    pub fn process_key(&mut self, ev: KeyEvent)
        requires
            old(self).wf(),
        ensures
            final(self).wf(),
            final(self).keymap() == old(self).keymap(),
            final(self).mask() == mask_after(old(self).keymap(), old(self).mask(), ev),
    {
        let n = self.keymap.num_layers();
        let top = highest_layer(self.active_layers, n);
        let action = self.keymap.lookup(top, ev.row as usize, ev.col as usize);
        self.active_layers = apply_layer_action(self.active_layers, action, ev.pressed, n);
    }

    /// The active-layer bitmask.
    pub fn active_layers(&self) -> (r: u32)
        ensures
            r == self.mask(),
    {
        self.active_layers
    }

    /// The layer that key positions currently resolve on.
    pub fn current_layer(&self) -> (r: usize)
        requires
            self.wf(),
        ensures
            r as nat == top_layer(self.mask(), self.keymap().layer_count()),
    {
        highest_layer(self.active_layers, self.keymap.num_layers())
    }
}

/// A momentary layer key that is pressed and released again leaves the mask as
/// it found it: `LayerOn(l)` when layer `l` was off before, `LayerOff(l)` when
/// it was on before.
pub proof fn lemma_momentary_press_release(mask: u32, l: u8, layer_count: nat)
    requires
        layer_count <= MAX_LAYERS,
    ensures
        !has_layer(mask, l as nat) ==> next_mask(
            next_mask(mask, LayerAction::LayerOn(l), true, layer_count),
            LayerAction::LayerOn(l),
            false,
            layer_count,
        ) == mask,
        has_layer(mask, l as nat) ==> next_mask(
            next_mask(mask, LayerAction::LayerOff(l), true, layer_count),
            LayerAction::LayerOff(l),
            false,
            layer_count,
        ) == mask,
{
    if (l as nat) < layer_count {
        let b = l as u32;
        assert(b < 32);
        assert(((mask >> b) & 1u32 != 1u32) ==> (mask | (1u32 << b)) & !(1u32 << b) == mask)
            by (bit_vector)
            requires
                b < 32,
        ;
        assert(((mask >> b) & 1u32 == 1u32) ==> (mask & !(1u32 << b)) | (1u32 << b) == mask)
            by (bit_vector)
            requires
                b < 32,
        ;
    }
}

/// The same law seen through a tracker: when the press and the matching
/// release of a key resolve to the same momentary action, the tracker's mask
/// returns to its value before the press.
pub proof fn lemma_tracker_press_release(t: &LayerTracker, row: u8, col: u8, l: u8)
    requires
        t.wf(),
        ({
            let press = KeyEvent { row, col, pressed: true };
            let release = KeyEvent { row, col, pressed: false };
            let km = t.keymap();
            let n = km.layer_count();
            let m1 = mask_after(km, t.mask(), press);
            let a0 = km.action_at(top_layer(t.mask(), n) as int, row as int, col as int);
            let a1 = km.action_at(top_layer(m1, n) as int, row as int, col as int);
            a0 == a1 && ((a0 == LayerAction::LayerOn(l) && !has_layer(t.mask(), l as nat)) || (a0
                == LayerAction::LayerOff(l) && has_layer(t.mask(), l as nat)))
        }),
    ensures
        mask_after(
            t.keymap(),
            mask_after(t.keymap(), t.mask(), KeyEvent { row, col, pressed: true }),
            KeyEvent { row, col, pressed: false },
        ) == t.mask(),
{
    lemma_momentary_press_release(t.mask(), l, t.keymap().layer_count());
}

/// Toggle actions leave the mask alone on a press: they act on release only.
pub proof fn lemma_toggles_act_on_release(mask: u32, l: u8, layer_count: nat)
    ensures
        next_mask(mask, LayerAction::LayerToggle(l), true, layer_count) == mask,
        next_mask(mask, LayerAction::LayerToggleOnly(l), true, layer_count) == mask,
{
}

} // verus!
