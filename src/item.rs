use vstd::prelude::*;

use crate::actors::clamp;
use crate::color::{Attributes, ColorName};
use crate::gamedata::cavern;

verus! {

/// An item of the cavern being played.
#[derive(Debug, Clone, Copy)]
pub struct Item {
    pub data: cavern::Item,
    pub collected: bool,
    /// The animation frame, 0 to 3.
    pub frame: usize,
}

/// The cell an item lies in.
pub open spec fn item_cell(item: Item) -> (int, int) {
    (item.data.position.0 as int, item.data.position.1 as int)
}

/// An item after the player has covered `cells`: collected if it lies in
/// one of them or was collected already.
pub open spec fn collect_one(item: Item, cells: Seq<(int, int)>) -> Item {
    Item { collected: item.collected || cells.contains(item_cell(item)), ..item }
}

/// The items after the player has covered `cells`.
pub open spec fn collect_items(items: Seq<Item>, cells: Seq<(int, int)>) -> Seq<Item> {
    Seq::new(items.len(), |j: int| collect_one(items[j], cells))
}

/// Colliding with the same cells again collects nothing more: each item
/// turns from uncollected to collected at most once.
pub proof fn lemma_collect_idempotent(items: Seq<Item>, cells: Seq<(int, int)>)
    ensures
        collect_items(collect_items(items, cells), cells) == collect_items(items, cells),
        forall|j: int|
            0 <= j < items.len() && items[j].collected ==> #[trigger] collect_items(items, cells)[j]
                == items[j],
{
    assert(collect_items(collect_items(items, cells), cells) =~= collect_items(items, cells));
    assert forall|j: int| 0 <= j < items.len() && items[j].collected implies #[trigger] collect_items(
        items,
        cells,
    )[j] == items[j] by {
        let it = items[j];
        assert(collect_one(it, cells) == Item { collected: true, ..it });
    }
}

/// The ink colours items cycle through, as palette indices.
pub open spec fn cycle_ink(i: int) -> u8 {
    if i == 0 {
        ColorName::Magenta.index_spec()
    } else if i == 1 {
        ColorName::Yellow.index_spec()
    } else if i == 2 {
        ColorName::Cyan.index_spec()
    } else {
        ColorName::Green.index_spec()
    }
}

fn cycle_color(i: usize) -> (r: ColorName)
    requires
        i < 4,
    ensures
        r.index_spec() == cycle_ink(i as int),
{
    if i == 0 {
        ColorName::Magenta
    } else if i == 1 {
        ColorName::Yellow
    } else if i == 2 {
        ColorName::Cyan
    } else {
        ColorName::Green
    }
}

/// Where the colour cycle of an item with ink `ink` starts: at that ink if
/// it is in the cycle, else at its first colour.
pub open spec fn cycle_start(ink: u8) -> int {
    if ink == cycle_ink(0) {
        0
    } else if ink == cycle_ink(1) {
        1
    } else if ink == cycle_ink(2) {
        2
    } else if ink == cycle_ink(3) {
        3
    } else {
        0
    }
}

impl Item {
    /// An uncollected item at its first frame.
    pub fn new(data: cavern::Item) -> (r: Item)
        ensures
            r.data == data,
            !r.collected,
            r.frame == 0,
    {
        Item { data, collected: false, frame: 0 }
    }

    /// Moves to the next animation frame, from 3 back to 0.
    pub fn cycle(&mut self)
        requires
            old(self).frame < 4,
        ensures
            final(self).frame == (old(self).frame + 1) % 4,
            final(self).data == old(self).data,
            final(self).collected == old(self).collected,
    {
        self.frame = clamp(self.frame + 1, 0, 3);
    }
}

/// The four attributes an item flashes through: its own attribute with the
/// ink replaced by the colours of the cycle, starting at its own ink.
pub fn item_cycle_colors(initial_color: &Attributes) -> (r: Vec<Attributes>)
    ensures
        r@.len() == 4,
        forall|k: int|
            0 <= k < 4 ==> (#[trigger] r@[k]) == (Attributes {
                ink: cycle_ink((cycle_start(initial_color.ink) + k) % 4),
                ..*initial_color
            }),
{
    let ink = initial_color.ink;
    let start: usize = if ink == cycle_color(0).index() {
        0
    } else if ink == cycle_color(1).index() {
        1
    } else if ink == cycle_color(2).index() {
        2
    } else if ink == cycle_color(3).index() {
        3
    } else {
        0
    };
    assert(start == cycle_start(initial_color.ink));
    let mut colors: Vec<Attributes> = Vec::new();
    let mut i: usize = start;
    let mut n: usize = 0;
    while n < 4
        invariant
            n <= 4,
            i < 4,
            start == cycle_start(initial_color.ink),
            i == (start + n) % 4,
            colors@.len() == n,
            forall|k: int|
                0 <= k < n ==> (#[trigger] colors@[k]) == (Attributes {
                    ink: cycle_ink((start + k) % 4),
                    ..*initial_color
                }),
        decreases 4 - n,
    {
        let mut attributes = *initial_color;
        attributes.ink = cycle_color(i).index();
        colors.push(attributes);
        i = clamp(i + 1, 0, 3);
        n = n + 1;
    }
    colors
}

} // verus!
