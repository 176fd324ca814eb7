//! Turning the differences of rendered instances into writes of instance attributes,
//! allocating and releasing slots as instances appear and disappear.

use vstd::prelude::*;

use crate::instance::index::{Index, Indexer};

verus! {

/// What changed for one rendered instance since the last frame.
#[derive(Copy, Clone, PartialEq, Eq, Structural, Debug)]
pub struct InstanceDifference {
    pub create: bool,
    pub remove: bool,
    pub position: bool,
    pub area: bool,
    pub layer: bool,
    pub color: bool,
    pub icon_id: bool,
}

impl InstanceDifference {
    /// Nothing changed.
    pub fn new() -> (r: InstanceDifference)
        ensures
            r == InstanceDifference::none(),
    {
        InstanceDifference {
            create: false,
            remove: false,
            position: false,
            area: false,
            layer: false,
            color: false,
            icon_id: false,
        }
    }

    pub open spec fn none() -> InstanceDifference {
        InstanceDifference {
            create: false,
            remove: false,
            position: false,
            area: false,
            layer: false,
            color: false,
            icon_id: false,
        }
    }
}

/// An instance attribute buffer.
#[derive(Copy, Clone, PartialEq, Eq, Structural, Debug)]
pub enum InstanceAttribute {
    /// The null bit: `true` hides the slot, `false` shows it.
    NullBit(bool),
    Position,
    Area,
    Layer,
    Color,
    TexCoords,
}

/// A write of one attribute of the instance in slot `index`.
#[derive(Copy, Clone, PartialEq, Eq, Structural, Debug)]
pub struct InstanceWrite {
    pub index: Index,
    pub attribute: InstanceAttribute,
}

/// The difference after a visibility change: a visible instance is created with every
/// attribute written; an invisible one is removed.
pub open spec fn after_visibility(d: InstanceDifference, visible: bool) -> InstanceDifference {
    if visible {
        InstanceDifference {
            position: true,
            area: true,
            layer: true,
            color: true,
            icon_id: true,
            create: true,
            ..d
        }
    } else {
        InstanceDifference { remove: true, ..d }
    }
}

/// Records that an instance became visible or invisible.
pub fn visibility_changed(difference: &mut InstanceDifference, visible: bool)
    ensures
        *final(difference) == after_visibility(*old(difference), visible),
{
    if visible {
        difference.position = true;
        difference.area = true;
        difference.layer = true;
        difference.color = true;
        difference.icon_id = true;
        difference.create = true;
    } else {
        difference.remove = true;
    }
}

/// The attribute writes, at `slot`, for the attributes `d` marks as changed, in the
/// order position, area, layer, color, texture coordinates.
pub open spec fn attribute_writes(d: InstanceDifference, slot: Index) -> Seq<InstanceWrite> {
    let p = if d.position { seq![InstanceWrite { index: slot, attribute: InstanceAttribute::Position }] } else { Seq::empty() };
    let a = if d.area { seq![InstanceWrite { index: slot, attribute: InstanceAttribute::Area }] } else { Seq::empty() };
    let l = if d.layer { seq![InstanceWrite { index: slot, attribute: InstanceAttribute::Layer }] } else { Seq::empty() };
    let c = if d.color { seq![InstanceWrite { index: slot, attribute: InstanceAttribute::Color }] } else { Seq::empty() };
    let t = if d.icon_id { seq![InstanceWrite { index: slot, attribute: InstanceAttribute::TexCoords }] } else { Seq::empty() };
    p + a + l + c + t
}

/// Applies one instance's difference: a removal releases its slot and hides it, a
/// creation assigns a slot and shows it, and each changed attribute is written to the
/// instance's slot when it has one. The difference is reset afterwards.
pub fn read_difference(
    indexer: &mut Indexer<u64>,
    entity: u64,
    difference: &mut InstanceDifference,
) -> (writes: Vec<InstanceWrite>)
    requires
        old(indexer).wf(),
        ({
            let released = old(difference).remove && old(indexer).indices@.contains_key(entity);
            let holes = if released {
                old(indexer).holes@.insert(old(indexer).indices@[entity].value)
            } else {
                old(indexer).holes@
            };
            old(difference).create && holes.len() == 0 ==> old(indexer).count < u32::MAX
        }),
    ensures
        final(indexer).wf(),
        final(indexer).max == old(indexer).max,
        *final(difference) == InstanceDifference::none(),
        ({
            let d = *old(difference);
            let old_indices = old(indexer).indices@;
            let released = d.remove && old_indices.contains_key(entity);
            let mid_indices = if d.remove {
                old_indices.remove(entity)
            } else {
                old_indices
            };
            let mid_holes = if released {
                old(indexer).holes@.insert(old_indices[entity].value)
            } else {
                old(indexer).holes@
            };
            let final_indices = final(indexer).indices@;
            let release_writes = if released {
                seq![InstanceWrite { index: old_indices[entity], attribute: InstanceAttribute::NullBit(true) }]
            } else {
                Seq::empty()
            };
            let create_writes = if d.create {
                seq![InstanceWrite { index: final_indices[entity], attribute: InstanceAttribute::NullBit(false) }]
            } else {
                Seq::empty()
            };
            let update_writes = if final_indices.contains_key(entity) {
                attribute_writes(d, final_indices[entity])
            } else {
                Seq::empty()
            };
            &&& if d.create {
                &&& final_indices.contains_key(entity)
                &&& final_indices == mid_indices.insert(entity, final_indices[entity])
                &&& if mid_holes.len() == 0 {
                    &&& final_indices[entity].value == old(indexer).count
                    &&& final(indexer).count == old(indexer).count + 1
                    &&& final(indexer).holes@ == mid_holes
                } else {
                    &&& mid_holes.contains(final_indices[entity].value)
                    &&& final(indexer).holes@ == mid_holes.remove(final_indices[entity].value)
                    &&& final(indexer).count == old(indexer).count
                }
            } else {
                &&& final_indices == mid_indices
                &&& final(indexer).holes@ == mid_holes
                &&& final(indexer).count == old(indexer).count
            }
            &&& writes@ == release_writes + create_writes + update_writes
        }),
{
    let mut writes: Vec<InstanceWrite> = Vec::new();
    if difference.remove {
        release_slot(indexer, entity, &mut writes);
        difference.remove = false;
    }
    if difference.create {
        assign_slot(indexer, entity, &mut writes);
        difference.create = false;
    }
    let slot = indexer.get_index(entity);
    let d = *difference;
    push_attribute_writes(&mut writes, d, slot);
    *difference = InstanceDifference::new();
    writes
}

/// Releases the slot of `entity`, writing the hidden null bit to it when it had one
/// (also what happens to an instance whose component was removed).
pub fn release_slot(indexer: &mut Indexer<u64>, entity: u64, writes: &mut Vec<InstanceWrite>)
    requires
        old(indexer).wf(),
    ensures
        final(indexer).wf(),
        final(indexer).max == old(indexer).max,
        final(indexer).count == old(indexer).count,
        final(indexer).indices@ == old(indexer).indices@.remove(entity),
        final(indexer).holes@ == if old(indexer).indices@.contains_key(entity) {
            old(indexer).holes@.insert(old(indexer).indices@[entity].value)
        } else {
            old(indexer).holes@
        },
        final(writes)@ == old(writes)@ + if old(indexer).indices@.contains_key(entity) {
            seq![InstanceWrite { index: old(indexer).indices@[entity], attribute: InstanceAttribute::NullBit(true) }]
        } else {
            Seq::empty()
        },
{
    match indexer.remove(entity) {
        Some(i) => {
            writes.push(InstanceWrite { index: i, attribute: InstanceAttribute::NullBit(true) });
        },
        None => {
            assert(old(indexer).indices@.remove(entity) =~= old(indexer).indices@);
            assert(writes@ =~= old(writes)@ + Seq::<InstanceWrite>::empty());
        },
    }
}

/// Assigns a slot to `entity`, writing the shown null bit to it.
fn assign_slot(indexer: &mut Indexer<u64>, entity: u64, writes: &mut Vec<InstanceWrite>)
    requires
        old(indexer).wf(),
        old(indexer).holes@.len() == 0 ==> old(indexer).count < u32::MAX,
    ensures
        final(indexer).wf(),
        final(indexer).max == old(indexer).max,
        final(indexer).indices@.contains_key(entity),
        final(indexer).indices@ == old(indexer).indices@.insert(entity, final(indexer).indices@[entity]),
        old(indexer).holes@.len() == 0 ==> {
            &&& final(indexer).indices@[entity].value == old(indexer).count
            &&& final(indexer).count == old(indexer).count + 1
            &&& final(indexer).holes@ == old(indexer).holes@
        },
        old(indexer).holes@.len() > 0 ==> {
            &&& old(indexer).holes@.contains(final(indexer).indices@[entity].value)
            &&& final(indexer).holes@ == old(indexer).holes@.remove(final(indexer).indices@[entity].value)
            &&& final(indexer).count == old(indexer).count
        },
        final(writes)@ == old(writes)@.push(
            InstanceWrite { index: final(indexer).indices@[entity], attribute: InstanceAttribute::NullBit(false) },
        ),
{
    let index = indexer.next(entity);
    writes.push(InstanceWrite { index, attribute: InstanceAttribute::NullBit(false) });
}

/// Appends the attribute writes of `d` at `slot`, when there is a slot.
fn push_attribute_writes(writes: &mut Vec<InstanceWrite>, d: InstanceDifference, slot: Option<Index>)
    ensures
        final(writes)@ == old(writes)@ + match slot {
            Some(i) => attribute_writes(d, i),
            None => Seq::empty(),
        },
{
    match slot {
        Some(i) => {
            if d.position {
                writes.push(InstanceWrite { index: i, attribute: InstanceAttribute::Position });
            }
            if d.area {
                writes.push(InstanceWrite { index: i, attribute: InstanceAttribute::Area });
            }
            if d.layer {
                writes.push(InstanceWrite { index: i, attribute: InstanceAttribute::Layer });
            }
            if d.color {
                writes.push(InstanceWrite { index: i, attribute: InstanceAttribute::Color });
            }
            if d.icon_id {
                writes.push(InstanceWrite { index: i, attribute: InstanceAttribute::TexCoords });
            }
            assert(writes@ =~= old(writes)@ + attribute_writes(d, i));
        },
        None => {
            assert(writes@ =~= old(writes)@ + Seq::<InstanceWrite>::empty());
        },
    }
}

/// Whether `writes` writes `attribute` to `slot`.
pub open spec fn writes_attribute(writes: Seq<InstanceWrite>, slot: Index, attribute: InstanceAttribute) -> bool {
    writes.contains(InstanceWrite { index: slot, attribute })
}

/// Every attribute marked as changed is written to the instance's slot, whatever the
/// other marks say, and no other attribute is: each write goes to that slot, none writes
/// the null bit, and no attribute is written twice.
pub proof fn lemma_changed_attributes_are_written(d: InstanceDifference, slot: Index)
    ensures
        writes_attribute(attribute_writes(d, slot), slot, InstanceAttribute::Position) == d.position,
        writes_attribute(attribute_writes(d, slot), slot, InstanceAttribute::Area) == d.area,
        writes_attribute(attribute_writes(d, slot), slot, InstanceAttribute::Layer) == d.layer,
        writes_attribute(attribute_writes(d, slot), slot, InstanceAttribute::Color) == d.color,
        writes_attribute(attribute_writes(d, slot), slot, InstanceAttribute::TexCoords)
            == d.icon_id,
        forall|i: int|
            0 <= i < attribute_writes(d, slot).len() ==> (#[trigger] attribute_writes(d, slot)[i]).index
                == slot && !(attribute_writes(d, slot)[i].attribute is NullBit),
        attribute_writes(d, slot).no_duplicates(),
{
    let w = |a: InstanceAttribute| InstanceWrite { index: slot, attribute: a };
    let p = if d.position { seq![w(InstanceAttribute::Position)] } else { Seq::empty() };
    let a = if d.area { seq![w(InstanceAttribute::Area)] } else { Seq::empty() };
    let l = if d.layer { seq![w(InstanceAttribute::Layer)] } else { Seq::empty() };
    let c = if d.color { seq![w(InstanceAttribute::Color)] } else { Seq::empty() };
    let t = if d.icon_id { seq![w(InstanceAttribute::TexCoords)] } else { Seq::empty() };
    let all = attribute_writes(d, slot);
    assert(all =~= p + a + l + c + t);
    let attrs = seq![
        InstanceAttribute::Position,
        InstanceAttribute::Area,
        InstanceAttribute::Layer,
        InstanceAttribute::Color,
        InstanceAttribute::TexCoords,
    ];
    let flags = seq![d.position, d.area, d.layer, d.color, d.icon_id];
    // The writes are the marked attributes, in order: each element is one of the five
    // writes, and the k-th attribute appears exactly when its flag is set.
    assert forall|i: int| 0 <= i < all.len() implies (#[trigger] all[i]).index == slot && !(
    all[i].attribute is NullBit) by {
        let pa = p + a;
        let pal = pa + l;
        let palc = pal + c;
        if i < p.len() {
        } else if i < pa.len() {
            assert(all[i] == a[i - p.len()]);
        } else if i < pal.len() {
            assert(all[i] == l[i - pa.len()]);
        } else if i < palc.len() {
            assert(all[i] == c[i - pal.len()]);
        } else {
            assert(all[i] == t[i - palc.len()]);
        }
    }
    lemma_concat_contains(p, a, l, c, t, w(InstanceAttribute::Position));
    lemma_concat_contains(p, a, l, c, t, w(InstanceAttribute::Area));
    lemma_concat_contains(p, a, l, c, t, w(InstanceAttribute::Layer));
    lemma_concat_contains(p, a, l, c, t, w(InstanceAttribute::Color));
    lemma_concat_contains(p, a, l, c, t, w(InstanceAttribute::TexCoords));
    assert forall|i: int, j: int| 0 <= i < all.len() && 0 <= j < all.len() && i != j implies all[i]
        != all[j] by {
        lemma_concat_position(p, a, l, c, t, i);
        lemma_concat_position(p, a, l, c, t, j);
    }
}

/// An element is in a concatenation of five sequences exactly when it is in one of them.
proof fn lemma_concat_contains(
    p: Seq<InstanceWrite>,
    a: Seq<InstanceWrite>,
    l: Seq<InstanceWrite>,
    c: Seq<InstanceWrite>,
    t: Seq<InstanceWrite>,
    x: InstanceWrite,
)
    ensures
        (p + a + l + c + t).contains(x) == (p.contains(x) || a.contains(x) || l.contains(x)
            || c.contains(x) || t.contains(x)),
{
    broadcast use vstd::seq_lib::group_seq_properties;

}

/// Where element `i` of the concatenation comes from, for the at most one-element parts
/// of `attribute_writes`: its attribute tells which part holds it, so two positions with
/// equal elements are the same position.
proof fn lemma_concat_position(
    p: Seq<InstanceWrite>,
    a: Seq<InstanceWrite>,
    l: Seq<InstanceWrite>,
    c: Seq<InstanceWrite>,
    t: Seq<InstanceWrite>,
    i: int,
)
    requires
        p.len() <= 1,
        a.len() <= 1,
        l.len() <= 1,
        c.len() <= 1,
        t.len() <= 1,
        p.len() == 1 ==> p[0].attribute == InstanceAttribute::Position,
        a.len() == 1 ==> a[0].attribute == InstanceAttribute::Area,
        l.len() == 1 ==> l[0].attribute == InstanceAttribute::Layer,
        c.len() == 1 ==> c[0].attribute == InstanceAttribute::Color,
        t.len() == 1 ==> t[0].attribute == InstanceAttribute::TexCoords,
        0 <= i < (p + a + l + c + t).len(),
    ensures
        ({
            let all = p + a + l + c + t;
            let k = if all[i].attribute == InstanceAttribute::Position {
                0
            } else if all[i].attribute == InstanceAttribute::Area {
                p.len() as int
            } else if all[i].attribute == InstanceAttribute::Layer {
                (p.len() + a.len()) as int
            } else if all[i].attribute == InstanceAttribute::Color {
                (p.len() + a.len() + l.len()) as int
            } else {
                (p.len() + a.len() + l.len() + c.len()) as int
            };
            i == k
        }),
{
}

} // verus!
