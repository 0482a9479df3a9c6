//! Snapshots of entities and of their reflected components, as the inspector
//! reads them from the world, shows them and writes them back.

use vstd::prelude::*;
use crate::reflect::ReflectTypeData;

verus! {

/// Identity of an entity: its index and the generation of that index.
#[derive(Clone, Copy, Debug, PartialEq, Eq, Structural)]
pub struct EntityId {
    pub index: u32,
    pub generation: u32,
}

/// Size and alignment, in bytes, of a component's type.
#[derive(Clone, Copy, Debug, PartialEq, Eq, Structural)]
pub struct ComponentLayout {
    pub size: usize,
    pub align: usize,
}

/// `Entity::from_raw(index)` of bevy_ecs, read back through `index()` and
/// `generation()`. The source builds the entity with the given index and the
/// generation `NonZeroU32::MIN`, that is 1; `generation()` masks it with
/// `0x7FFF_FFFF`, which leaves 1.
#[verifier::external_body]
fn entity_from_raw(index: u32) -> (id: EntityId)
    ensures
        id.index == index,
        id.generation == 1,
{
    let entity = bevy::ecs::entity::Entity::from_raw(index);
    EntityId { index: entity.index(), generation: entity.generation() }
}

/// A copy of one reflected component of an entity.
pub struct TestComponent {
    /// Type name of the component.
    pub name: String,
    /// Index of the component's id in the world.
    pub id: usize,
    /// The component's bytes.
    pub data: Vec<u8>,
    /// How the inspector edits the bytes.
    pub reflect: ReflectTypeData,
    pub layout: ComponentLayout,
    /// The user closed the component's header: it is to be removed from the entity.
    pub is_removed: bool,
}

/// The value of a [`TestComponent`].
pub struct ComponentView {
    pub name: Seq<char>,
    pub id: usize,
    pub data: Seq<u8>,
    pub reflect: ReflectTypeData,
    pub layout: ComponentLayout,
    pub is_removed: bool,
}

impl View for TestComponent {
    type V = ComponentView;

    open spec fn view(&self) -> ComponentView {
        ComponentView {
            name: self.name@,
            id: self.id,
            data: self.data@,
            reflect: self.reflect,
            layout: self.layout,
            is_removed: self.is_removed,
        }
    }
}

/// A byte-for-byte copy of `bytes`.
fn copy_bytes(bytes: &Vec<u8>) -> (res: Vec<u8>)
    ensures
        res@ == bytes@,
{
    let mut res: Vec<u8> = Vec::new();
    let mut i: usize = 0;
    while i < bytes.len()
        invariant
            i <= bytes.len(),
            res@ == bytes@.take(i as int),
        decreases bytes.len() - i,
    {
        res.push(bytes[i]);
        i = i + 1;
        assert(res@ =~= bytes@.take(i as int));
    }
    assert(bytes@.take(i as int) =~= bytes@);
    res
}

impl Clone for TestComponent {
    fn clone(&self) -> (res: Self)
        ensures
            res@ == self@,
    {
        TestComponent {
            name: self.name.clone(),
            id: self.id,
            data: copy_bytes(&self.data),
            reflect: self.reflect,
            layout: self.layout,
            is_removed: self.is_removed,
        }
    }
}

/// The values of a sequence of components.
pub open spec fn views(components: Seq<TestComponent>) -> Seq<ComponentView> {
    components.map_values(|c: TestComponent| c@)
}

/// An entity and copies of its reflected components.
pub struct EntityMeta {
    /// The entity the components are written back to.
    pub id: EntityId,
    /// The components shown in the inspector.
    pub components: Vec<TestComponent>,
}

/// The value of an [`EntityMeta`].
pub struct EntityView {
    pub id: EntityId,
    pub components: Seq<ComponentView>,
}

impl View for EntityMeta {
    type V = EntityView;

    open spec fn view(&self) -> EntityView {
        EntityView { id: self.id, components: views(self.components@) }
    }
}

impl EntityMeta {
    /// A deep copy: same entity, copies of the same components in the same order.
    pub fn clone(&self) -> (res: Self)
        ensures
            res@ == self@,
    {
        let mut v: Vec<TestComponent> = Vec::new();
        let mut i: usize = 0;
        while i < self.components.len()
            invariant
                i <= self.components.len(),
                v@.len() == i,
                views(v@) == views(self.components@).take(i as int),
            decreases self.components.len() - i,
        {
            let c = self.components[i].clone();
            let ghost before = v@;
            v.push(c);
            i = i + 1;
            assert forall|k: int| 0 <= k < i implies #[trigger] views(v@)[k] == views(self.components@)[k] by {
                if k < i - 1 {
                    assert(views(before)[k] == views(self.components@).take(i - 1)[k]);
                }
            }
            assert(views(v@) =~= views(self.components@).take(i as int));
        }
        assert(views(self.components@).take(i as int) =~= views(self.components@));
        EntityMeta { id: self.id, components: v }
    }
}

impl Default for EntityMeta {
    /// The placeholder entity `Entity::from_raw(0)` with no components.
    fn default() -> (res: Self)
        ensures
            res.id == (EntityId { index: 0, generation: 1 }),
            res.components@.len() == 0,
    {
        EntityMeta { id: entity_from_raw(0), components: Vec::new() }
    }
}

/// All entities that the inspector lists.
pub struct EntitiesMeta {
    pub data: Vec<EntityMeta>,
}

impl Default for EntitiesMeta {
    fn default() -> (res: Self)
        ensures
            res.data@.len() == 0,
    {
        EntitiesMeta { data: Vec::new() }
    }
}

/// The first `n` bytes of `bytes`.
fn copy_prefix(bytes: &Vec<u8>, n: usize) -> (res: Vec<u8>)
    requires
        n <= bytes.len(),
    ensures
        res@ == bytes@.take(n as int),
{
    let mut res: Vec<u8> = Vec::new();
    let mut i: usize = 0;
    while i < n
        invariant
            i <= n <= bytes.len(),
            res@ == bytes@.take(i as int),
        decreases n - i,
    {
        res.push(bytes[i]);
        i = i + 1;
        assert(res@ =~= bytes@.take(i as int));
    }
    res
}

/// A component of an entity as it is found in the world.
pub struct ComponentScan {
    /// Index of the component's id in the world.
    pub id: usize,
    /// Type name of the component.
    pub name: String,
    /// The inspector type data registered for the component's type, if any.
    pub type_data: Option<ReflectTypeData>,
    /// The component's bytes (`layout.size` of them).
    pub bytes: Vec<u8>,
    pub layout: ComponentLayout,
}

/// An entity marked for reflection, with all of its components.
pub struct EntityScan {
    pub id: EntityId,
    pub components: Vec<ComponentScan>,
}

/// The inspector's copy of a scanned component that has inspector type data.
pub open spec fn scanned_view(c: ComponentScan, type_data: ReflectTypeData) -> ComponentView {
    ComponentView {
        name: c.name@,
        id: c.id,
        data: c.bytes@,
        reflect: type_data,
        layout: c.layout,
        is_removed: false,
    }
}

/// The inspector's copies of the scanned components that have inspector
/// type data, in their order.
pub open spec fn reflected_components(cs: Seq<ComponentScan>) -> Seq<ComponentView>
    decreases cs.len(),
{
    if cs.len() == 0 {
        Seq::empty()
    } else {
        let before = reflected_components(cs.drop_last());
        match cs.last().type_data {
            Some(type_data) => before.push(scanned_view(cs.last(), type_data)),
            None => before,
        }
    }
}

/// A fresh snapshot marks no component for removal, and keeps only
/// components that have inspector type data.
pub proof fn lemma_scanned_components_kept(cs: Seq<ComponentScan>)
    ensures
        forall|i: int|
            0 <= i < reflected_components(cs).len() ==> !(#[trigger] reflected_components(cs)[i]).is_removed,
        reflected_components(cs).len() <= cs.len(),
    decreases cs.len(),
{
    if cs.len() > 0 {
        lemma_scanned_components_kept(cs.drop_last());
    }
}

/// `v` is an unmarked copy of the scanned component `c`, which has type data.
pub open spec fn copies(v: ComponentView, c: ComponentScan) -> bool {
    &&& c.type_data == Some(v.reflect)
    &&& v.name == c.name@
    &&& v.id == c.id
    &&& v.data == c.bytes@
    &&& v.layout == c.layout
    &&& !v.is_removed
}

/// `v` copies one of the scanned components of `cs`.
pub open spec fn copied_from(v: ComponentView, cs: Seq<ComponentScan>) -> bool {
    exists|j: int| 0 <= j < cs.len() && #[trigger] copies(v, cs[j])
}

/// Each component kept from `cs` copies one of the scanned components.
pub open spec fn kept_are_copies(cs: Seq<ComponentScan>) -> bool {
    forall|i: int| 0 <= i < reflected_components(cs).len() ==> #[trigger] copied_from(reflected_components(cs)[i], cs)
}

/// Each scanned component of `cs` that has type data is copied.
pub open spec fn reflected_are_kept(cs: Seq<ComponentScan>) -> bool {
    forall|j: int|
        0 <= j < cs.len() && (#[trigger] cs[j]).type_data is Some ==> exists|i: int|
            0 <= i < reflected_components(cs).len() && #[trigger] copies(reflected_components(cs)[i], cs[j])
}

/// A snapshot keeps exactly the components that have type data: each kept
/// component copies a scanned component with type data, and each scanned
/// component with type data is copied.
pub proof fn lemma_snapshot_keeps_reflected(cs: Seq<ComponentScan>)
    ensures
        kept_are_copies(cs),
        reflected_are_kept(cs),
    decreases cs.len(),
{
    if cs.len() > 0 {
        let prev = cs.drop_last();
        lemma_snapshot_keeps_reflected(prev);
        let r = reflected_components(cs);
        let rp = reflected_components(prev);
        assert forall|i: int| 0 <= i < reflected_components(cs).len() implies #[trigger] copied_from(reflected_components(cs)[i], cs) by {
            if i < rp.len() {
                assert(r[i] == rp[i]) by {
                    match cs.last().type_data {
                        Some(t) => assert(r == rp.push(scanned_view(cs.last(), t))),
                        None => assert(r == rp),
                    }
                }
                assert(copied_from(rp[i], prev));
                let j = choose|j: int| 0 <= j < prev.len() && #[trigger] copies(rp[i], prev[j]);
                assert(prev[j] == cs[j]);
                assert(copies(r[i], cs[j]));
            } else {
                assert(cs.last() == cs[cs.len() - 1]);
                match cs.last().type_data {
                    Some(t) => {
                        assert(r == rp.push(scanned_view(cs.last(), t)));
                        assert(copies(r[i], cs[cs.len() - 1]));
                    },
                    None => {
                        assert(r == rp);
                    },
                }
            }
        }
        assert forall|j: int| 0 <= j < cs.len() && (#[trigger] cs[j]).type_data is Some implies exists|i: int|
            0 <= i < r.len() && #[trigger] copies(r[i], cs[j]) by {
            if j < prev.len() {
                assert(prev[j] == cs[j]);
                assert((prev[j]).type_data is Some);
                let i = choose|i: int| 0 <= i < rp.len() && #[trigger] copies(rp[i], prev[j]);
                assert(r[i] == rp[i]) by {
                    match cs.last().type_data {
                        Some(t) => assert(r == rp.push(scanned_view(cs.last(), t))),
                        None => assert(r == rp),
                    }
                }
            } else {
                assert(cs.last() == cs[j]);
                let t = cs[j].type_data.unwrap();
                assert(r == rp.push(scanned_view(cs.last(), t)));
                assert(copies(r[rp.len() as int], cs[j]));
            }
        }
    }
}

/// The inspector's snapshot of a scanned entity.
pub open spec fn scanned_entity(scan: EntityScan) -> EntityView {
    EntityView { id: scan.id, components: reflected_components(scan.components@) }
}

/// No scanned component is the one with id `forbidden`.
pub open spec fn avoids_component(scans: Seq<EntityScan>, forbidden: usize) -> bool {
    forall|e: int, c: int|
        0 <= e < scans.len() && 0 <= c < scans[e].components@.len()
            ==> #[trigger] scans[e].components@[c].id != forbidden
}

/// Every component holds at least as many bytes as its layout's size.
pub open spec fn sized_components(cs: Seq<ComponentView>) -> bool {
    forall|i: int| 0 <= i < cs.len() ==> #[trigger] cs[i].layout.size <= cs[i].data.len()
}

/// Every scanned component that has inspector type data was read with
/// exactly `layout.size` bytes.
pub open spec fn sized_scan(cs: Seq<ComponentScan>) -> bool {
    forall|c: int|
        0 <= c < cs.len() && (#[trigger] cs[c]).type_data is Some ==> cs[c].bytes@.len() == cs[c].layout.size
}

/// The copies of sized scanned components hold their layout's size in bytes.
proof fn lemma_reflected_sized(cs: Seq<ComponentScan>)
    requires
        sized_scan(cs),
    ensures
        sized_components(reflected_components(cs)),
    decreases cs.len(),
{
    if cs.len() > 0 {
        assert(sized_scan(cs.drop_last())) by {
            assert forall|c: int|
                0 <= c < cs.drop_last().len() && (#[trigger] cs.drop_last()[c]).type_data is Some
                implies cs.drop_last()[c].bytes@.len() == cs.drop_last()[c].layout.size by {
                assert(cs.drop_last()[c] == cs[c]);
            }
        }
        lemma_reflected_sized(cs.drop_last());
        assert(cs[cs.len() - 1] == cs.last());
    }
}

/// The snapshot of one scanned entity: copies of the components that have
/// inspector type data, none of them marked for removal.
fn reflect_entity(scan: &EntityScan) -> (res: EntityMeta)
    ensures
        res@ == scanned_entity(*scan),
{
    let cs = &scan.components;
    let mut components: Vec<TestComponent> = Vec::new();
    let mut j: usize = 0;
    while j < cs.len()
        invariant
            j <= cs.len(),
            views(components@) == reflected_components(cs@.take(j as int)),
        decreases cs.len() - j,
    {
        let c = &cs[j];
        let ghost before = components@;
        assert(cs@.take(j + 1).drop_last() =~= cs@.take(j as int));
        match c.type_data {
            Some(type_data) => {
                let copy = TestComponent {
                    name: c.name.clone(),
                    id: c.id,
                    data: copy_bytes(&c.bytes),
                    reflect: type_data,
                    layout: c.layout,
                    is_removed: false,
                };
                components.push(copy);
                assert(views(components@) =~= views(before).push(scanned_view(*c, type_data)));
            },
            None => {},
        }
        j = j + 1;
    }
    assert(cs@.take(j as int) =~= cs@);
    EntityMeta { id: scan.id, components }
}

/// Snapshots of the scanned entities: for each, in order, copies of its
/// components that have inspector type data.
/// The world is never scanned while an entity holds the component
/// `locked_axes` (this is a stop in the editor).
pub fn parse_world_entities_data(scans: &Vec<EntityScan>, locked_axes: usize) -> (res: Vec<EntityMeta>)
    requires
        avoids_component(scans@, locked_axes),
        forall|e: int| 0 <= e < scans@.len() ==> sized_scan(#[trigger] scans@[e].components@),
    ensures
        res@.len() == scans@.len(),
        forall|i: int| 0 <= i < scans@.len() ==> sized_components(#[trigger] res@[i]@.components),
        forall|i: int| 0 <= i < scans@.len() ==> #[trigger] res@[i]@ == scanned_entity(scans@[i]),
{
    let mut res: Vec<EntityMeta> = Vec::new();
    let mut i: usize = 0;
    while i < scans.len()
        invariant
            i <= scans.len(),
            res@.len() == i,
            forall|k: int| 0 <= k < i ==> #[trigger] res@[k]@ == scanned_entity(scans@[k]),
            forall|k: int| 0 <= k < i ==> sized_components(#[trigger] res@[k]@.components),
            forall|e: int| 0 <= e < scans@.len() ==> sized_scan(#[trigger] scans@[e].components@),
        decreases scans.len() - i,
    {
        let meta = reflect_entity(&scans[i]);
        proof {
            lemma_reflected_sized(scans@[i as int].components@);
        }
        res.push(meta);
        i = i + 1;
    }
    res
}

/// The bytes to copy back into the world for one component.
pub struct ComponentWrite {
    pub id: usize,
    pub bytes: Vec<u8>,
}

/// What is written back into the world for the edited entity: for each
/// component, in order, its id and the first `layout.size` of its bytes.
pub fn mutate_data(entity_meta: &EntityMeta) -> (writes: Vec<ComponentWrite>)
    requires
        sized_components(entity_meta@.components),
    ensures
        writes@.len() == entity_meta@.components.len(),
        forall|i: int|
            0 <= i < writes@.len() ==> {
                let c = #[trigger] entity_meta@.components[i];
                writes@[i].id == c.id && writes@[i].bytes@ == c.data.take(c.layout.size as int)
            },
{
    let cs = &entity_meta.components;
    let mut writes: Vec<ComponentWrite> = Vec::new();
    let mut i: usize = 0;
    while i < cs.len()
        invariant
            i <= cs.len(),
            views(cs@) == entity_meta@.components,
            sized_components(views(cs@)),
            writes@.len() == i,
            forall|k: int|
                0 <= k < i ==> {
                    let c = #[trigger] views(cs@)[k];
                    writes@[k].id == c.id && writes@[k].bytes@ == c.data.take(c.layout.size as int)
                },
        decreases cs.len() - i,
    {
        let c = &cs[i];
        assert(views(cs@)[i as int] == c@);
        assert(views(cs@)[i as int].layout.size <= views(cs@)[i as int].data.len());
        let bytes = copy_prefix(&c.data, c.layout.size);
        writes.push(ComponentWrite { id: c.id, bytes });
        i = i + 1;
    }
    writes
}

/// Component `i` is the first one marked for removal.
pub open spec fn first_removed(cs: Seq<ComponentView>, i: int) -> bool {
    &&& 0 <= i < cs.len()
    &&& cs[i].is_removed
    &&& forall|j: int| 0 <= j < i ==> !(#[trigger] cs[j]).is_removed
}

/// Removing an element and then taking the values is taking the values and
/// then removing the element.
proof fn lemma_views_remove(cs: Seq<TestComponent>, i: int)
    requires
        0 <= i < cs.len(),
    ensures
        views(cs.remove(i)) == views(cs).remove(i),
{
    assert(views(cs.remove(i)) =~= views(cs).remove(i));
}

/// Removes the first component whose header the user closed, and returns
/// its id so that it is removed from the entity in the world too.
pub fn check_component_delete(entity_meta: &mut EntityMeta) -> (removed: Option<usize>)
    requires
        old(entity_meta).components.len() <= i32::MAX,
    ensures
        final(entity_meta).id == old(entity_meta).id,
        match removed {
            None => {
                &&& final(entity_meta)@ == old(entity_meta)@
                &&& forall|i: int|
                    0 <= i < old(entity_meta)@.components.len()
                        ==> !(#[trigger] old(entity_meta)@.components[i]).is_removed
            },
            Some(id) => exists|i: int|
                {
                    &&& #[trigger] first_removed(old(entity_meta)@.components, i)
                    &&& id == old(entity_meta)@.components[i].id
                    &&& final(entity_meta)@.components == old(entity_meta)@.components.remove(i)
                },
        },
{
    let mut remove_index: i32 = -1;
    let mut i: usize = 0;
    while i < entity_meta.components.len()
        invariant_except_break
            remove_index == -1,
        invariant
            i <= entity_meta.components.len() <= i32::MAX,
            *entity_meta == *old(entity_meta),
            forall|j: int| 0 <= j < i ==> !(#[trigger] entity_meta@.components[j]).is_removed,
        ensures
            remove_index == -1 ==> forall|j: int|
                0 <= j < entity_meta@.components.len() ==> !(#[trigger] entity_meta@.components[j]).is_removed,
            remove_index != -1 ==> first_removed(entity_meta@.components, remove_index as int),
        decreases entity_meta.components.len() - i,
    {
        if entity_meta.components[i].is_removed {
            assert(entity_meta@.components[i as int] == entity_meta.components@[i as int]@);
            remove_index = i as i32;
            break;
        }
        assert(entity_meta@.components[i as int] == entity_meta.components@[i as int]@);
        i = i + 1;
    }
    if remove_index >= 0 {
        let index = remove_index as usize;
        proof {
            lemma_views_remove(entity_meta.components@, index as int);
        }
        let component = entity_meta.components.remove(index);
        assert(first_removed(old(entity_meta)@.components, index as int));
        Some(component.id)
    } else {
        None
    }
}

impl EntityMeta {
    /// Makes this entity a copy of `selected`: same entity, copies of its
    /// components.
    pub fn sync_from(&mut self, selected: &EntityMeta)
        ensures
            final(self)@ == selected@,
    {
        let copy = selected.clone();
        self.id = copy.id;
        self.components = copy.components;
    }

    /// Records which component headers are still open after the inspector
    /// drew them: a component whose header was closed is marked for removal.
    pub fn record_close_buttons(&mut self, open: &Vec<bool>)
        requires
            open@.len() == old(self).components@.len(),
        ensures
            final(self).id == old(self).id,
            marked_by_close_buttons(old(self)@.components, final(self)@.components, open@),
    {
        let mut i: usize = 0;
        while i < open.len()
            invariant
                i <= open@.len() == old(self).components@.len() == self.components@.len(),
                self.id == old(self).id,
                forall|k: int|
                    0 <= k < i ==> #[trigger] self@.components[k] == (ComponentView {
                        is_removed: !open@[k],
                        ..old(self)@.components[k]
                    }),
                forall|k: int| i <= k < open@.len() ==> #[trigger] self@.components[k] == old(self)@.components[k],
            decreases open.len() - i,
        {
            let ghost prev = self@.components;
            let mut c = self.components[i].clone();
            c.is_removed = !open[i];
            let ghost before = self.components@;
            assert(prev[i as int] == old(self)@.components[i as int]);
            self.components.set(i, c);
            assert forall|k: int| 0 <= k < open@.len() && k != i implies #[trigger] self@.components[k] == prev[k] by {
                assert(self.components@[k] == before[k]);
            }
            i = i + 1;
        }
    }
}

/// `after` is `before` with each component marked for removal exactly when
/// its header is no longer open, as `record_close_buttons` leaves it.
pub open spec fn marked_by_close_buttons(
    before: Seq<ComponentView>,
    after: Seq<ComponentView>,
    open: Seq<bool>,
) -> bool {
    &&& after.len() == before.len() == open.len()
    &&& forall|i: int|
        0 <= i < open.len() ==> #[trigger] after[i] == (ComponentView { is_removed: !open[i], ..before[i] })
}

/// After the close buttons are recorded, the component that
/// `check_component_delete` removes is the first one whose header was closed.
pub proof fn lemma_delete_follows_close_buttons(
    before: Seq<ComponentView>,
    after: Seq<ComponentView>,
    open: Seq<bool>,
    i: int,
)
    requires
        marked_by_close_buttons(before, after, open),
    ensures
        first_removed(after, i) <==> (0 <= i < open.len() && !open[i] && forall|j: int|
            0 <= j < i ==> #[trigger] open[j]),
{
    if 0 <= i < open.len() && !open[i] && forall|j: int| 0 <= j < i ==> #[trigger] open[j] {
        assert forall|j: int| 0 <= j < i implies !(#[trigger] after[j]).is_removed by {
            assert(open[j]);
        }
    }
    if first_removed(after, i) {
        assert forall|j: int| 0 <= j < i implies #[trigger] open[j] by {
            assert(!after[j].is_removed);
        }
    }
}

/// Entry `i` is the last entry that the user pressed.
pub open spec fn last_pressed(pressed: Seq<bool>, i: int) -> bool {
    &&& 0 <= i < pressed.len()
    &&& pressed[i]
    &&& forall|j: int| i < j < pressed.len() ==> !#[trigger] pressed[j]
}

/// The picked entry is pressed and no pressed entry comes after it; at most
/// one entry is picked, and one is whenever anything was pressed.
pub proof fn lemma_last_pressed_is_latest(pressed: Seq<bool>, i: int, k: int)
    ensures
        last_pressed(pressed, i) && 0 <= k < pressed.len() && pressed[k] ==> k <= i,
        last_pressed(pressed, i) && last_pressed(pressed, k) ==> i == k,
        0 <= k < pressed.len() && pressed[k] ==> exists|m: int| #[trigger] last_pressed(pressed, m),
    decreases pressed.len() - k,
{
    if 0 <= k < pressed.len() && pressed[k] {
        if forall|j: int| k < j < pressed.len() ==> !#[trigger] pressed[j] {
            assert(last_pressed(pressed, k));
        } else {
            let j = choose|j: int| k < j < pressed.len() && #[trigger] pressed[j];
            lemma_last_pressed_is_latest(pressed, i, j);
        }
    }
}

/// The entity whose button the user pressed in the hierarchy list (the last
/// one where several were pressed), as a copy.
pub fn pressed_entity(entities: &EntitiesMeta, pressed: &Vec<bool>) -> (res: Option<EntityMeta>)
    requires
        pressed@.len() == entities.data@.len(),
        entities.data@.len() <= i32::MAX,
    ensures
        match res {
            None => forall|i: int| 0 <= i < pressed@.len() ==> !#[trigger] pressed@[i],
            Some(entity) => exists|i: int|
                #[trigger] last_pressed(pressed@, i) && entity@ == entities.data@[i]@,
        },
{
    let mut index: i32 = -1;
    let mut i: usize = 0;
    while i < entities.data.len()
        invariant
            i <= entities.data@.len() == pressed@.len() <= i32::MAX,
            -1 <= index < i,
            index == -1 ==> forall|j: int| 0 <= j < i ==> !#[trigger] pressed@[j],
            index != -1 ==> pressed@[index as int] && forall|j: int|
                index < j < i ==> !#[trigger] pressed@[j],
        decreases entities.data.len() - i,
    {
        if pressed[i] {
            index = i as i32;
        }
        i = i + 1;
    }
    if index >= 0 {
        let entity = entities.data[index as usize].clone();
        assert(last_pressed(pressed@, index as int));
        Some(entity)
    } else {
        None
    }
}

/// The entity that the inspector shows.
pub struct InspectorSelection {
    pub active_entity: Option<EntityMeta>,
}

impl InspectorSelection {
    /// Nothing selected yet.
    pub fn new() -> (res: Self)
        ensures
            res.active_entity is None,
    {
        InspectorSelection { active_entity: None }
    }

    /// Shows `entity` when one was picked in the hierarchy; otherwise keeps
    /// showing the current one.
    pub fn select(&mut self, entity: Option<EntityMeta>)
        ensures
            final(self).active_entity == (match entity {
                Some(e) => Some(e),
                None => old(self).active_entity,
            }),
    {
        if entity.is_some() {
            self.active_entity = entity;
        }
    }
}

} // verus!
