use sokoban_editor::entity::{
    check_component_delete, mutate_data, parse_world_entities_data, pressed_entity, ComponentLayout, ComponentScan,
    EntitiesMeta, EntityId, EntityMeta, EntityScan, InspectorSelection, TestComponent,
};
use sokoban_editor::reflect::{ReflectKind, ReflectTypeData};

fn component(id: usize, name: &str, data: Vec<u8>, removed: bool) -> TestComponent {
    TestComponent {
        name: name.to_string(),
        id,
        layout: ComponentLayout { size: data.len(), align: 1 },
        data,
        reflect: ReflectTypeData { kind: ReflectKind::LockedAxes },
        is_removed: removed,
    }
}

fn entity(index: u32, components: Vec<TestComponent>) -> EntityMeta {
    EntityMeta { id: EntityId { index, generation: 1 }, components }
}

fn ids(meta: &EntityMeta) -> Vec<usize> {
    meta.components.iter().map(|c| c.id).collect()
}

#[test]
fn default_entity_is_raw_zero() {
    let meta = EntityMeta::default();
    assert_eq!(meta.id, EntityId { index: 0, generation: 1 });
    assert!(meta.components.is_empty());
    assert!(EntitiesMeta::default().data.is_empty());
}

#[test]
fn clone_copies_everything() {
    let meta = entity(4, vec![component(1, "a", vec![1, 2], false), component(2, "b", vec![3], true)]);
    let copy = meta.clone();
    assert_eq!(copy.id, meta.id);
    assert_eq!(copy.components.len(), 2);
    assert_eq!(copy.components[0].name, "a");
    assert_eq!(copy.components[0].data, vec![1, 2]);
    assert!(copy.components[1].is_removed);
}

#[test]
fn deleting_removes_only_the_first_closed_component() {
    let mut meta = entity(
        1,
        vec![
            component(10, "a", vec![], false),
            component(11, "b", vec![], true),
            component(12, "c", vec![], true),
        ],
    );
    assert_eq!(check_component_delete(&mut meta), Some(11));
    assert_eq!(ids(&meta), vec![10, 12]);
    assert_eq!(check_component_delete(&mut meta), Some(12));
    assert_eq!(ids(&meta), vec![10]);
    assert_eq!(check_component_delete(&mut meta), None);
    assert_eq!(ids(&meta), vec![10]);
}

#[test]
fn close_buttons_mark_components() {
    let mut meta = entity(1, vec![component(10, "a", vec![], false), component(11, "b", vec![], false)]);
    meta.record_close_buttons(&vec![true, false]);
    assert!(!meta.components[0].is_removed);
    assert!(meta.components[1].is_removed);
    assert_eq!(check_component_delete(&mut meta), Some(11));
}

#[test]
fn sync_copies_the_selection() {
    let mut target = EntityMeta::default();
    let selected = entity(9, vec![component(3, "x", vec![5], false)]);
    target.sync_from(&selected);
    assert_eq!(target.id, EntityId { index: 9, generation: 1 });
    assert_eq!(ids(&target), vec![3]);
    assert_eq!(target.components[0].data, vec![5]);
}

#[test]
fn last_pressed_entity_is_picked() {
    let entities = EntitiesMeta { data: vec![entity(0, vec![]), entity(1, vec![]), entity(2, vec![])] };
    assert!(pressed_entity(&entities, &vec![false, false, false]).is_none());
    assert_eq!(pressed_entity(&entities, &vec![true, false, false]).unwrap().id.index, 0);
    assert_eq!(pressed_entity(&entities, &vec![true, true, false]).unwrap().id.index, 1);
}

#[test]
fn inspector_keeps_its_selection() {
    let mut selection = InspectorSelection::new();
    assert!(selection.active_entity.is_none());
    selection.select(Some(entity(5, vec![])));
    selection.select(None);
    assert_eq!(selection.active_entity.as_ref().unwrap().id.index, 5);
    selection.select(Some(entity(6, vec![])));
    assert_eq!(selection.active_entity.as_ref().unwrap().id.index, 6);
}

fn scan(id: usize, type_data: Option<ReflectKind>, bytes: Vec<u8>) -> ComponentScan {
    ComponentScan {
        id,
        name: format!("component{}", id),
        type_data: type_data.map(|kind| ReflectTypeData { kind }),
        layout: ComponentLayout { size: bytes.len(), align: 1 },
        bytes,
    }
}

#[test]
fn parsing_keeps_components_with_type_data() {
    let scans = vec![
        EntityScan {
            id: EntityId { index: 3, generation: 2 },
            components: vec![
                scan(1, None, vec![1]),
                scan(2, Some(ReflectKind::Transform), vec![2, 2]),
                scan(4, Some(ReflectKind::ViewVisibility), vec![1]),
            ],
        },
        EntityScan { id: EntityId { index: 7, generation: 1 }, components: vec![scan(1, None, vec![])] },
    ];
    let metas = parse_world_entities_data(&scans, 99);
    assert_eq!(metas.len(), 2);
    assert_eq!(metas[0].id, EntityId { index: 3, generation: 2 });
    assert_eq!(ids(&metas[0]), vec![2, 4]);
    assert_eq!(metas[0].components[0].name, "component2");
    assert_eq!(metas[0].components[0].data, vec![2, 2]);
    assert_eq!(metas[0].components[1].reflect.kind, ReflectKind::ViewVisibility);
    assert!(metas[0].components.iter().all(|c| !c.is_removed));
    assert!(metas[1].components.is_empty());
}

#[test]
fn writes_cover_the_layout() {
    let mut c = component(8, "a", vec![1, 2, 3, 4], false);
    c.layout = ComponentLayout { size: 2, align: 2 };
    let meta = entity(0, vec![c, component(9, "b", vec![7], false)]);
    let writes = mutate_data(&meta);
    assert_eq!(writes.len(), 2);
    assert_eq!(writes[0].id, 8);
    assert_eq!(writes[0].bytes, vec![1, 2]);
    assert_eq!(writes[1].id, 9);
    assert_eq!(writes[1].bytes, vec![7]);
}
