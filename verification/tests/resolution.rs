use graph_store::handle::DataHandle;
use graph_store::handle::DeclaredDependency;
use graph_store::handle::GraphResource;
use graph_store::handle::RenderTargetHandle;
use graph_store::handle::ShadowTargetHandle;
use graph_store::payload::TAG_TEXT;
use graph_store::payload::TAG_U32;
use graph_store::store::RenderGraphDataStore;
use graph_store::store::RpassTemporaryPool;
use graph_store::store::ShadowCoordinates;
use graph_store::store::StoreError;

fn rt_dep(resource: GraphResource) -> DeclaredDependency<RenderTargetHandle> {
    DeclaredDependency { handle: RenderTargetHandle { resource } }
}

fn shadow_dep(idx: usize) -> DeclaredDependency<ShadowTargetHandle> {
    DeclaredDependency { handle: ShadowTargetHandle { idx } }
}

fn named(name: &str) -> GraphResource {
    GraphResource::NamedTexture(String::from(name))
}

#[test]
fn named_texture_resolves_to_its_view() {
    let store: RenderGraphDataStore<u32, ()> = RenderGraphDataStore::new(
        vec![(String::from("depth"), 5u32)],
        Vec::new(),
        Vec::new(),
        Vec::new(),
        None,
        (),
    );
    assert_eq!(store.get_render_target(rt_dep(named("depth"))), Ok(&5u32));
    assert_eq!(
        store.get_render_target(rt_dep(named("color"))),
        Err(StoreError::MissingTexture)
    );
}

#[test]
fn unacquired_output_is_fatal() {
    let store: RenderGraphDataStore<u32, ()> = RenderGraphDataStore::new(
        vec![(String::from("depth"), 5u32)],
        Vec::new(),
        Vec::new(),
        Vec::new(),
        None,
        (),
    );
    assert_eq!(
        store.get_render_target(rt_dep(GraphResource::OutputTexture)),
        Err(StoreError::UnacquiredSurface)
    );
}

#[test]
fn acquired_output_resolves() {
    let store: RenderGraphDataStore<u32, ()> = RenderGraphDataStore::new(
        Vec::new(),
        Vec::new(),
        Vec::new(),
        Vec::new(),
        Some(7u32),
        (),
    );
    assert_eq!(store.get_render_target(rt_dep(GraphResource::OutputTexture)), Ok(&7u32));
}

#[test]
fn wrong_kind_is_fatal() {
    let store: RenderGraphDataStore<u32, ()> = RenderGraphDataStore::new(
        Vec::new(),
        Vec::new(),
        Vec::new(),
        Vec::new(),
        Some(7u32),
        (),
    );
    assert_eq!(
        store.get_render_target(rt_dep(GraphResource::Shadow(0))),
        Err(StoreError::WrongResourceKind)
    );
    assert_eq!(
        store.get_render_target(rt_dep(GraphResource::Data(1))),
        Err(StoreError::WrongResourceKind)
    );
}

#[test]
fn shadow_resolves_layer_and_rectangle() {
    let store: RenderGraphDataStore<u32, ()> = RenderGraphDataStore::new(
        Vec::new(),
        vec![ShadowCoordinates { layer: 2, offset: (4, 4), size: (8, 8) }],
        vec![10u32, 20u32, 30u32],
        Vec::new(),
        None,
        (),
    );
    let target = store.get_shadow(shadow_dep(0)).unwrap();
    assert_eq!(*target.view, 30u32);
    assert_eq!(target.offset, (4, 4));
    assert_eq!(target.size, (8, 8));
    assert_eq!(
        store.get_shadow(shadow_dep(1)).err(),
        Some(StoreError::MissingShadowCoordinate)
    );
}

#[test]
fn shadow_missing_layer_is_fatal() {
    let store: RenderGraphDataStore<u32, ()> = RenderGraphDataStore::new(
        Vec::new(),
        vec![ShadowCoordinates { layer: 5, offset: (0, 0), size: (1, 1) }],
        vec![10u32],
        Vec::new(),
        None,
        (),
    );
    assert_eq!(store.get_shadow(shadow_dep(0)).err(), Some(StoreError::MissingShadowLayer));
}

#[test]
fn frame_with_three_passes() {
    // One named render target, one shadow placement, two data handles: a
    // `u32` behind handle a and a `String` behind handle b. Values persist
    // across passes until explicitly cleared or overwritten.
    let mut store: RenderGraphDataStore<u32, ()> = RenderGraphDataStore::new(
        vec![(String::from("depth"), 5u32)],
        vec![ShadowCoordinates { layer: 0, offset: (0, 0), size: (16, 16) }],
        vec![9u32],
        vec![TAG_U32, TAG_TEXT],
        None,
        (),
    );
    let a = |idx: usize| DeclaredDependency { handle: DataHandle::<u32>::new(idx) };
    let b = |idx: usize| DeclaredDependency { handle: DataHandle::<String>::new(idx) };

    // Pass 1: produce the `u32` payload.
    let pool1 = RpassTemporaryPool::new();
    assert_eq!(store.set_data(a(0), Some(42u32)), Ok(()));
    store.release_borrows(pool1);

    // Pass 2: resolve the render target, read a, write b.
    let mut pool2 = RpassTemporaryPool::new();
    assert_eq!(store.get_render_target(rt_dep(named("depth"))), Ok(&5u32));
    let shadow = store.get_shadow(shadow_dep(0)).unwrap();
    assert_eq!(*shadow.view, 9u32);
    assert_eq!(store.get_data(&mut pool2, a(0)), Ok(Some(42u32)));
    assert_eq!(store.set_data(b(1), Some(String::from("x"))), Ok(()));
    store.release_borrows(pool2);

    // Pass 3: both values are still there.
    let mut pool3 = RpassTemporaryPool::new();
    assert_eq!(store.get_data(&mut pool3, b(1)), Ok(Some(String::from("x"))));
    assert_eq!(store.get_data(&mut pool3, a(0)), Ok(Some(42u32)));
    store.release_borrows(pool3);
}
