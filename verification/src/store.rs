//! The per-frame resource store handed to each pass.
//!
//! One store is built per frame from what the graph compiler decided: a
//! name-to-view mapping for render targets, shadow placements and atlas
//! views, one slot per declared data handle, and an optional output view.
//! Passes resolve their declared dependencies through it and exchange
//! payloads through the slot array.
//!
//! The store is generic over the view type `V` (a backend image view; the
//! store never looks inside one) and over `M`, the bundle of long-lived
//! subsystem managers it exposes to passes unmodified.

use vstd::prelude::*;

use crate::handle::{
    DataHandle, DeclaredDependency, GraphResource, RenderTargetHandle, ShadowTargetHandle,
};
use crate::payload::{SlotPayload, SlotValue};

verus! {

/// Why a store operation failed.
///
/// All variants but `BorrowConflict` report a violated invariant of the
/// upstream graph compiler or scheduler: they cannot occur when the
/// upstream stages are correct, and they abort the current frame rather
/// than the process. `BorrowConflict` is the one caller-detectable usage
/// error: a write to a slot whose previous value is still being read.
#[derive(Clone, Copy, Debug, PartialEq, Eq, Structural)]
pub enum StoreError {
    /// A named render target is missing from the frame's mapping.
    MissingTexture,
    /// The output texture was requested but none was acquired this frame.
    UnacquiredSurface,
    /// A resource of a kind that is not resolvable as a render target.
    WrongResourceKind,
    /// A shadow handle with no shadow coordinate behind it.
    MissingShadowCoordinate,
    /// A shadow coordinate whose layer has no atlas view.
    MissingShadowLayer,
    /// A data handle with no slot behind it.
    MissingSlot,
    /// A slot addressed through a handle of a different payload type.
    TypeMismatch,
    /// A write to the slot at this index while a read taken from it is
    /// still outstanding.
    BorrowConflict(usize),
}

/// Placement of one shadow map within the shared shadow atlas: the atlas
/// layer, and the sub-rectangle's offset and size on it.
#[derive(Clone, Copy)]
pub struct ShadowCoordinates {
    pub layer: usize,
    pub offset: (u32, u32),
    pub size: (u32, u32),
}

/// A resolved shadow dependency: the atlas view of the placement's layer
/// together with the sub-rectangle to render into.
pub struct ShadowTarget<'a, V> {
    pub view: &'a V,
    pub offset: (u32, u32),
    pub size: (u32, u32),
}

/// One entry of the slot array: the tag of the payload type the slot was
/// declared with, its current value, and how many reads taken from it are
/// still outstanding.
pub struct DataSlot {
    pub tag: u8,
    pub value: Option<SlotValue>,
    pub reads: usize,
}

/// Extends the lifetime of read borrows to a whole pass.
///
/// Passes need what they read from a slot to stay readable for the rest of
/// their body, while writes to that slot must keep failing. One pool is
/// owned by the executor per pass; every read a pass takes is recorded in
/// it, and all of them are released together when the pass completes, by
/// handing the pool back to [`RenderGraphDataStore::release_borrows`].
/// There is no individual release operation.
pub struct RpassTemporaryPool {
    entries: Vec<usize>,
}

impl View for RpassTemporaryPool {
    type V = Seq<usize>;

    closed spec fn view(&self) -> Seq<usize> {
        self.entries@
    }
}

impl RpassTemporaryPool {
    /// Makes the empty pool the executor hands to one pass.
    pub fn new() -> (p: Self)
        ensures
            p@ == Seq::<usize>::empty(),
    {
        RpassTemporaryPool { entries: Vec::new() }
    }

    /// Records one read taken from the slot at `idx`, keeping it
    /// outstanding until the pool is released.
    pub fn add(&mut self, idx: usize)
        ensures
            final(self)@ == old(self)@.push(idx),
    {
        self.entries.push(idx);
    }

    /// How many reads the pool is keeping outstanding.
    pub fn len(&self) -> (n: usize)
        ensures
            n == self@.len(),
    {
        self.entries.len()
    }
}

/// The store's mathematical content: the frame's mappings, the slot array,
/// and the optional output view.
pub struct StoreModel<V, M> {
    pub textures: Seq<(String, V)>,
    pub shadow_coordinates: Seq<ShadowCoordinates>,
    pub shadow_views: Seq<V>,
    pub slots: Seq<DataSlot>,
    pub output: Option<V>,
    pub managers: M,
}

/// First view paired with `name` in `textures` at or after `i`.
pub open spec fn tex_lookup_from<V>(textures: Seq<(String, V)>, name: Seq<char>, i: int) -> Option<V>
    decreases textures.len() - i,
{
    if i < 0 || i >= textures.len() {
        None
    } else if textures[i].0@ == name {
        Some(textures[i].1)
    } else {
        tex_lookup_from(textures, name, i + 1)
    }
}

/// The view the frame's mapping assigns to `name`, if any.
pub open spec fn tex_lookup<V>(textures: Seq<(String, V)>, name: Seq<char>) -> Option<V> {
    tex_lookup_from(textures, name, 0)
}

/// The stored form of what a write puts into a slot.
pub open spec fn stored_form<T: SlotPayload>(data: Option<T>) -> Option<SlotValue> {
    match data {
        Some(v) => Some(v.wrap_spec()),
        None => None,
    }
}

/// The slot array after a write of `w` to the slot at `i`.
pub open spec fn slots_after_set(slots: Seq<DataSlot>, i: int, w: Option<SlotValue>) -> Seq<DataSlot> {
    slots.update(i, DataSlot { value: w, ..slots[i] })
}

/// The slot array after a read is taken from the slot at `i`.
pub open spec fn slots_after_read(slots: Seq<DataSlot>, i: int) -> Seq<DataSlot> {
    slots.update(i, DataSlot { reads: (slots[i].reads + 1) as usize, ..slots[i] })
}

/// What a read of the slot at `i` observes.
pub open spec fn slot_read(slots: Seq<DataSlot>, i: int) -> Option<SlotValue> {
    slots[i].value
}

/// Provides read-only access to the frame's managers and resolves declared
/// dependencies into graph resources.
pub struct RenderGraphDataStore<V, M> {
    texture_mapping: Vec<(String, V)>,
    shadow_coordinates: Vec<ShadowCoordinates>,
    shadow_views: Vec<V>,
    data: Vec<DataSlot>,
    output: Option<V>,
    /// The long-lived subsystem managers (camera, lights, materials,
    /// meshes, skeletons, objects, textures), exposed to passes
    /// unmodified; the store never reads them.
    pub managers: M,
}

impl<V, M> View for RenderGraphDataStore<V, M> {
    type V = StoreModel<V, M>;

    closed spec fn view(&self) -> StoreModel<V, M> {
        StoreModel {
            textures: self.texture_mapping@,
            shadow_coordinates: self.shadow_coordinates@,
            shadow_views: self.shadow_views@,
            slots: self.data@,
            output: self.output,
            managers: self.managers,
        }
    }
}

impl<V, M> RenderGraphDataStore<V, M> {
    /// Builds the store for one frame from what the graph compiler
    /// decided: the render-target mapping, the shadow placements and atlas
    /// views, one slot per declared data handle (each with the tag of its
    /// declared payload type), and the output view if one was acquired.
    /// Every slot starts empty with no outstanding read.
    pub fn new(
        texture_mapping: Vec<(String, V)>,
        shadow_coordinates: Vec<ShadowCoordinates>,
        shadow_views: Vec<V>,
        slot_tags: Vec<u8>,
        output: Option<V>,
        managers: M,
    ) -> (store: Self)
        ensures
            store@.textures == texture_mapping@,
            store@.shadow_coordinates == shadow_coordinates@,
            store@.shadow_views == shadow_views@,
            store@.output == output,
            store@.managers == managers,
            store@.slots.len() == slot_tags@.len(),
            forall|i: int|
                0 <= i < slot_tags@.len() ==> store@.slots[i] == (DataSlot {
                    tag: slot_tags@[i],
                    value: None,
                    reads: 0,
                }),
    {
        let mut data: Vec<DataSlot> = Vec::new();
        let mut k: usize = 0;
        while k < slot_tags.len()
            invariant
                k <= slot_tags@.len(),
                data@.len() == k,
                forall|i: int|
                    0 <= i < k ==> data@[i] == (DataSlot {
                        tag: slot_tags@[i],
                        value: None,
                        reads: 0,
                    }),
            decreases slot_tags@.len() - k,
        {
            data.push(DataSlot { tag: slot_tags[k], value: None, reads: 0 });
            k = k + 1;
        }
        RenderGraphDataStore { texture_mapping, shadow_coordinates, shadow_views, data, output, managers }
    }

    /// Gets a rendertarget from the handle to one.
    ///
    /// A dependency on a named texture resolves to the view the frame's
    /// mapping assigns to that name; a dependency on the output texture
    /// resolves to the frame's output view. A missing name, an unacquired
    /// output, and every other resource kind are defects of the upstream
    /// graph compiler, reported as the matching error.
    #[verifier::loop_isolation(false)]
    pub fn get_render_target(&self, dep: DeclaredDependency<RenderTargetHandle>) -> (r: Result<
        &V,
        StoreError,
    >)
        ensures
            match dep.handle.resource {
                GraphResource::NamedTexture(name) => match r {
                    Ok(v) => tex_lookup(self@.textures, name@) == Some(*v),
                    Err(e) => e == StoreError::MissingTexture && tex_lookup(
                        self@.textures,
                        name@,
                    ) is None,
                },
                GraphResource::OutputTexture => match r {
                    Ok(v) => self@.output == Some(*v),
                    Err(e) => e == StoreError::UnacquiredSurface && self@.output is None,
                },
                _ => r matches Err(e) && e == StoreError::WrongResourceKind,
            },
    {
        match &dep.handle.resource {
            GraphResource::NamedTexture(name) => {
                let n = self.texture_mapping.len();
                let mut k: usize = 0;
                while k < n
                    invariant
                        k <= n,
                        n == self.texture_mapping@.len(),
                        tex_lookup(self@.textures, name@) == tex_lookup_from(
                            self@.textures,
                            name@,
                            k as int,
                        ),
                    decreases n - k,
                {
                    if self.texture_mapping[k].0 == *name {
                        return Ok(&self.texture_mapping[k].1);
                    }
                    k = k + 1;
                }
                Err(StoreError::MissingTexture)
            },
            GraphResource::OutputTexture => match &self.output {
                Some(v) => Ok(v),
                None => Err(StoreError::UnacquiredSurface),
            },
            _ => Err(StoreError::WrongResourceKind),
        }
    }

    /// Gets a shadow description from a handle to one.
    ///
    /// The handle indexes the frame's shadow placements; the placement's
    /// layer indexes the atlas views. A handle with no placement behind
    /// it, or a placement whose layer has no view, is a defect of the
    /// upstream graph compiler, reported as the matching error.
    pub fn get_shadow<'a>(&'a self, dep: DeclaredDependency<ShadowTargetHandle>) -> (r: Result<
        ShadowTarget<'a, V>,
        StoreError,
    >)
        ensures
            ({
                let i = dep.handle.idx as int;
                if i >= self@.shadow_coordinates.len() {
                    r matches Err(e) && e == StoreError::MissingShadowCoordinate
                } else if self@.shadow_coordinates[i].layer >= self@.shadow_views.len() {
                    r matches Err(e) && e == StoreError::MissingShadowLayer
                } else {
                    r matches Ok(t) && *t.view == self@.shadow_views[
                        self@.shadow_coordinates[i].layer as int
                    ] && t.offset == self@.shadow_coordinates[i].offset && t.size
                        == self@.shadow_coordinates[i].size
                }
            }),
    {
        let i = dep.handle.idx;
        if i >= self.shadow_coordinates.len() {
            return Err(StoreError::MissingShadowCoordinate);
        }
        let coords = self.shadow_coordinates[i];
        if coords.layer >= self.shadow_views.len() {
            return Err(StoreError::MissingShadowLayer);
        }
        Ok(ShadowTarget { view: &self.shadow_views[coords.layer], offset: coords.offset, size: coords.size })
    }

    /// Sets the custom data behind a data handle.
    ///
    /// Succeeds exactly when the handle has a slot behind it, the slot was
    /// declared with `T`, and no read taken from the slot is still
    /// outstanding; the slot then holds `data` and nothing else changes.
    /// On any failure the store is untouched: a write to a slot whose
    /// previous value is still being read reports a borrow conflict naming
    /// the slot, and never replaces the value being read.
    pub fn set_data<T: SlotPayload>(
        &mut self,
        dep: DeclaredDependency<DataHandle<T>>,
        data: Option<T>,
    ) -> (r: Result<(), StoreError>)
        ensures
            ({
                let i = dep.handle.idx as int;
                let slots = old(self)@.slots;
                &&& (r is Ok <==> i < slots.len() && slots[i].tag == T::tag_spec()
                    && slots[i].reads == 0)
                &&& (r is Ok ==> final(self)@ == (StoreModel {
                    slots: slots_after_set(slots, i, stored_form(data)),
                    ..old(self)@
                }))
                &&& (r is Err ==> *final(self) == *old(self))
                &&& (r matches Err(e) ==> match e {
                    StoreError::MissingSlot => i >= slots.len(),
                    StoreError::TypeMismatch => i < slots.len() && slots[i].tag != T::tag_spec(),
                    StoreError::BorrowConflict(h) => h == dep.handle.idx && i < slots.len()
                        && slots[i].tag == T::tag_spec() && slots[i].reads > 0,
                    _ => false,
                })
            }),
    {
        let i = dep.handle.idx;
        if i >= self.data.len() {
            return Err(StoreError::MissingSlot);
        }
        let t = T::tag();
        if self.data[i].tag != t {
            return Err(StoreError::TypeMismatch);
        }
        if self.data[i].reads != 0 {
            return Err(StoreError::BorrowConflict(i));
        }
        let tag = self.data[i].tag;
        let w = match data {
            Some(v) => Some(v.wrap()),
            None => None,
        };
        self.data[i] = DataSlot { tag, value: w, reads: 0 };
        Ok(())
    }

    /// Gets the custom data behind a data handle. If it has not been set,
    /// or set to `None`, this returns `Ok(None)` and takes no read.
    ///
    /// When the slot holds a value, the read stays outstanding — recorded
    /// both in the slot's read count and in the pass's pool — so that a
    /// write to the slot keeps failing until the pool is released at the
    /// end of the pass. Reads are reentrant: further reads of the same
    /// slot succeed. A handle with no slot behind it, a slot declared with
    /// a different payload type, and a stored value that is not one of
    /// `T`'s stored forms are defects of the upstream stages, reported as
    /// the matching error, and take no read either.
    pub fn get_data<T: SlotPayload>(
        &mut self,
        temps: &mut RpassTemporaryPool,
        dep: DeclaredDependency<DataHandle<T>>,
    ) -> (r: Result<Option<T>, StoreError>)
        requires
            dep.handle.idx < old(self)@.slots.len() ==> old(self)@.slots[
                dep.handle.idx as int
            ].reads < usize::MAX,
        ensures
            ({
                let i = dep.handle.idx as int;
                let slots = old(self)@.slots;
                if i >= slots.len() {
                    &&& r matches Err(e) && e == StoreError::MissingSlot
                    &&& *final(self) == *old(self)
                    &&& *final(temps) == *old(temps)
                } else if slots[i].tag != T::tag_spec() {
                    &&& r matches Err(e) && e == StoreError::TypeMismatch
                    &&& *final(self) == *old(self)
                    &&& *final(temps) == *old(temps)
                } else {
                    match slot_read(slots, i) {
                        None => {
                            &&& r matches Ok(o) && o is None
                            &&& *final(self) == *old(self)
                            &&& *final(temps) == *old(temps)
                        },
                        Some(w) => match r {
                            Ok(o) => {
                                &&& o matches Some(x) && x.wrap_spec() == w
                                &&& final(self)@ == (StoreModel {
                                    slots: slots_after_read(slots, i),
                                    ..old(self)@
                                })
                                &&& final(temps)@ == old(temps)@.push(dep.handle.idx)
                            },
                            Err(e) => {
                                &&& e == StoreError::TypeMismatch
                                &&& forall|x: T| x.wrap_spec() != w
                                &&& *final(self) == *old(self)
                                &&& *final(temps) == *old(temps)
                            },
                        },
                    }
                }
            }),
    {
        let i = dep.handle.idx;
        if i >= self.data.len() {
            return Err(StoreError::MissingSlot);
        }
        let t = T::tag();
        if self.data[i].tag != t {
            return Err(StoreError::TypeMismatch);
        }
        if self.data[i].value.is_none() {
            return Ok(None);
        }
        let x_opt = match &self.data[i].value {
            Some(w) => T::unwrap_value(w),
            None => None,
        };
        match x_opt {
            None => Err(StoreError::TypeMismatch),
            Some(x) => {
                let reads = self.data[i].reads;
                self.data[i].reads = reads + 1;
                temps.add(i);
                Ok(Some(x))
            },
        }
    }

    /// How many reads taken from the slot at `idx` are still outstanding,
    /// or `None` when no slot is there. An executor can consult this
    /// before reading on behalf of a pass.
    pub fn outstanding_reads(&self, idx: usize) -> (r: Option<usize>)
        ensures
            match r {
                Some(n) => idx < self@.slots.len() && n == self@.slots[idx as int].reads,
                None => idx >= self@.slots.len(),
            },
    {
        if idx < self.data.len() {
            Some(self.data[idx].reads)
        } else {
            None
        }
    }

    /// Releases every read borrow at the end of a pass.
    ///
    /// Consumes the pass's pool — the values read through it go out of use
    /// with it — and clears every slot's outstanding reads; values and
    /// tags are untouched. The executor calls this once per pass, with the
    /// one pool it handed that pass.
    #[allow(unused_variables)]
    pub fn release_borrows(&mut self, temps: RpassTemporaryPool)
        ensures
            final(self)@.slots.len() == old(self)@.slots.len(),
            forall|i: int|
                0 <= i < old(self)@.slots.len() ==> final(self)@.slots[i] == (DataSlot {
                    reads: 0,
                    ..old(self)@.slots[i]
                }),
            final(self)@.textures == old(self)@.textures,
            final(self)@.shadow_coordinates == old(self)@.shadow_coordinates,
            final(self)@.shadow_views == old(self)@.shadow_views,
            final(self)@.output == old(self)@.output,
            final(self)@.managers == old(self)@.managers,
    {
        let n = self.data.len();
        let mut k: usize = 0;
        while k < n
            invariant
                k <= n,
                n == self.data@.len(),
                self.data@.len() == old(self).data@.len(),
                forall|i: int|
                    0 <= i < k ==> self.data@[i] == (DataSlot {
                        reads: 0,
                        ..old(self).data@[i]
                    }),
                forall|i: int| k <= i < n ==> self.data@[i] == old(self).data@[i],
                self.texture_mapping == old(self).texture_mapping,
                self.shadow_coordinates == old(self).shadow_coordinates,
                self.shadow_views == old(self).shadow_views,
                self.output == old(self).output,
                self.managers == old(self).managers,
            decreases n - k,
        {
            self.data[k].reads = 0;
            k = k + 1;
        }
    }
}

} // verus!
