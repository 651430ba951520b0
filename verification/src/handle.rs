//! Handles and dependency tokens through which passes address graph
//! resources. Handles are opaque, copyable indices; they carry no lifetime
//! and are resolved only through the store that issued them.

use core::marker::PhantomData;
use vstd::prelude::*;

verus! {

/// Identity of a graph resource as declared during graph construction.
///
/// Only `NamedTexture` and `OutputTexture` can be resolved as render
/// targets; handing any other kind to the render-target resolver is a
/// defect of the upstream graph compiler and is reported as an error.
pub enum GraphResource {
    /// A virtual texture known to the graph compiler under a name.
    NamedTexture(String),
    /// The frame's swapchain output, if one was acquired.
    OutputTexture,
    /// A shadow-map sub-region, addressed through the shadow resolver.
    Shadow(usize),
    /// An inter-pass payload slot, addressed through the slot store.
    Data(usize),
}

/// Handle to arbitrary graph-stored data.
///
/// The type parameter ties the handle to the payload type chosen when the
/// slot was declared, so a `DataHandle<u32>` cannot be used where a
/// `DataHandle<String>` is expected; at run time the handle is only an
/// index. Uniqueness of the index within one frame's handle namespace is
/// guaranteed by the graph-declaration stage, not by this crate.
pub struct DataHandle<T> {
    pub idx: usize,
    pub _phantom: PhantomData<T>,
}

impl<T> DataHandle<T> {
    /// Makes the handle for the slot at `idx`, as the graph-declaration
    /// stage does when a pass declares a data dependency.
    pub fn new(idx: usize) -> (h: Self)
        ensures
            h.idx == idx,
    {
        DataHandle { idx, _phantom: PhantomData }
    }
}

impl<T> Clone for DataHandle<T> {
    fn clone(&self) -> (c: Self)
        ensures
            c == *self,
    {
        DataHandle { idx: self.idx, _phantom: self._phantom }
    }
}

impl<T> Copy for DataHandle<T> {

}

impl<T> PartialEq for DataHandle<T> {
    fn eq(&self, other: &Self) -> (r: bool) {
        self.idx == other.idx
    }
}

impl<T> vstd::std_specs::cmp::PartialEqSpecImpl for DataHandle<T> {
    open spec fn obeys_eq_spec() -> bool {
        true
    }

    open spec fn eq_spec(&self, other: &Self) -> bool {
        self.idx == other.idx
    }
}

/// Handle to a render target: the resource identity the graph compiler
/// assigned to one declared render-target dependency.
pub struct RenderTargetHandle {
    pub resource: GraphResource,
}

/// Handle to one shadow map placement, indexing the store's list of
/// shadow coordinates.
pub struct ShadowTargetHandle {
    pub idx: usize,
}

/// A handle together with the authorization to resolve it.
///
/// Values of this type are produced by the graph-declaration stage when a
/// pass declares a dependency; holding one is the pass's proof that the
/// handle was legitimately declared for it. This crate only consumes them.
pub struct DeclaredDependency<H> {
    pub handle: H,
}

impl<H: Clone> Clone for DeclaredDependency<H> {
    fn clone(&self) -> Self {
        DeclaredDependency { handle: self.handle.clone() }
    }
}

impl<H: Copy> Copy for DeclaredDependency<H> {

}

} // verus!
