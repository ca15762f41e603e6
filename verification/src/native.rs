//! A model of the native library: the state that its calls act on, and the
//! protocol that a caller has to keep.
//!
//! Nothing here runs. The model is what the laws of this crate are stated
//! against: that the calls which an operation asks for are calls that the
//! native library allows in the state it is in, and that they leave it in the
//! state which the operation's own result describes.

use crate::ffi::{InCameraPtr, InPuppetPtr, NativeCall, Scalar};
use vstd::prelude::*;

verus! {

/// The state of the native library, as far as its calls depend on it.
pub struct NativeModel {
    /// Whether the library is initialised.
    pub initialized: bool,
    /// The viewport size, width first.
    pub viewport: (i32, i32),
    /// Whether a scene bracket is open: a begin without its end.
    pub scene_open: bool,
    /// The puppets that are loaded and not yet released.
    pub puppets: Set<InPuppetPtr>,
    /// The handle of the current camera.
    pub camera: InCameraPtr,
    /// Whether the current camera is yet to be released.
    pub camera_live: bool,
    /// The zoom of the current camera.
    pub zoom: Scalar,
    /// The position of the current camera.
    pub position: (Scalar, Scalar),
}

impl NativeModel {
    /// Whether the native library allows `call` in this state.
    ///
    /// Initialisation comes once; everything else needs it. Cleanup needs
    /// every puppet released. A puppet is only used or released while it is
    /// loaded, and only drawn inside the scene bracket. The bracket is opened
    /// when closed and closed when open, and the scene is drawn into a region
    /// while it is closed. The camera is only used or released while it is
    /// live, through its own handle.
    pub open spec fn allows(self, call: NativeCall) -> bool {
        match call {
            NativeCall::Init { .. } => !self.initialized,
            NativeCall::Cleanup => self.initialized && self.puppets =~= Set::empty(),
            NativeCall::ViewportSet { .. } => self.initialized,
            NativeCall::SceneBegin => self.initialized && !self.scene_open,
            NativeCall::SceneEnd => self.initialized && self.scene_open,
            NativeCall::SceneDraw { .. } => self.initialized && !self.scene_open,
            NativeCall::CameraDestroy { camera } => self.uses_camera(camera),
            NativeCall::CameraSetPosition { camera, .. } => self.uses_camera(camera),
            NativeCall::CameraSetZoom { camera, .. } => self.uses_camera(camera),
            NativeCall::PuppetDestroy { puppet } => self.uses_puppet(puppet),
            NativeCall::PuppetUpdate { puppet } => self.uses_puppet(puppet),
            NativeCall::PuppetDraw { puppet } => self.uses_puppet(puppet) && self.scene_open,
        }
    }

    /// Whether `camera` is the live current camera of the initialised library.
    pub open spec fn uses_camera(self, camera: InCameraPtr) -> bool {
        self.initialized && self.camera_live && camera == self.camera
    }

    /// Whether `puppet` is a loaded puppet of the initialised library.
    pub open spec fn uses_puppet(self, puppet: InPuppetPtr) -> bool {
        self.initialized && self.puppets.contains(puppet)
    }

    /// The state after `call`.
    pub open spec fn step(self, call: NativeCall) -> NativeModel {
        match call {
            NativeCall::Init { .. } => NativeModel { initialized: true, ..self },
            NativeCall::Cleanup => NativeModel { initialized: false, ..self },
            NativeCall::ViewportSet { width, height } => NativeModel {
                viewport: (width, height),
                ..self
            },
            NativeCall::SceneBegin => NativeModel { scene_open: true, ..self },
            NativeCall::SceneEnd => NativeModel { scene_open: false, ..self },
            NativeCall::SceneDraw { .. } => self,
            NativeCall::CameraDestroy { .. } => NativeModel { camera_live: false, ..self },
            NativeCall::CameraSetPosition { x, y, .. } => NativeModel { position: (x, y), ..self },
            NativeCall::CameraSetZoom { zoom, .. } => NativeModel { zoom, ..self },
            NativeCall::PuppetDestroy { puppet } => NativeModel {
                puppets: self.puppets.remove(puppet),
                ..self
            },
            NativeCall::PuppetUpdate { .. } => self,
            NativeCall::PuppetDraw { .. } => self,
        }
    }

    /// The state after the native loader returned `handle`: a handle other
    /// than null is a puppet that is now loaded.
    pub open spec fn loaded(self, handle: InPuppetPtr) -> NativeModel {
        if handle.is_null() {
            self
        } else {
            NativeModel { puppets: self.puppets.insert(handle), ..self }
        }
    }

    /// The state after `calls`, made in order.
    pub open spec fn run(self, calls: Seq<NativeCall>) -> NativeModel
        decreases calls.len(),
    {
        if calls.len() == 0 {
            self
        } else {
            self.run(calls.drop_last()).step(calls.last())
        }
    }

    /// Whether the native library allows each of `calls` in the state that the
    /// calls before it leave.
    pub open spec fn allows_all(self, calls: Seq<NativeCall>) -> bool
        decreases calls.len(),
    {
        calls.len() == 0 || (self.allows_all(calls.drop_last()) && self.run(
            calls.drop_last(),
        ).allows(calls.last()))
    }
}

/// Running one more call is one more step.
pub proof fn lemma_run_push(model: NativeModel, calls: Seq<NativeCall>, call: NativeCall)
    ensures
        model.run(calls.push(call)) == model.run(calls).step(call),
        model.allows_all(calls.push(call)) == (model.allows_all(calls) && model.run(calls).allows(
            call,
        )),
{
    assert(calls.push(call).drop_last() =~= calls);
}

/// Running two sequences one after the other is running the first and then,
/// from where it ends, the second.
pub proof fn lemma_run_concat(model: NativeModel, first: Seq<NativeCall>, second: Seq<NativeCall>)
    ensures
        model.run(first + second) == model.run(first).run(second),
        model.allows_all(first + second) == (model.allows_all(first) && model.run(
            first,
        ).allows_all(second)),
    decreases second.len(),
{
    if second.len() == 0 {
        assert(first + second =~= first);
    } else {
        lemma_run_concat(model, first, second.drop_last());
        assert((first + second).drop_last() =~= first + second.drop_last());
        assert((first + second).last() == second.last());
    }
}

/// Calls that are each allowed in a state and each leave it as it is, are
/// allowed one after the other and leave it as it is.
pub proof fn lemma_run_neutral(model: NativeModel, calls: Seq<NativeCall>)
    requires
        forall|i: int|
            0 <= i < calls.len() ==> model.allows(#[trigger] calls[i]) && model.step(calls[i])
                == model,
    ensures
        model.allows_all(calls),
        model.run(calls) == model,
    decreases calls.len(),
{
    if calls.len() > 0 {
        lemma_run_neutral(model, calls.drop_last());
        assert(model.allows(calls[calls.len() - 1]));
    }
}

/// The viewport stays as it is over calls of which none sets it.
pub proof fn lemma_viewport_kept(model: NativeModel, calls: Seq<NativeCall>)
    requires
        forall|i: int| 0 <= i < calls.len() ==> !(calls[i] is ViewportSet),
    ensures
        model.run(calls).viewport == model.viewport,
    decreases calls.len(),
{
    if calls.len() > 0 {
        lemma_viewport_kept(model, calls.drop_last());
    }
}

} // verus!
