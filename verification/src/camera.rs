//! The native library's current camera, with a local mirror of its state.

use crate::ffi::{InCameraPtr, NativeCall, Scalar};
use crate::native::{lemma_run_push, NativeModel};
use vstd::prelude::*;

verus! {

/// What the host read from the native library's current camera: its handle,
/// its zoom and its position.
#[derive(Clone, Copy, Debug, PartialEq, Eq, Structural)]
pub struct CameraReading {
    pub handle: InCameraPtr,
    pub zoom: Scalar,
    pub x: Scalar,
    pub y: Scalar,
}

/// The owner of the native library's current camera.
///
/// The native library has one current camera, so only one value of this type
/// may be live at a time: a second one would hold the same handle, and
/// releasing either would release the camera under the other. The zoom and the
/// position kept here mirror the native state as of the last call that set or
/// read them; the native state is the authority, and every getter takes a
/// fresh reading of it.
#[derive(Debug)]
pub struct Inochi2DCamera {
    handle: InCameraPtr,
    zoom: Scalar,
    x: Scalar,
    y: Scalar,
}

/// What a camera is: its handle and the mirrored zoom and position.
pub struct CameraView {
    pub handle: InCameraPtr,
    pub zoom: Scalar,
    pub x: Scalar,
    pub y: Scalar,
}

impl View for Inochi2DCamera {
    type V = CameraView;

    closed spec fn view(&self) -> CameraView {
        CameraView { handle: self.handle, zoom: self.zoom, x: self.x, y: self.y }
    }
}

/// The value to use for a field of a new camera: the one asked for, or else
/// the one that the native camera has.
pub open spec fn chosen(asked: Option<Scalar>, native: Scalar) -> Scalar {
    match asked {
        Some(value) => value,
        None => native,
    }
}

impl Inochi2DCamera {
    /// Binds to the current camera and sets the zoom and the position asked
    /// for.
    ///
    /// `current` is a reading of the current camera taken just before. A field
    /// that is not asked for keeps the value that the native camera has, so the
    /// two calls, zoom first and position second, change nothing that the
    /// caller left out. No other camera may be live.
    pub fn new(
        zoom: Option<Scalar>,
        x: Option<Scalar>,
        y: Option<Scalar>,
        current: CameraReading,
    ) -> (made: (Self, Vec<NativeCall>))
        ensures
            made.0@ == (CameraView {
                handle: current.handle,
                zoom: chosen(zoom, current.zoom),
                x: chosen(x, current.x),
                y: chosen(y, current.y),
            }),
            made.1@ == seq![
                NativeCall::CameraSetZoom {
                    camera: current.handle,
                    zoom: chosen(zoom, current.zoom),
                },
                NativeCall::CameraSetPosition {
                    camera: current.handle,
                    x: chosen(x, current.x),
                    y: chosen(y, current.y),
                },
            ],
    {
        let cam_zoom = match zoom {
            Some(value) => value,
            None => current.zoom,
        };
        let cam_x = match x {
            Some(value) => value,
            None => current.x,
        };
        let cam_y = match y {
            Some(value) => value,
            None => current.y,
        };
        let mut calls: Vec<NativeCall> = Vec::new();
        calls.push(NativeCall::CameraSetZoom { camera: current.handle, zoom: cam_zoom });
        calls.push(NativeCall::CameraSetPosition { camera: current.handle, x: cam_x, y: cam_y });
        assert(calls@ =~= seq![
            NativeCall::CameraSetZoom { camera: current.handle, zoom: cam_zoom },
            NativeCall::CameraSetPosition { camera: current.handle, x: cam_x, y: cam_y },
        ]);
        (Inochi2DCamera { handle: current.handle, zoom: cam_zoom, x: cam_x, y: cam_y }, calls)
    }

    /// The native handle.
    pub fn handle(&self) -> (handle: InCameraPtr)
        ensures
            handle == self@.handle,
    {
        self.handle
    }

    /// The zoom as of the last call that set or read it.
    pub fn cached_zoom(&self) -> (zoom: Scalar)
        ensures
            zoom == self@.zoom,
    {
        self.zoom
    }

    /// The position as of the last call that set or read it.
    pub fn cached_pos(&self) -> (pos: (Scalar, Scalar))
        ensures
            pos == (self@.x, self@.y),
    {
        (self.x, self.y)
    }

    /// Sets the zoom, natively and in the mirror.
    pub fn set_zoom(&mut self, zoom: Scalar) -> (call: NativeCall)
        ensures
            call == (NativeCall::CameraSetZoom { camera: old(self)@.handle, zoom }),
            final(self)@ == (CameraView { zoom, ..old(self)@ }),
    {
        self.zoom = zoom;
        NativeCall::CameraSetZoom { camera: self.handle, zoom }
    }

    /// The zoom. `native` is a fresh reading of the native zoom; it is
    /// returned as it is, and the mirror takes it over.
    pub fn get_zoom(&mut self, native: Scalar) -> (zoom: Scalar)
        ensures
            zoom == native,
            final(self)@ == (CameraView { zoom: native, ..old(self)@ }),
    {
        self.zoom = native;
        native
    }

    /// Moves the camera, natively and in the mirror.
    pub fn set_pos(&mut self, x: Scalar, y: Scalar) -> (call: NativeCall)
        ensures
            call == (NativeCall::CameraSetPosition { camera: old(self)@.handle, x, y }),
            final(self)@ == (CameraView { x, y, ..old(self)@ }),
    {
        self.x = x;
        self.y = y;
        NativeCall::CameraSetPosition { camera: self.handle, x, y }
    }

    /// The position. `native` is a fresh reading of the native position; it is
    /// returned as it is, and the mirror takes it over.
    pub fn get_pos(&mut self, native: (Scalar, Scalar)) -> (pos: (Scalar, Scalar))
        ensures
            pos == native,
            final(self)@ == (CameraView { x: native.0, y: native.1, ..old(self)@ }),
    {
        self.x = native.0;
        self.y = native.1;
        native
    }

    /// The camera's centre offset: the fresh native reading, as it is. The
    /// mirror holds no offset and stays as it was.
    pub fn get_offset(&mut self, native: (Scalar, Scalar)) -> (offset: (Scalar, Scalar))
        ensures
            offset == native,
            final(self)@ == old(self)@,
    {
        native
    }

    /// The camera's real size: the fresh native reading, as it is. The mirror
    /// holds no size and stays as it was.
    pub fn get_real_size(&mut self, native: (Scalar, Scalar)) -> (size: (Scalar, Scalar))
        ensures
            size == native,
            final(self)@ == old(self)@,
    {
        native
    }

    /// The camera's transform: the sixteen numbers of the fresh native
    /// reading, each with its exact bits and in the native order.
    pub fn get_matrix(&mut self, native: [Scalar; 16]) -> (matrix: [Scalar; 16])
        ensures
            matrix@ == native@,
            final(self)@ == old(self)@,
    {
        native
    }

    /// Gives the camera up. The value is consumed, so the handle is released
    /// once and never used again.
    pub fn release(self) -> (call: NativeCall)
        ensures
            call == (NativeCall::CameraDestroy { camera: self@.handle }),
    {
        NativeCall::CameraDestroy { camera: self.handle }
    }
}

/// A reading of the current camera in the given native state.
pub open spec fn reading_of(model: NativeModel) -> CameraReading {
    CameraReading {
        handle: model.camera,
        zoom: model.zoom,
        x: model.position.0,
        y: model.position.1,
    }
}

impl CameraView {
    /// Whether this camera holds the live current camera of `model`, and its
    /// mirror holds what the native camera holds.
    pub open spec fn mirrors(self, model: NativeModel) -> bool {
        &&& model.uses_camera(self.handle)
        &&& self.zoom == model.zoom
        &&& self.x == model.position.0
        &&& self.y == model.position.1
    }
}

/// The zoom stays as it is over calls of which none sets it.
pub proof fn lemma_zoom_kept(model: NativeModel, calls: Seq<NativeCall>)
    requires
        forall|i: int| 0 <= i < calls.len() ==> !(calls[i] is CameraSetZoom),
    ensures
        model.run(calls).zoom == model.zoom,
    decreases calls.len(),
{
    if calls.len() > 0 {
        lemma_zoom_kept(model, calls.drop_last());
    }
}

/// The position stays as it is over calls of which none sets it.
pub proof fn lemma_position_kept(model: NativeModel, calls: Seq<NativeCall>)
    requires
        forall|i: int| 0 <= i < calls.len() ==> !(calls[i] is CameraSetPosition),
    ensures
        model.run(calls).position == model.position,
    decreases calls.len(),
{
    if calls.len() > 0 {
        lemma_position_kept(model, calls.drop_last());
    }
}

/// A zoom that was set is the zoom that is read back, bit for bit, as long as
/// no call in between sets the zoom again: the call that `set_zoom` asks for is
/// allowed, and after it and after `others` the native zoom, which is what
/// `get_zoom` returns, is the value written.
pub proof fn lemma_zoom_round_trip(
    camera: CameraView,
    model: NativeModel,
    zoom: Scalar,
    others: Seq<NativeCall>,
)
    requires
        model.uses_camera(camera.handle),
        forall|i: int| 0 <= i < others.len() ==> !(others[i] is CameraSetZoom),
    ensures
        model.allows(NativeCall::CameraSetZoom { camera: camera.handle, zoom }),
        model.step(NativeCall::CameraSetZoom { camera: camera.handle, zoom }).run(others).zoom
            == zoom,
        (CameraView { zoom, ..camera }).zoom == model.step(
            NativeCall::CameraSetZoom { camera: camera.handle, zoom },
        ).run(others).zoom,
{
    lemma_zoom_kept(model.step(NativeCall::CameraSetZoom { camera: camera.handle, zoom }), others);
}

/// A position that was set is the position that is read back, bit for bit, as
/// long as no call in between sets the position again.
pub proof fn lemma_position_round_trip(
    camera: CameraView,
    model: NativeModel,
    x: Scalar,
    y: Scalar,
    others: Seq<NativeCall>,
)
    requires
        model.uses_camera(camera.handle),
        forall|i: int| 0 <= i < others.len() ==> !(others[i] is CameraSetPosition),
    ensures
        model.allows(NativeCall::CameraSetPosition { camera: camera.handle, x, y }),
        model.step(NativeCall::CameraSetPosition { camera: camera.handle, x, y }).run(
            others,
        ).position == (x, y),
{
    lemma_position_kept(
        model.step(NativeCall::CameraSetPosition { camera: camera.handle, x, y }),
        others,
    );
}

/// A new camera changes nothing that was not asked for. Made from a reading
/// of the live current camera, its two calls are allowed, the native zoom and
/// position are afterwards the ones asked for, or else the ones they were, and
/// the new camera's mirror holds them.
pub proof fn lemma_new_camera_keeps_the_rest(
    model: NativeModel,
    zoom: Option<Scalar>,
    x: Option<Scalar>,
    y: Option<Scalar>,
)
    requires
        model.initialized,
        model.camera_live,
    ensures
        ({
            let current = reading_of(model);
            let camera = CameraView {
                handle: current.handle,
                zoom: chosen(zoom, current.zoom),
                x: chosen(x, current.x),
                y: chosen(y, current.y),
            };
            let calls = seq![
                NativeCall::CameraSetZoom { camera: camera.handle, zoom: camera.zoom },
                NativeCall::CameraSetPosition { camera: camera.handle, x: camera.x, y: camera.y },
            ];
            &&& model.allows_all(calls)
            &&& camera.mirrors(model.run(calls))
            &&& zoom is None ==> model.run(calls).zoom == model.zoom
            &&& x is None ==> model.run(calls).position.0 == model.position.0
            &&& y is None ==> model.run(calls).position.1 == model.position.1
            &&& model.run(calls) == (NativeModel {
                zoom: camera.zoom,
                position: (camera.x, camera.y),
                ..model
            })
        }),
{
    let current = reading_of(model);
    let set_zoom = NativeCall::CameraSetZoom {
        camera: current.handle,
        zoom: chosen(zoom, current.zoom),
    };
    let set_position = NativeCall::CameraSetPosition {
        camera: current.handle,
        x: chosen(x, current.x),
        y: chosen(y, current.y),
    };
    let none = Seq::<NativeCall>::empty();
    lemma_run_push(model, none, set_zoom);
    lemma_run_push(model, none.push(set_zoom), set_position);
    assert(none.push(set_zoom).push(set_position) =~= seq![set_zoom, set_position]);
}

/// One camera at a time. The release of the live current camera is allowed,
/// and after it no call through the same handle is: a second camera made from
/// the same handle would be left with nothing that it may do.
pub proof fn lemma_camera_released_once(
    camera: CameraView,
    model: NativeModel,
    zoom: Scalar,
    x: Scalar,
    y: Scalar,
)
    requires
        model.uses_camera(camera.handle),
    ensures
        model.allows(NativeCall::CameraDestroy { camera: camera.handle }),
        ({
            let released = model.step(NativeCall::CameraDestroy { camera: camera.handle });
            &&& !released.allows(NativeCall::CameraDestroy { camera: camera.handle })
            &&& !released.allows(NativeCall::CameraSetZoom { camera: camera.handle, zoom })
            &&& !released.allows(NativeCall::CameraSetPosition { camera: camera.handle, x, y })
        }),
{
}

} // verus!
