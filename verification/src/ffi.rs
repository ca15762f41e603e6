//! The native surface as plain values: handles, readings and calls.

use vstd::prelude::*;
use vstd::utf8::{decode_utf8, valid_utf8};

verus! {

/// An opaque token for a puppet that the native library owns.
///
/// The address is never interpreted; it is only handed back to the native
/// entry points. The address zero is the null handle, which the native loader
/// returns when a load fails.
#[derive(Clone, Copy, Debug, PartialEq, Eq, Structural)]
pub struct InPuppetPtr {
    pub addr: usize,
}

impl InPuppetPtr {
    /// The null handle.
    pub fn null() -> (handle: Self)
        ensures
            handle.addr == 0,
            handle.is_null(),
    {
        InPuppetPtr { addr: 0 }
    }

    /// Whether this is the null handle.
    pub open spec fn spec_is_null(&self) -> bool {
        self.addr == 0
    }

    /// Whether this is the null handle.
    #[verifier::when_used_as_spec(spec_is_null)]
    pub fn is_null(&self) -> (null: bool)
        ensures
            null == (self.addr == 0),
    {
        self.addr == 0
    }
}

/// An opaque token for the native library's current camera.
#[derive(Clone, Copy, Debug, PartialEq, Eq, Structural)]
pub struct InCameraPtr {
    pub addr: usize,
}

/// The monotonic time source handed to the native library at initialisation,
/// carried as the address of the host's callback.
#[derive(Clone, Copy, Debug, PartialEq, Eq, Structural)]
pub struct InTimingFunc {
    pub addr: usize,
}

/// A single-precision number of the native library, carried as its IEEE-754
/// bit pattern.
///
/// The library never computes with such a number: it only stores it and hands
/// it through, so every value, each NaN included, keeps its exact bits.
#[derive(Clone, Copy, Debug, PartialEq, Eq, Structural)]
pub struct Scalar {
    pub bits: u32,
}

/// A native call that changes native state and returns nothing.
///
/// Operations of this library return such values; the host makes the calls, in
/// the order given, on the thread that initialised the native library.
#[allow(inconsistent_fields)]
#[derive(Clone, Copy, Debug, PartialEq, Eq, Structural)]
pub enum NativeCall {
    /// Global initialisation with the given time source.
    Init { timing: InTimingFunc },
    /// Global cleanup.
    Cleanup,
    /// Sets the viewport size.
    ViewportSet { width: i32, height: i32 },
    /// Opens the scene bracket.
    SceneBegin,
    /// Closes the scene bracket.
    SceneEnd,
    /// Draws the rendered scene into a region.
    SceneDraw { x: Scalar, y: Scalar, width: Scalar, height: Scalar },
    /// Releases the camera.
    CameraDestroy { camera: InCameraPtr },
    /// Moves the camera.
    CameraSetPosition { camera: InCameraPtr, x: Scalar, y: Scalar },
    /// Sets the camera's zoom.
    CameraSetZoom { camera: InCameraPtr, zoom: Scalar },
    /// Releases a puppet.
    PuppetDestroy { puppet: InPuppetPtr },
    /// Advances a puppet's animation by one tick.
    PuppetUpdate { puppet: InPuppetPtr },
    /// Renders a puppet.
    PuppetDraw { puppet: InPuppetPtr },
}

/// What the native error slot held when it was read: the bytes of the last
/// error message.
///
/// The native buffer behind the slot is only valid until the next fallible
/// call, so the host copies the bytes out as soon as it has read the slot; this
/// value owns that copy.
#[derive(Debug)]
pub struct InError {
    msg: Vec<u8>,
}

impl View for InError {
    type V = Seq<u8>;

    closed spec fn view(&self) -> Seq<u8> {
        self.msg@
    }
}

impl InError {
    /// Takes ownership of the bytes copied out of the error slot.
    pub fn new(msg: Vec<u8>) -> (error: Self)
        ensures
            error@ == msg@,
    {
        InError { msg }
    }

    /// The length of the message in bytes.
    pub fn len(&self) -> (len: usize)
        ensures
            len == self@.len(),
    {
        self.msg.len()
    }

    /// The message as text, if its bytes are well-formed UTF-8.
    pub fn into_text(self) -> (text: Option<String>)
        ensures
            text is Some <==> valid_utf8(self@),
            text matches Some(s) ==> s@ == decode_utf8(self@),
    {
        string_from_utf8(self.msg)
    }
}

/// `String::from_utf8` of the standard library: it accepts exactly the byte
/// sequences that are well-formed UTF-8, and the string it then returns holds
/// the characters that those bytes encode. Not proved; taken from the
/// function's documentation.
#[verifier::external_body]
fn string_from_utf8(bytes: Vec<u8>) -> (text: Option<String>)
    ensures
        text is Some <==> valid_utf8(bytes@),
        text matches Some(s) ==> s@ == decode_utf8(bytes@),
{
    match String::from_utf8(bytes) {
        Ok(s) => Some(s),
        Err(_) => None,
    }
}

} // verus!
