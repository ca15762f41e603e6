//! A loaded puppet: one native handle and its display name.

use crate::error::{
    empty_slot_text, lemma_load_failure_text_nonempty, load_failure_message, load_failure_text,
    slot_view, undecodable_text, Inochi2DError,
};
use crate::ffi::{InError, InPuppetPtr, NativeCall};
use crate::native::NativeModel;
use vstd::prelude::*;
use vstd::string::*;
use vstd::utf8::{decode_utf8, valid_utf8};

verus! {

/// The owner of one loaded puppet.
///
/// A value exists only for a load that succeeded, so its handle is never null.
/// It is move-only: whoever holds it is the one owner of the handle, and
/// [`Inochi2DPuppet::release`] consumes it.
#[derive(Debug)]
pub struct Inochi2DPuppet {
    handle: InPuppetPtr,
    name: String,
}

/// What a puppet is: its handle and the characters of its name.
pub struct PuppetView {
    pub handle: InPuppetPtr,
    pub name: Seq<char>,
}

impl PuppetView {
    /// The call that advances this puppet by one tick.
    pub open spec fn update_call(self) -> NativeCall {
        NativeCall::PuppetUpdate { puppet: self.handle }
    }

    /// The call that renders this puppet.
    pub open spec fn draw_call(self) -> NativeCall {
        NativeCall::PuppetDraw { puppet: self.handle }
    }

    /// The call that releases this puppet.
    pub open spec fn release_call(self) -> NativeCall {
        NativeCall::PuppetDestroy { puppet: self.handle }
    }
}

impl View for Inochi2DPuppet {
    type V = PuppetView;

    closed spec fn view(&self) -> PuppetView {
        PuppetView { handle: self.handle, name: self.name@ }
    }
}

/// The name given to a puppet that was loaded from memory without one.
pub open spec fn in_memory_name() -> Seq<char> {
    "<in-memory-puppet>"@
}

/// The outcome of a load, from the handle that the native loader returned, the
/// name for the puppet and what the error slot held right after the load.
pub open spec fn load_outcome(
    handle: InPuppetPtr,
    name: Seq<char>,
    slot: Option<Seq<u8>>,
) -> Result<PuppetView, Seq<char>> {
    if handle.is_null() {
        Err(load_failure_text(slot))
    } else {
        Ok(PuppetView { handle, name })
    }
}

/// Whether `result` is the outcome `expected`: the same puppet, or a load
/// failure with the same text.
pub open spec fn is_load_outcome(
    result: Result<Inochi2DPuppet, Inochi2DError>,
    expected: Result<PuppetView, Seq<char>>,
) -> bool {
    match result {
        Ok(puppet) => expected == Ok::<PuppetView, Seq<char>>(puppet@),
        Err(error) => error is Load && expected == Err::<PuppetView, Seq<char>>(error.text()),
    }
}

impl Inochi2DPuppet {
    #[verifier::type_invariant]
    spec fn inv(self) -> bool {
        !self.handle.is_null()
    }

    /// Takes ownership of what the native loader returned.
    ///
    /// `handle` is the loader's result and `error` is what the error slot held
    /// right after the load. A null handle is a failed load: no puppet is made,
    /// and the error carries the slot's message, or a fixed text where the slot
    /// was empty or its message is not text. Otherwise the slot is ignored.
    pub fn from_raw_handle(
        handle: InPuppetPtr,
        name: String,
        error: Option<InError>,
    ) -> (result: Result<Self, Inochi2DError>)
        ensures
            result is Err <==> handle.is_null(),
            is_load_outcome(result, load_outcome(handle, name@, slot_view(error))),
    {
        if handle.is_null() {
            Err(Inochi2DError::Load { message: load_failure_message(error) })
        } else {
            Ok(Inochi2DPuppet { handle, name })
        }
    }

    /// Takes ownership of a puppet that the native library loaded from a
    /// buffer in memory. Without a name the puppet is called
    /// `<in-memory-puppet>`.
    pub fn from_raw_parts(
        handle: InPuppetPtr,
        name: Option<String>,
        error: Option<InError>,
    ) -> (result: Result<Self, Inochi2DError>)
        ensures
            result is Err <==> handle.is_null(),
            is_load_outcome(
                result,
                load_outcome(
                    handle,
                    match name {
                        Some(n) => n@,
                        None => in_memory_name(),
                    },
                    slot_view(error),
                ),
            ),
    {
        let name = match name {
            Some(n) => n,
            None => String::from_str("<in-memory-puppet>"),
        };
        Self::from_raw_handle(handle, name, error)
    }

    /// Takes ownership of a puppet that the native library loaded from the file
    /// at `path`; the path becomes the puppet's name.
    pub fn new(
        path: String,
        handle: InPuppetPtr,
        error: Option<InError>,
    ) -> (result: Result<Self, Inochi2DError>)
        ensures
            result is Err <==> handle.is_null(),
            is_load_outcome(result, load_outcome(handle, path@, slot_view(error))),
    {
        Self::from_raw_handle(handle, path, error)
    }

    /// The native handle. It is never null.
    pub fn handle(&self) -> (handle: InPuppetPtr)
        ensures
            handle == self@.handle,
            !handle.is_null(),
    {
        proof {
            use_type_invariant(self);
        }
        self.handle
    }

    /// The display name.
    pub fn name(&self) -> (name: &String)
        ensures
            name@ == self@.name,
    {
        &self.name
    }

    /// Advances the animation by one tick. The native call reports nothing
    /// back.
    pub fn update(&mut self) -> (call: NativeCall)
        ensures
            call == old(self)@.update_call(),
            final(self)@ == old(self)@,
    {
        NativeCall::PuppetUpdate { puppet: self.handle }
    }

    /// Renders the puppet. Only meaningful while a scene bracket is open.
    pub fn draw(&mut self) -> (call: NativeCall)
        ensures
            call == old(self)@.draw_call(),
            final(self)@ == old(self)@,
    {
        NativeCall::PuppetDraw { puppet: self.handle }
    }

    /// Gives the handle up. The puppet is consumed, so its handle is released
    /// once and never used again.
    pub fn release(self) -> (call: NativeCall)
        ensures
            call == self@.release_call(),
    {
        NativeCall::PuppetDestroy { puppet: self.handle }
    }
}

/// A failed load never yields a puppet, and its error always says something.
/// With the null handle the outcome is an error whose text is not empty: the
/// slot's message where the slot held bytes that are text, and one of the two
/// fixed texts where the slot was empty or its bytes are not text. With any
/// other handle the outcome is a puppet that holds that handle.
pub proof fn lemma_load_outcome(handle: InPuppetPtr, name: Seq<char>, slot: Option<Seq<u8>>)
    ensures
        handle.is_null() <==> load_outcome(handle, name, slot) is Err,
        load_outcome(handle, name, slot) matches Ok(puppet) ==> puppet.handle == handle
            && !puppet.handle.is_null() && puppet.name == name,
        load_outcome(handle, name, slot) matches Err(text) ==> {
            &&& text.len() > 0
            &&& text == load_failure_text(slot)
            &&& slot is None ==> text == empty_slot_text()
            &&& slot matches Some(bytes) ==> (bytes.len() > 0 && valid_utf8(bytes) ==> text
                == decode_utf8(bytes))
            &&& slot matches Some(bytes) ==> (bytes.len() > 0 && !valid_utf8(bytes) ==> text
                == undecodable_text())
            &&& slot matches Some(bytes) ==> (bytes.len() == 0 ==> text == empty_slot_text())
        },
{
    lemma_load_failure_text_nonempty(slot);
}

/// What a puppet asks of the native library depends on its handle alone: two
/// puppets that hold the same handle ask for the same update, the same draw
/// and the same release, whatever their names and however they were loaded.
pub proof fn lemma_calls_depend_on_handle_alone(one: PuppetView, other: PuppetView)
    requires
        one.handle == other.handle,
    ensures
        one.update_call() == other.update_call(),
        one.draw_call() == other.draw_call(),
        one.release_call() == other.release_call(),
{
}

/// A puppet is used while it is loaded and released once. For a loaded
/// puppet, update and release are allowed, and so is draw inside the scene
/// bracket; update and draw leave the native library as it is; after the
/// release the puppet is no longer loaded, so that no further update, draw or
/// release of it would be allowed.
pub proof fn lemma_puppet_released_once(puppet: PuppetView, model: NativeModel)
    requires
        model.uses_puppet(puppet.handle),
    ensures
        model.allows(puppet.update_call()),
        model.step(puppet.update_call()) == model,
        model.scene_open ==> model.allows(puppet.draw_call()),
        model.step(puppet.draw_call()) == model,
        model.allows(puppet.release_call()),
        !model.step(puppet.release_call()).allows(puppet.update_call()),
        !model.step(puppet.release_call()).allows(puppet.draw_call()),
        !model.step(puppet.release_call()).allows(puppet.release_call()),
{
}

} // verus!
