//! The context: the initialised native library and the puppets loaded into it.

use crate::error::{load_failure_text, slot_view, Inochi2DError};
use crate::ffi::{InError, InPuppetPtr, InTimingFunc, NativeCall};
use crate::native::{
    lemma_run_concat, lemma_run_neutral, lemma_run_push, lemma_viewport_kept, NativeModel,
};
use crate::puppet::{Inochi2DPuppet, PuppetView};
use crate::scene::{lemma_draw_keeps_bracket, Region};
use vstd::prelude::*;

verus! {

/// The owner of the initialised native library and of a collection of
/// puppets.
///
/// The native library keeps its state per process, not per context, so only
/// one context may be live at a time: building a second one before the first
/// is torn down is a violation of this type's precondition. The viewport size
/// kept here mirrors the native one as of the last call that set or read it.
#[derive(Debug)]
pub struct Inochi2D {
    puppets: Vec<Inochi2DPuppet>,
    view_width: i32,
    view_height: i32,
}

/// What a context is: its puppets, in the order in which they were added, and
/// the mirrored viewport size.
pub struct ContextView {
    pub puppets: Seq<PuppetView>,
    pub view_width: i32,
    pub view_height: i32,
}

impl View for Inochi2D {
    type V = ContextView;

    closed spec fn view(&self) -> ContextView {
        ContextView {
            puppets: Seq::new(self.puppets@.len(), |i: int| self.puppets@[i]@),
            view_width: self.view_width,
            view_height: self.view_height,
        }
    }
}

impl ContextView {
    /// A context without puppets.
    pub open spec fn empty(width: i32, height: i32) -> ContextView {
        ContextView { puppets: Seq::empty(), view_width: width, view_height: height }
    }

    /// This context with one more puppet at the end of the collection.
    pub open spec fn with_puppet(self, puppet: PuppetView) -> ContextView {
        ContextView { puppets: self.puppets.push(puppet), ..self }
    }

    /// The handles of the puppets, in collection order.
    pub open spec fn handles(self) -> Seq<InPuppetPtr> {
        Seq::new(self.puppets.len(), |i: int| self.puppets[i].handle)
    }

    /// One update per puppet, in collection order.
    pub open spec fn update_calls(self) -> Seq<NativeCall> {
        Seq::new(self.puppets.len(), |i: int| self.puppets[i].update_call())
    }

    /// One draw per puppet, in collection order.
    pub open spec fn draw_calls(self) -> Seq<NativeCall> {
        Seq::new(self.puppets.len(), |i: int| self.puppets[i].draw_call())
    }

    /// One release per puppet, in collection order.
    pub open spec fn release_calls(self) -> Seq<NativeCall> {
        Seq::new(self.puppets.len(), |i: int| self.puppets[i].release_call())
    }

    /// Whether this context and the native library are of one mind: the
    /// library is initialised, its loaded puppets are the puppets of this
    /// context, each held once, and its viewport is the mirrored one.
    pub open spec fn agrees(self, model: NativeModel) -> bool {
        &&& model.initialized
        &&& self.handles().no_duplicates()
        &&& model.puppets =~= self.handles().to_set()
        &&& model.viewport == (self.view_width, self.view_height)
    }

    /// The releases of all puppets, then the global cleanup.
    pub open spec fn teardown_calls(self) -> Seq<NativeCall> {
        self.release_calls().push(NativeCall::Cleanup)
    }
}

/// The calls that initialise the native library and set the first viewport.
pub open spec fn init_calls(timing: InTimingFunc, width: i32, height: i32) -> Seq<NativeCall> {
    seq![NativeCall::Init { timing }, NativeCall::ViewportSet { width, height }]
}

impl Inochi2D {
    /// Initialises the native library with the given time source and sets the
    /// viewport: the two calls, in that order. The new context has no puppets.
    ///
    /// No other context may be live.
    pub fn new(timing: InTimingFunc, w: i32, h: i32) -> (made: (Self, Vec<NativeCall>))
        ensures
            made.0@ == ContextView::empty(w, h),
            made.1@ == init_calls(timing, w, h),
    {
        let mut calls: Vec<NativeCall> = Vec::new();
        calls.push(NativeCall::Init { timing });
        calls.push(NativeCall::ViewportSet { width: w, height: h });
        assert(calls@ =~= init_calls(timing, w, h));
        let context = Inochi2D { puppets: Vec::new(), view_width: w, view_height: h };
        assert(context@.puppets =~= Seq::empty());
        (context, calls)
    }

    /// Adds the puppet that the native library loaded from the file at `path`.
    ///
    /// `handle` is what the native loader returned and `error` is what the
    /// error slot held right after. A successful load is appended to the
    /// collection; a failed one leaves the context as it was and returns the
    /// load's error.
    pub fn add_puppet(
        &mut self,
        path: String,
        handle: InPuppetPtr,
        error: Option<InError>,
    ) -> (result: Result<(), Inochi2DError>)
        ensures
            result is Err <==> handle.is_null(),
            result is Ok ==> final(self)@ == old(self)@.with_puppet(
                PuppetView { handle, name: path@ },
            ),
            result matches Err(failure) ==> {
                &&& failure is Load
                &&& failure.text() == load_failure_text(slot_view(error))
                &&& final(self)@ == old(self)@
            },
    {
        match Inochi2DPuppet::new(path, handle, error) {
            Ok(puppet) => {
                self.puppets.push(puppet);
                assert(final(self)@.puppets =~= old(self)@.puppets.push(
                    PuppetView { handle, name: path@ },
                ));
                Ok(())
            },
            Err(failure) => Err(failure),
        }
    }

    /// The puppets, in the order in which they were added.
    pub fn puppets(&self) -> (puppets: &Vec<Inochi2DPuppet>)
        ensures
            puppets@.len() == self@.puppets.len(),
            forall|i: int|
                0 <= i < puppets@.len() ==> (#[trigger] puppets@[i])@ == self@.puppets[i],
    {
        &self.puppets
    }

    /// The mirrored viewport width.
    pub fn view_width(&self) -> (width: i32)
        ensures
            width == self@.view_width,
    {
        self.view_width
    }

    /// The mirrored viewport height.
    pub fn view_height(&self) -> (height: i32)
        ensures
            height == self@.view_height,
    {
        self.view_height
    }

    /// Advances every puppet by one tick: one update per puppet, in
    /// collection order.
    pub fn update_puppets(&mut self) -> (calls: Vec<NativeCall>)
        ensures
            calls@ == old(self)@.update_calls(),
            final(self)@ == old(self)@,
    {
        let mut calls: Vec<NativeCall> = Vec::new();
        let n = self.puppets.len();
        let mut i: usize = 0;
        while i < n
            invariant
                i <= n,
                n == self.puppets@.len(),
                self@ == old(self)@,
                calls@.len() == i,
                forall|j: int| 0 <= j < i ==> calls@[j] == old(self)@.update_calls()[j],
            decreases n - i,
        {
            let ghost before = self.puppets@;
            let call = self.puppets[i].update();
            assert(self.puppets@ =~= before.update(i as int, self.puppets@[i as int]));
            assert(self@.puppets =~= old(self)@.puppets);
            calls.push(call);
            i += 1;
        }
        assert(calls@ =~= old(self)@.update_calls());
        calls
    }

    /// Renders every puppet: one draw per puppet, in collection order. Only
    /// meaningful while a scene bracket is open.
    pub fn draw_puppets(&mut self) -> (calls: Vec<NativeCall>)
        ensures
            calls@ == old(self)@.draw_calls(),
            final(self)@ == old(self)@,
    {
        let mut calls: Vec<NativeCall> = Vec::new();
        let n = self.puppets.len();
        let mut i: usize = 0;
        while i < n
            invariant
                i <= n,
                n == self.puppets@.len(),
                self@ == old(self)@,
                calls@.len() == i,
                forall|j: int| 0 <= j < i ==> calls@[j] == old(self)@.draw_calls()[j],
            decreases n - i,
        {
            let ghost before = self.puppets@;
            let call = self.puppets[i].draw();
            assert(self.puppets@ =~= before.update(i as int, self.puppets@[i as int]));
            assert(self@.puppets =~= old(self)@.puppets);
            calls.push(call);
            i += 1;
        }
        assert(calls@ =~= old(self)@.draw_calls());
        calls
    }

    /// Sets the viewport size, natively and in the mirror. Any size is passed
    /// on; whether it is acceptable is for the native library to say.
    pub fn set_viewport(&mut self, w: i32, h: i32) -> (call: NativeCall)
        ensures
            call == (NativeCall::ViewportSet { width: w, height: h }),
            final(self)@ == (ContextView { view_width: w, view_height: h, ..old(self)@ }),
    {
        self.view_width = w;
        self.view_height = h;
        assert(self@.puppets =~= old(self)@.puppets);
        NativeCall::ViewportSet { width: w, height: h }
    }

    /// The viewport size, width first. `native` is a fresh reading of the
    /// native viewport; it is returned as it is, and the mirror takes it over.
    pub fn get_viewport(&mut self, native: (i32, i32)) -> (viewport: (i32, i32))
        ensures
            viewport == native,
            final(self)@ == (ContextView {
                view_width: native.0,
                view_height: native.1,
                ..old(self)@
            }),
    {
        self.view_width = native.0;
        self.view_height = native.1;
        assert(self@.puppets =~= old(self)@.puppets);
        native
    }

    /// Tears the context down: every puppet is released, in collection order,
    /// and the global cleanup comes after the last release. The context is
    /// consumed, so nothing of it can be used once cleanup has been asked for.
    pub fn teardown(self) -> (calls: Vec<NativeCall>)
        ensures
            calls@ == self@.teardown_calls(),
    {
        let ghost view = self@;
        let puppets = self.puppets;
        let mut calls: Vec<NativeCall> = Vec::new();
        for puppet in it: puppets.into_iter()
            invariant
                it.seq().len() == view.puppets.len(),
                forall|j: int|
                    0 <= j < it.seq().len() ==> (#[trigger] it.seq()[j])@ == view.puppets[j],
                calls@.len() == it.index(),
                forall|j: int| 0 <= j < it.index() ==> calls@[j] == view.release_calls()[j],
        {
            let call = puppet.release();
            calls.push(call);
        }
        assert(calls@ =~= view.release_calls());
        calls.push(NativeCall::Cleanup);
        calls
    }
}

/// A new context agrees with the native library. From a library that is not
/// initialised and holds no puppet, the two calls of `new` are allowed, and
/// the new context agrees with the state that they leave.
pub proof fn lemma_new_agrees(model: NativeModel, timing: InTimingFunc, width: i32, height: i32)
    requires
        !model.initialized,
        model.puppets =~= Set::empty(),
    ensures
        model.allows_all(init_calls(timing, width, height)),
        ContextView::empty(width, height).agrees(model.run(init_calls(timing, width, height))),
        model.run(init_calls(timing, width, height)) == (NativeModel {
            initialized: true,
            viewport: (width, height),
            ..model
        }),
{
    let none = Seq::<NativeCall>::empty();
    let init = NativeCall::Init { timing };
    let set = NativeCall::ViewportSet { width, height };
    lemma_run_push(model, none, init);
    lemma_run_push(model, none.push(init), set);
    assert(none.push(init).push(set) =~= init_calls(timing, width, height));
    assert(ContextView::empty(width, height).handles() =~= Seq::empty());
}

/// A context that takes in a freshly loaded puppet still agrees with the
/// native library, provided the loader returned a handle that was not already
/// in use.
pub proof fn lemma_add_puppet_agrees(context: ContextView, model: NativeModel, puppet: PuppetView)
    requires
        context.agrees(model),
        !puppet.handle.is_null(),
        !model.puppets.contains(puppet.handle),
    ensures
        context.with_puppet(puppet).agrees(model.loaded(puppet.handle)),
{
    let before = context.handles();
    let after = context.with_puppet(puppet).handles();
    assert(after =~= before.push(puppet.handle));
    assert forall|i: int, j: int|
        0 <= i < after.len() && 0 <= j < after.len() && i != j implies after[i] != after[j] by {
        if i < before.len() {
            assert(before.contains(before[i]));
        }
        if j < before.len() {
            assert(before.contains(before[j]));
        }
    }
    assert forall|handle: InPuppetPtr|
        model.puppets.insert(puppet.handle).contains(handle) == after.to_set().contains(
            handle,
        ) by {
        if after.contains(handle) {
            let i = choose|i: int| 0 <= i < after.len() && after[i] == handle;
            if i < before.len() {
                assert(before.contains(before[i]));
            }
        }
        if handle == puppet.handle {
            assert(after[before.len() as int] == handle);
        } else if before.contains(handle) {
            let i = choose|i: int| 0 <= i < before.len() && before[i] == handle;
            assert(after[i] == handle);
        }
    }
}

/// Updating the puppets of a context that agrees with the native library is
/// allowed, and leaves agreement as it is.
pub proof fn lemma_update_puppets_allowed(context: ContextView, model: NativeModel)
    requires
        context.agrees(model),
    ensures
        model.allows_all(context.update_calls()),
        model.run(context.update_calls()) == model,
{
    let calls = context.update_calls();
    assert forall|i: int| 0 <= i < calls.len() implies model.allows(#[trigger] calls[i])
        && model.step(calls[i]) == model by {
        assert(context.handles()[i] == context.puppets[i].handle);
        assert(context.handles().contains(context.handles()[i]));
    }
    lemma_run_neutral(model, calls);
}

/// Drawing the puppets of a context that agrees with the native library is
/// allowed while the scene bracket is open, and leaves agreement as it is.
pub proof fn lemma_draw_puppets_allowed(context: ContextView, model: NativeModel)
    requires
        context.agrees(model),
        model.scene_open,
    ensures
        model.allows_all(context.draw_calls()),
        model.run(context.draw_calls()) == model,
{
    let calls = context.draw_calls();
    assert forall|i: int| 0 <= i < calls.len() implies model.allows(#[trigger] calls[i])
        && model.step(calls[i]) == model by {
        assert(context.handles()[i] == context.puppets[i].handle);
        assert(context.handles().contains(context.handles()[i]));
    }
    lemma_run_neutral(model, calls);
}

/// The calls of one frame: every puppet is updated, every puppet is drawn, and
/// the scene is drawn into `region`.
pub open spec fn frame_calls(context: ContextView, region: Region) -> Seq<NativeCall> {
    context.update_calls() + context.draw_calls() + crate::scene::draw_calls(
        region.x,
        region.y,
        region.width,
        region.height,
    )
}

/// A frame can follow a frame. For a context that agrees with the native
/// library, inside an open scene bracket, every call of a frame is allowed,
/// and the frame leaves the native library as it found it: the same puppets
/// loaded, the bracket open, the context still in agreement.
pub proof fn lemma_frame_allowed(context: ContextView, model: NativeModel, region: Region)
    requires
        context.agrees(model),
        model.scene_open,
    ensures
        model.allows_all(frame_calls(context, region)),
        model.run(frame_calls(context, region)) == model,
{
    let updates = context.update_calls();
    let draws = context.draw_calls();
    let scene = crate::scene::draw_calls(region.x, region.y, region.width, region.height);
    lemma_update_puppets_allowed(context, model);
    lemma_draw_puppets_allowed(context, model);
    lemma_draw_keeps_bracket(model, region.x, region.y, region.width, region.height);
    lemma_run_concat(model, updates, draws);
    lemma_run_concat(model, updates + draws, scene);
}

/// A viewport that was set is the viewport that is read back, as long as no
/// call in between sets the viewport again. For a context that agrees with
/// the native library, the call of `set_viewport` is allowed, the context with
/// the new size agrees with the state after it, and after `others` the native
/// viewport, which is what `get_viewport` returns, is the size written.
pub proof fn lemma_viewport_round_trip(
    context: ContextView,
    model: NativeModel,
    width: i32,
    height: i32,
    others: Seq<NativeCall>,
)
    requires
        context.agrees(model),
        forall|i: int| 0 <= i < others.len() ==> !(others[i] is ViewportSet),
    ensures
        model.allows(NativeCall::ViewportSet { width, height }),
        (ContextView { view_width: width, view_height: height, ..context }).agrees(
            model.step(NativeCall::ViewportSet { width, height }),
        ),
        model.step(NativeCall::ViewportSet { width, height }).run(others).viewport == (
            width,
            height,
        ),
{
    let changed = ContextView { view_width: width, view_height: height, ..context };
    assert(changed.handles() =~= context.handles());
    lemma_viewport_kept(model.step(NativeCall::ViewportSet { width, height }), others);
}

/// The state after the first `count` releases of a teardown: the puppets from
/// `count` on are still loaded.
spec fn partly_released(
    context: ContextView,
    model: NativeModel,
    count: int,
) -> NativeModel {
    NativeModel { puppets: context.handles().skip(count).to_set(), ..model }
}

/// The first `count` releases of a teardown are allowed, and release just the
/// first `count` puppets.
proof fn lemma_releases(context: ContextView, model: NativeModel, count: int)
    requires
        context.agrees(model),
        0 <= count <= context.puppets.len(),
    ensures
        model.allows_all(context.release_calls().take(count)),
        model.run(context.release_calls().take(count)) == partly_released(context, model, count),
    decreases count,
{
    let handles = context.handles();
    let calls = context.release_calls();
    if count == 0 {
        assert(calls.take(0) =~= Seq::empty());
        assert(handles.skip(0) =~= handles);
    } else {
        let done = count - 1;
        lemma_releases(context, model, done);
        let handle = handles[done];
        lemma_run_push(model, calls.take(done), calls[done]);
        assert(calls.take(done).push(calls[done]) =~= calls.take(count));
        assert(calls[done] == NativeCall::PuppetDestroy { puppet: handle });
        let still = handles.skip(done);
        let rest = handles.skip(count);
        assert(still[0] == handle);
        assert(still.contains(handle));
        assert forall|other: InPuppetPtr|
            still.to_set().remove(handle).contains(other) == rest.to_set().contains(other) by {
            if rest.contains(other) {
                let i = choose|i: int| 0 <= i < rest.len() && rest[i] == other;
                assert(still[i + 1] == other);
                assert(handles[count + i] == other);
                assert(other != handle);
            }
            if still.contains(other) && other != handle {
                let i = choose|i: int| 0 <= i < still.len() && still[i] == other;
                assert(rest[i - 1] == other);
            }
        }
        assert(still.to_set().remove(handle) =~= rest.to_set());
    }
}

/// Tearing down a context that agrees with the native library releases what
/// it holds and nothing else, and cleans up last. Every call of the teardown
/// is allowed; each puppet is released exactly once, while it is still loaded;
/// every call before the last is the release of a puppet, and the last is the
/// global cleanup; after it no puppet is loaded and the library is no longer
/// initialised.
pub proof fn lemma_teardown_cleans_up_last(context: ContextView, model: NativeModel)
    requires
        context.agrees(model),
    ensures
        model.allows_all(context.teardown_calls()),
        context.teardown_calls().len() == context.puppets.len() + 1,
        context.teardown_calls().last() == NativeCall::Cleanup,
        forall|i: int|
            0 <= i < context.puppets.len() ==> #[trigger] context.teardown_calls()[i]
                == context.puppets[i].release_call(),
        model.run(context.teardown_calls()) == (NativeModel {
            initialized: false,
            puppets: Set::empty(),
            ..model
        }),
{
    let count = context.puppets.len() as int;
    let releases = context.release_calls();
    lemma_releases(context, model, count);
    assert(releases.take(count) =~= releases);
    assert(context.handles().skip(count) =~= Seq::empty());
    assert(context.handles().skip(count).to_set() =~= Set::empty());
    lemma_run_push(model, releases, NativeCall::Cleanup);
}

/// One context at a time. While the native library is initialised, the
/// calls of a second `new` are not allowed.
pub proof fn lemma_one_context_at_a_time(
    model: NativeModel,
    timing: InTimingFunc,
    width: i32,
    height: i32,
)
    requires
        model.initialized,
    ensures
        !model.allows_all(init_calls(timing, width, height)),
{
    let none = Seq::<NativeCall>::empty();
    let init = NativeCall::Init { timing };
    let set = NativeCall::ViewportSet { width, height };
    lemma_run_push(model, none, init);
    lemma_run_push(model, none.push(init), set);
    assert(none.push(init).push(set) =~= init_calls(timing, width, height));
}

} // verus!
