//! Building a context: configuration, validation, and the loads that follow.

use crate::context::{
    init_calls, lemma_add_puppet_agrees, lemma_new_agrees, lemma_teardown_cleans_up_last,
    ContextView, Inochi2D,
};
use crate::error::{load_failure_text, slot_view, Inochi2DError};
use crate::ffi::{InError, InPuppetPtr, InTimingFunc, NativeCall};
use crate::native::NativeModel;
use crate::puppet::PuppetView;
use vstd::prelude::*;

verus! {

/// The configuration of a context that is yet to be built.
#[derive(Debug)]
pub struct Inochi2DBuilder {
    viewport_size: (i32, i32),
    time_func: Option<InTimingFunc>,
    puppets: Vec<String>,
}

/// What a builder holds: the viewport size, the time source if one was given,
/// and the paths of the puppets to load, in the order in which they were named.
pub struct BuilderView {
    pub viewport_size: (i32, i32),
    pub time_func: Option<InTimingFunc>,
    pub puppets: Seq<Seq<char>>,
}

impl BuilderView {
    /// A viewport of 800 by 600, no time source, no puppets.
    pub open spec fn new() -> BuilderView {
        BuilderView { viewport_size: (800i32, 600i32), time_func: None, puppets: Seq::empty() }
    }

    /// This configuration with another viewport size.
    pub open spec fn viewport(self, width: i32, height: i32) -> BuilderView {
        BuilderView { viewport_size: (width, height), ..self }
    }

    /// This configuration with one more puppet to load, after the others.
    pub open spec fn puppet(self, path: Seq<char>) -> BuilderView {
        BuilderView { puppets: self.puppets.push(path), ..self }
    }

    /// This configuration with the given time source.
    pub open spec fn timing(self, func: InTimingFunc) -> BuilderView {
        BuilderView { time_func: Some(func), ..self }
    }

    /// The context that a build starts from: no puppets, the configured
    /// viewport.
    pub open spec fn fresh_context(self) -> ContextView {
        ContextView::empty(self.viewport_size.0, self.viewport_size.1)
    }

    /// The start of a build: nothing without a time source; with one, the step
    /// at which the construction stands and the calls that initialise the
    /// native library.
    pub open spec fn start(self) -> Option<(StepView, Seq<NativeCall>)> {
        match self.time_func {
            None => None,
            Some(timing) => Some(
                (
                    step_for(self.fresh_context(), self.puppets),
                    init_calls(timing, self.viewport_size.0, self.viewport_size.1),
                ),
            ),
        }
    }
}

impl View for Inochi2DBuilder {
    type V = BuilderView;

    closed spec fn view(&self) -> BuilderView {
        BuilderView {
            viewport_size: self.viewport_size,
            time_func: self.time_func,
            puppets: Seq::new(self.puppets@.len(), |i: int| self.puppets@[i]@),
        }
    }
}

/// A context under construction that waits for one puppet to be loaded.
#[derive(Debug)]
pub struct PendingLoad {
    context: Inochi2D,
    paths: Vec<String>,
    next: usize,
}

/// What a pending load holds: the context so far and the paths that are still
/// to be loaded, the one that is waited for first.
pub struct PendingView {
    pub context: ContextView,
    pub remaining: Seq<Seq<char>>,
}

impl View for PendingLoad {
    type V = PendingView;

    closed spec fn view(&self) -> PendingView {
        PendingView {
            context: self.context@,
            remaining: Seq::new(
                (self.paths@.len() - self.next) as nat,
                |i: int| self.paths@[self.next + i]@,
            ),
        }
    }
}

/// Where the construction of a context stands.
#[derive(Debug)]
pub enum BuildStep {
    /// The host is to load the puppet at [`PendingLoad::path`] and report the
    /// outcome to [`PendingLoad::loaded`].
    Load(PendingLoad),
    /// Every puppet is loaded: the context is ready.
    Done(Inochi2D),
}

/// What a build step is.
pub enum StepView {
    Load(PendingView),
    Done(ContextView),
}

impl View for BuildStep {
    type V = StepView;

    open spec fn view(&self) -> StepView {
        match self {
            BuildStep::Load(pending) => StepView::Load(pending@),
            BuildStep::Done(context) => StepView::Done(context@),
        }
    }
}

/// The step at which a context stands when `remaining` are the paths that are
/// still to be loaded into it.
pub open spec fn step_for(context: ContextView, remaining: Seq<Seq<char>>) -> StepView {
    if remaining.len() == 0 {
        StepView::Done(context)
    } else {
        StepView::Load(PendingView { context, remaining })
    }
}

/// The end of a construction that a load failed: the text of the error, and
/// the calls that tear down what was built.
pub struct FailureView {
    pub text: Seq<char>,
    pub calls: Seq<NativeCall>,
}

impl PendingView {
    /// The step after a load that returned a handle other than null: the
    /// puppet joins the context under the name of its path, and the next path,
    /// if there is one, is waited for.
    pub open spec fn after_success(self, handle: InPuppetPtr) -> StepView {
        step_for(
            self.context.with_puppet(PuppetView { handle, name: self.remaining[0] }),
            self.remaining.skip(1),
        )
    }

    /// The end of the construction after a load that returned the null
    /// handle, given what the error slot held.
    pub open spec fn after_failure(self, slot: Option<Seq<u8>>) -> FailureView {
        FailureView { text: load_failure_text(slot), calls: self.context.teardown_calls() }
    }

    /// What follows the load that was waited for, given the handle that the
    /// loader returned and what the error slot held.
    pub open spec fn loaded(self, handle: InPuppetPtr, slot: Option<Seq<u8>>) -> Result<
        StepView,
        FailureView,
    > {
        if handle.is_null() {
            Err(self.after_failure(slot))
        } else {
            Ok(self.after_success(handle))
        }
    }
}

impl Inochi2DBuilder {
    /// A builder with a viewport of 800 by 600, no time source and no puppets.
    pub fn new() -> (builder: Self)
        ensures
            builder@ == BuilderView::new(),
    {
        let builder = Inochi2DBuilder {
            viewport_size: (800, 600),
            time_func: None,
            puppets: Vec::new(),
        };
        assert(builder@.puppets =~= Seq::empty());
        builder
    }

    /// Sets the viewport size.
    pub fn viewport(self, w: i32, h: i32) -> (builder: Inochi2DBuilder)
        ensures
            builder@ == self@.viewport(w, h),
    {
        let mut builder = self;
        builder.viewport_size = (w, h);
        assert(builder@.puppets =~= self@.puppets);
        builder
    }

    /// Names one more puppet to load, after those named so far.
    pub fn puppet(self, puppet: String) -> (builder: Inochi2DBuilder)
        ensures
            builder@ == self@.puppet(puppet@),
    {
        let mut builder = self;
        builder.puppets.push(puppet);
        assert(builder@.puppets =~= self@.puppets.push(puppet@));
        builder
    }

    /// Sets the time source.
    pub fn timing(self, func: InTimingFunc) -> (builder: Inochi2DBuilder)
        ensures
            builder@ == self@.timing(func),
    {
        let mut builder = self;
        builder.time_func = Some(func);
        assert(builder@.puppets =~= self@.puppets);
        builder
    }

    /// Starts the construction of the context.
    ///
    /// Without a time source this is a configuration error, and no native call
    /// is asked for. With one, the calls initialise the native library and set
    /// the viewport, and the step says whether a puppet is to be loaded next or
    /// the context is ready.
    pub fn build(self) -> (result: Result<(BuildStep, Vec<NativeCall>), Inochi2DError>)
        ensures
            result is Err <==> self@.time_func is None,
            result matches Err(error) ==> error is Configuration,
            result matches Ok(started) ==> self@.start() == Some((started.0@, started.1@)),
    {
        match self.time_func {
            None => Err(Inochi2DError::Configuration),
            Some(timing) => {
                let (context, calls) = Inochi2D::new(
                    timing,
                    self.viewport_size.0,
                    self.viewport_size.1,
                );
                let step = next_step(context, self.puppets, 0);
                assert(step@ == step_for(context@, self@.puppets)) by {
                    assert(Seq::new(
                        (self.puppets@.len() - 0) as nat,
                        |i: int| self.puppets@[0 + i]@,
                    ) =~= self@.puppets);
                }
                Ok((step, calls))
            },
        }
    }
}

/// The step for a context into which the paths from `next` on are still to be
/// loaded.
fn next_step(context: Inochi2D, paths: Vec<String>, next: usize) -> (step: BuildStep)
    requires
        next <= paths@.len(),
    ensures
        step@ == step_for(
            context@,
            Seq::new((paths@.len() - next) as nat, |i: int| paths@[next + i]@),
        ),
{
    if next < paths.len() {
        BuildStep::Load(PendingLoad { context, paths, next })
    } else {
        BuildStep::Done(context)
    }
}

impl PendingLoad {
    #[verifier::type_invariant]
    spec fn inv(self) -> bool {
        self.next < self.paths.len()
    }

    /// The path of the puppet that the host is to load now.
    pub fn path(&self) -> (path: &String)
        ensures
            self@.remaining.len() > 0,
            path@ == self@.remaining[0],
    {
        proof {
            use_type_invariant(self);
        }
        &self.paths[self.next]
    }

    /// Takes the outcome of the load that was waited for.
    ///
    /// `handle` is what the native loader returned and `error` is what the
    /// error slot held right after. A successful load joins the context, and
    /// the construction moves on to the next path or is done. A failed load
    /// ends the construction: the paths that remain are abandoned, the error
    /// is the load's, and the calls tear down what was built so far.
    pub fn loaded(
        self,
        handle: InPuppetPtr,
        error: Option<InError>,
    ) -> (result: Result<BuildStep, (Inochi2DError, Vec<NativeCall>)>)
        ensures
            match result {
                Ok(step) => self@.loaded(handle, slot_view(error)) == Ok::<StepView, FailureView>(
                    step@,
                ),
                Err(failed) => failed.0 is Load && self@.loaded(handle, slot_view(error)) == Err::<
                    StepView,
                    FailureView,
                >(FailureView { text: failed.0.text(), calls: failed.1@ }),
            },
    {
        proof {
            use_type_invariant(&self);
        }
        let mut context = self.context;
        let path = self.paths[self.next].clone();
        match context.add_puppet(path, handle, error) {
            Ok(()) => {
                let step = next_step(context, self.paths, self.next + 1);
                proof {
                    assert(Seq::new(
                        (self.paths@.len() - (self.next + 1)) as nat,
                        |i: int| self.paths@[self.next + 1 + i]@,
                    ) =~= self@.remaining.skip(1));
                }
                Ok(step)
            },
            Err(failure) => {
                let calls = context.teardown();
                Err((failure, calls))
            },
        }
    }
}

/// What the native side answered to one load: the handle that the loader
/// returned and what the error slot held right after.
pub struct LoadReply {
    pub handle: InPuppetPtr,
    pub slot: Option<Seq<u8>>,
}

/// Where a construction stands after a number of loads.
pub enum BuildOutcome {
    /// Every puppet is loaded.
    Built(ContextView),
    /// A load failed.
    Failed(FailureView),
    /// A load is waited for.
    Waiting(PendingView),
}

/// Where a construction that stands at `step` gets to when the loads that it
/// asks for are answered by `replies`, in order. Replies beyond the end of the
/// construction are never looked at.
pub open spec fn drive(step: StepView, replies: Seq<LoadReply>) -> BuildOutcome
    decreases replies.len(),
{
    match step {
        StepView::Done(context) => BuildOutcome::Built(context),
        StepView::Load(pending) => if replies.len() == 0 {
            BuildOutcome::Waiting(pending)
        } else {
            match pending.loaded(replies[0].handle, replies[0].slot) {
                Ok(next) => drive(next, replies.skip(1)),
                Err(failure) => BuildOutcome::Failed(failure),
            }
        },
    }
}

/// `context` with the first `count` of `paths` loaded into it, each under the
/// handle of its reply and the name of its path.
pub open spec fn with_loaded(
    context: ContextView,
    paths: Seq<Seq<char>>,
    replies: Seq<LoadReply>,
    count: int,
) -> ContextView {
    ContextView {
        puppets: context.puppets + Seq::new(
            count as nat,
            |i: int| PuppetView { handle: replies[i].handle, name: paths[i] },
        ),
        ..context
    }
}

/// A construction whose loads all succeed ends in a context that holds one
/// puppet for each path, in the order of the paths, each under the name of its
/// path; the viewport is the one it started with.
pub proof fn lemma_build_loads_all(
    context: ContextView,
    paths: Seq<Seq<char>>,
    replies: Seq<LoadReply>,
)
    requires
        replies.len() >= paths.len(),
        forall|i: int| 0 <= i < paths.len() ==> !replies[i].handle.is_null(),
    ensures
        drive(step_for(context, paths), replies) == BuildOutcome::Built(
            with_loaded(context, paths, replies, paths.len() as int),
        ),
    decreases paths.len(),
{
    if paths.len() == 0 {
        assert(with_loaded(context, paths, replies, 0).puppets =~= context.puppets);
    } else {
        let first = PuppetView { handle: replies[0].handle, name: paths[0] };
        let grown = context.with_puppet(first);
        lemma_build_loads_all(grown, paths.skip(1), replies.skip(1));
        assert(with_loaded(grown, paths.skip(1), replies.skip(1), paths.len() - 1).puppets
            =~= with_loaded(context, paths, replies, paths.len() as int).puppets);
    }
}

/// A construction ends at the first load that fails. The error is that
/// load's, the paths after it are abandoned whatever their loads would have
/// answered, and the teardown releases the puppets loaded before it, in order,
/// and then cleans up.
pub proof fn lemma_build_stops_at_first_failure(
    context: ContextView,
    paths: Seq<Seq<char>>,
    replies: Seq<LoadReply>,
    failed: int,
)
    requires
        0 <= failed < paths.len(),
        failed < replies.len(),
        replies[failed].handle.is_null(),
        forall|i: int| 0 <= i < failed ==> !replies[i].handle.is_null(),
    ensures
        drive(step_for(context, paths), replies) == BuildOutcome::Failed(
            FailureView {
                text: load_failure_text(replies[failed].slot),
                calls: with_loaded(context, paths, replies, failed).teardown_calls(),
            },
        ),
    decreases failed,
{
    if failed == 0 {
        assert(with_loaded(context, paths, replies, 0).puppets =~= context.puppets);
    } else {
        let first = PuppetView { handle: replies[0].handle, name: paths[0] };
        let grown = context.with_puppet(first);
        lemma_build_stops_at_first_failure(grown, paths.skip(1), replies.skip(1), failed - 1);
        assert(with_loaded(grown, paths.skip(1), replies.skip(1), failed - 1).puppets
            =~= with_loaded(context, paths, replies, failed).puppets);
    }
}

/// The native state after the loads that `replies` answer, up to `count` of
/// them.
pub open spec fn after_loads(model: NativeModel, replies: Seq<LoadReply>, count: int) -> NativeModel
    decreases count,
{
    if count <= 0 {
        model
    } else {
        after_loads(model, replies, count - 1).loaded(replies[count - 1].handle)
    }
}

/// Whether the first `count` of `replies` are successful loads of puppets
/// that were not loaded before: each handle is other than null, is not among
/// the loaded puppets of `model`, and differs from the handles before it.
pub open spec fn fresh_loads(model: NativeModel, replies: Seq<LoadReply>, count: int) -> bool {
    &&& 0 <= count <= replies.len()
    &&& forall|i: int| 0 <= i < count ==> !(#[trigger] replies[i]).handle.is_null()
    &&& forall|i: int| 0 <= i < count ==> !model.puppets.contains((#[trigger] replies[i]).handle)
    &&& forall|i: int, j: int|
        0 <= i < j < count ==> (#[trigger] replies[i]).handle != (#[trigger] replies[j]).handle
}

/// A context under construction agrees with the native library after every
/// successful load.
pub proof fn lemma_loads_agree(
    context: ContextView,
    model: NativeModel,
    paths: Seq<Seq<char>>,
    replies: Seq<LoadReply>,
    count: int,
)
    requires
        context.agrees(model),
        count <= paths.len(),
        fresh_loads(model, replies, count),
    ensures
        with_loaded(context, paths, replies, count).agrees(after_loads(model, replies, count)),
    decreases count,
{
    if count == 0 {
        assert(with_loaded(context, paths, replies, 0).puppets =~= context.puppets);
        assert(with_loaded(context, paths, replies, 0) == context);
    } else {
        let before = with_loaded(context, paths, replies, count - 1);
        let state = after_loads(model, replies, count - 1);
        let puppet = PuppetView { handle: replies[count - 1].handle, name: paths[count - 1] };
        lemma_loads_agree(context, model, paths, replies, count - 1);
        assert(!state.puppets.contains(puppet.handle)) by {
            let handles = before.handles();
            if handles.contains(puppet.handle) {
                let i = choose|i: int| 0 <= i < handles.len() && handles[i] == puppet.handle;
                if i < context.puppets.len() {
                    assert(context.handles()[i] == puppet.handle);
                    assert(context.handles().contains(puppet.handle));
                } else {
                    assert(replies[i - context.puppets.len()].handle == puppet.handle);
                }
            }
        }
        lemma_add_puppet_agrees(before, state, puppet);
        assert(before.with_puppet(puppet).puppets =~= with_loaded(
            context,
            paths,
            replies,
            count,
        ).puppets);
    }
}

/// A build that fails leaves nothing behind. When the loads before the failed
/// one each returned a puppet that was not loaded before, the calls that come
/// with the failure are allowed in the state that those loads left, they
/// release each of those puppets once, and after them the native library is
/// no longer initialised and holds no puppet.
pub proof fn lemma_failed_build_releases_everything(
    context: ContextView,
    model: NativeModel,
    paths: Seq<Seq<char>>,
    replies: Seq<LoadReply>,
    failed: int,
)
    requires
        context.agrees(model),
        0 <= failed < paths.len(),
        failed < replies.len(),
        replies[failed].handle.is_null(),
        fresh_loads(model, replies, failed),
    ensures
        drive(step_for(context, paths), replies) matches BuildOutcome::Failed(failure) && {
            let state = after_loads(model, replies, failed);
            &&& state.allows_all(failure.calls)
            &&& failure.calls.last() == NativeCall::Cleanup
            &&& state.run(failure.calls) == (NativeModel {
                initialized: false,
                puppets: Set::empty(),
                ..state
            })
        },
{
    lemma_build_stops_at_first_failure(context, paths, replies, failed);
    lemma_loads_agree(context, model, paths, replies, failed);
    lemma_teardown_cleans_up_last(
        with_loaded(context, paths, replies, failed),
        after_loads(model, replies, failed),
    );
}

/// A context that was built with a time source has the viewport that was
/// configured. Whatever puppets were named and whatever their loads answered,
/// if the construction ends in a context then that context mirrors the
/// configured size; the calls that start the build are allowed in a native
/// library that is not yet initialised, and leave its viewport, which is what
/// `get_viewport` returns, at the configured size.
pub proof fn lemma_built_viewport(
    builder: BuilderView,
    timing: InTimingFunc,
    width: i32,
    height: i32,
    replies: Seq<LoadReply>,
    model: NativeModel,
)
    requires
        !model.initialized,
        model.puppets =~= Set::empty(),
    ensures
        builder.timing(timing).viewport(width, height).start() is Some,
        ({
            let started = builder.timing(timing).viewport(width, height).start()->0;
            &&& model.allows_all(started.1)
            &&& model.run(started.1).viewport == (width, height)
            &&& drive(started.0, replies) matches BuildOutcome::Built(context) ==> (
            context.view_width, context.view_height) == (width, height)
        }),
{
    let configured = builder.timing(timing).viewport(width, height);
    lemma_new_agrees(model, timing, width, height);
    lemma_drive_keeps_viewport(
        step_for(configured.fresh_context(), configured.puppets),
        replies,
    );
}

/// The viewport that a step's context mirrors.
pub open spec fn step_viewport(step: StepView) -> (i32, i32) {
    match step {
        StepView::Done(context) => (context.view_width, context.view_height),
        StepView::Load(pending) => (pending.context.view_width, pending.context.view_height),
    }
}

/// Loading puppets leaves the mirrored viewport as it is.
pub proof fn lemma_drive_keeps_viewport(step: StepView, replies: Seq<LoadReply>)
    ensures
        drive(step, replies) matches BuildOutcome::Built(context) ==> (
        context.view_width, context.view_height) == step_viewport(step),
    decreases replies.len(),
{
    if let StepView::Load(pending) = step {
        if replies.len() > 0 {
            if let Ok(next) = pending.loaded(replies[0].handle, replies[0].slot) {
                lemma_drive_keeps_viewport(next, replies.skip(1));
            }
        }
    }
}

/// A build without a time source fails before anything is asked of the native
/// library, whatever else was configured: from a new builder, naming puppets
/// and setting the viewport never makes a build start.
pub proof fn lemma_build_needs_timing(builder: BuilderView)
    requires
        builder.time_func is None,
    ensures
        builder.start() is None,
        BuilderView::new().start() is None,
        forall|width: i32, height: i32| builder.viewport(width, height).start() is None,
        forall|path: Seq<char>| builder.puppet(path).start() is None,
{
}

} // verus!
