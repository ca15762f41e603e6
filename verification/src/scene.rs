//! The scene bracket: the begin/end pairing around native drawing.

use crate::ffi::{NativeCall, Scalar};
use crate::native::{lemma_run_concat, lemma_run_push, NativeModel};
use vstd::prelude::*;

verus! {

/// The state of the scene bracket.
#[derive(Clone, Copy, Debug, PartialEq, Eq, Structural)]
pub enum Bracket {
    /// No scene is under way.
    Idle,
    /// A scene is under way: its begin has been asked for and its end has not.
    Open,
}

/// A scene under way.
///
/// Constructing it opens the bracket and [`Inochi2DScene::end`] closes it; in
/// between, each [`Inochi2DScene::draw`] closes the bracket, draws, and opens
/// it again.
#[derive(Debug)]
pub struct Inochi2DScene {
    state: Bracket,
}

impl View for Inochi2DScene {
    type V = Bracket;

    closed spec fn view(&self) -> Bracket {
        self.state
    }
}

/// The calls that draw the scene into one region.
pub open spec fn draw_calls(x: Scalar, y: Scalar, width: Scalar, height: Scalar) -> Seq<
    NativeCall,
> {
    seq![
        NativeCall::SceneEnd,
        NativeCall::SceneDraw { x, y, width, height },
        NativeCall::SceneBegin,
    ]
}

impl Inochi2DScene {
    /// Opens the bracket: the scene starts out open, and the call to make is
    /// the native begin.
    pub fn new() -> (made: (Self, NativeCall))
        ensures
            made.0@ == Bracket::Open,
            made.1 == NativeCall::SceneBegin,
    {
        (Inochi2DScene { state: Bracket::Open }, NativeCall::SceneBegin)
    }

    /// The state of the bracket.
    pub fn state(&self) -> (state: Bracket)
        ensures
            state == self@,
    {
        self.state
    }

    /// Whether the bracket is open.
    pub fn is_open(&self) -> (open: bool)
        ensures
            open == (self@ == Bracket::Open),
    {
        match self.state {
            Bracket::Open => true,
            Bracket::Idle => false,
        }
    }

    /// Draws the scene into the region at `(x, y)` of size `width` by
    /// `height`. The bracket must be open, and is open again afterwards: the
    /// calls are end, draw, begin, in that order.
    pub fn draw(
        &mut self,
        x: Scalar,
        y: Scalar,
        width: Scalar,
        height: Scalar,
    ) -> (calls: Vec<NativeCall>)
        requires
            old(self)@ == Bracket::Open,
        ensures
            calls@ == draw_calls(x, y, width, height),
            final(self)@ == Bracket::Open,
    {
        let mut calls: Vec<NativeCall> = Vec::new();
        calls.push(NativeCall::SceneEnd);
        calls.push(NativeCall::SceneDraw { x, y, width, height });
        calls.push(NativeCall::SceneBegin);
        assert(calls@ =~= draw_calls(x, y, width, height));
        calls
    }

    /// Closes the bracket. An open scene asks for the native end and becomes
    /// idle; an idle scene asks for nothing, so the end is asked for once.
    pub fn end(&mut self) -> (call: Option<NativeCall>)
        ensures
            final(self)@ == Bracket::Idle,
            call == (if old(self)@ == Bracket::Open {
                Some(NativeCall::SceneEnd)
            } else {
                None
            }),
    {
        match self.state {
            Bracket::Open => {
                self.state = Bracket::Idle;
                Some(NativeCall::SceneEnd)
            },
            Bracket::Idle => None,
        }
    }
}

/// The state of the bracket as the native library has it.
pub open spec fn bracket_of(model: NativeModel) -> Bracket {
    if model.scene_open {
        Bracket::Open
    } else {
        Bracket::Idle
    }
}

/// A region that a scene is drawn into.
pub struct Region {
    pub x: Scalar,
    pub y: Scalar,
    pub width: Scalar,
    pub height: Scalar,
}

/// The calls of a scene from its construction up to and including its draws
/// into `regions`, one after the other.
pub open spec fn scene_calls(regions: Seq<Region>) -> Seq<NativeCall>
    decreases regions.len(),
{
    if regions.len() == 0 {
        seq![NativeCall::SceneBegin]
    } else {
        let last = regions.last();
        scene_calls(regions.drop_last()) + draw_calls(last.x, last.y, last.width, last.height)
    }
}

/// The calls of a whole scene: its construction, its draws into `regions`, and
/// its end.
pub open spec fn lifetime_calls(regions: Seq<Region>) -> Seq<NativeCall> {
    scene_calls(regions).push(NativeCall::SceneEnd)
}

/// One draw, made while the native bracket is open, is allowed and leaves the
/// native library as it found it, the bracket open again.
pub proof fn lemma_draw_keeps_bracket(
    model: NativeModel,
    x: Scalar,
    y: Scalar,
    width: Scalar,
    height: Scalar,
)
    requires
        model.initialized,
        model.scene_open,
    ensures
        model.allows_all(draw_calls(x, y, width, height)),
        model.run(draw_calls(x, y, width, height)) == model,
{
    let none = Seq::<NativeCall>::empty();
    let one = none.push(NativeCall::SceneEnd);
    let two = one.push(NativeCall::SceneDraw { x, y, width, height });
    let three = two.push(NativeCall::SceneBegin);
    lemma_run_push(model, none, NativeCall::SceneEnd);
    lemma_run_push(model, one, NativeCall::SceneDraw { x, y, width, height });
    lemma_run_push(model, two, NativeCall::SceneBegin);
    assert(three =~= draw_calls(x, y, width, height));
}

/// The bracket over the life of a scene. From an initialised native library
/// whose bracket is closed: after construction and after any number of draws
/// the bracket is open and nothing else has changed; every call of the scene
/// is one that the native library allows; after the end the bracket is closed;
/// and the first call is the begin, so no draw comes before the bracket was
/// first opened.
pub proof fn lemma_scene_bracket(model: NativeModel, regions: Seq<Region>)
    requires
        model.initialized,
        !model.scene_open,
    ensures
        model.allows_all(scene_calls(regions)),
        model.run(scene_calls(regions)) == (NativeModel { scene_open: true, ..model }),
        bracket_of(model.run(scene_calls(regions))) == Bracket::Open,
        model.allows_all(lifetime_calls(regions)),
        model.run(lifetime_calls(regions)) == model,
        bracket_of(model.run(lifetime_calls(regions))) == Bracket::Idle,
        lifetime_calls(regions)[0] == NativeCall::SceneBegin,
        forall|i: int|
            0 <= i < lifetime_calls(regions).len() && lifetime_calls(regions)[i] is SceneDraw ==> i
                > 0,
    decreases regions.len(),
{
    let open = NativeModel { scene_open: true, ..model };
    if regions.len() == 0 {
        lemma_run_push(model, Seq::empty(), NativeCall::SceneBegin);
        assert(scene_calls(regions) =~= Seq::<NativeCall>::empty().push(NativeCall::SceneBegin));
    } else {
        let last = regions.last();
        let before = scene_calls(regions.drop_last());
        lemma_scene_bracket(model, regions.drop_last());
        lemma_draw_keeps_bracket(open, last.x, last.y, last.width, last.height);
        lemma_run_concat(model, before, draw_calls(last.x, last.y, last.width, last.height));
        assert(before[0] == NativeCall::SceneBegin) by {
            assert(lifetime_calls(regions.drop_last())[0] == before[0]);
        }
    }
    lemma_run_push(model, scene_calls(regions), NativeCall::SceneEnd);
    assert(NativeModel { scene_open: false, ..open } == model);
}

} // verus!
