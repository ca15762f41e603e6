use inochi2d_rs::context::Inochi2D;
use inochi2d_rs::error::Inochi2DError;
use inochi2d_rs::ffi::{InError, InPuppetPtr, InTimingFunc, NativeCall};

fn timing_func() -> InTimingFunc {
    InTimingFunc { addr: 0x1000 }
}

fn puppet(addr: usize) -> InPuppetPtr {
    InPuppetPtr { addr }
}

#[test]
fn test_initialization() {
    let (_ctx, calls) = Inochi2D::new(timing_func(), 800, 600);
    assert_eq!(
        calls,
        vec![
            NativeCall::Init { timing: timing_func() },
            NativeCall::ViewportSet { width: 800, height: 600 },
        ]
    );
}

#[test]
fn new_context_mirrors_viewport_and_holds_no_puppets() {
    let (ctx, _) = Inochi2D::new(timing_func(), 800, 600);
    assert_eq!(ctx.view_width(), 800);
    assert_eq!(ctx.view_height(), 600);
    assert!(ctx.puppets().is_empty());
}

#[test]
fn add_puppet_appends_in_order() {
    let (mut ctx, _) = Inochi2D::new(timing_func(), 800, 600);
    assert!(ctx.add_puppet("a.inx".to_string(), puppet(0x10), None).is_ok());
    assert!(ctx.add_puppet("b.inx".to_string(), puppet(0x20), None).is_ok());
    let puppets = ctx.puppets();
    assert_eq!(puppets.len(), 2);
    assert_eq!(puppets[0].handle(), puppet(0x10));
    assert_eq!(puppets[0].name(), "a.inx");
    assert_eq!(puppets[1].handle(), puppet(0x20));
    assert_eq!(puppets[1].name(), "b.inx");
}

#[test]
fn add_puppet_failure_leaves_context_unchanged() {
    let (mut ctx, _) = Inochi2D::new(timing_func(), 800, 600);
    ctx.add_puppet("a.inx".to_string(), puppet(0x10), None).unwrap();
    let slot = Some(InError::new(b"no such file".to_vec()));
    let result = ctx.add_puppet("missing.inx".to_string(), InPuppetPtr::null(), slot);
    match result {
        Err(Inochi2DError::Load { message }) => assert_eq!(message, "no such file"),
        other => panic!("expected a load failure, got {:?}", other),
    }
    assert_eq!(ctx.puppets().len(), 1);
    assert_eq!(ctx.puppets()[0].handle(), puppet(0x10));
    assert_eq!(ctx.view_width(), 800);
    assert_eq!(ctx.view_height(), 600);
}

#[test]
fn add_puppet_ignores_a_stale_slot_on_success() {
    let (mut ctx, _) = Inochi2D::new(timing_func(), 800, 600);
    let stale = Some(InError::new(b"an older failure".to_vec()));
    assert!(ctx.add_puppet("a.inx".to_string(), puppet(0x10), stale).is_ok());
    assert_eq!(ctx.puppets().len(), 1);
}

#[test]
fn update_puppets_asks_for_one_update_each_in_order() {
    let (mut ctx, _) = Inochi2D::new(timing_func(), 800, 600);
    ctx.add_puppet("a".to_string(), puppet(3), None).unwrap();
    ctx.add_puppet("b".to_string(), puppet(1), None).unwrap();
    ctx.add_puppet("c".to_string(), puppet(2), None).unwrap();
    assert_eq!(
        ctx.update_puppets(),
        vec![
            NativeCall::PuppetUpdate { puppet: puppet(3) },
            NativeCall::PuppetUpdate { puppet: puppet(1) },
            NativeCall::PuppetUpdate { puppet: puppet(2) },
        ]
    );
    assert_eq!(ctx.puppets().len(), 3);
}

#[test]
fn draw_puppets_asks_for_one_draw_each_in_order() {
    let (mut ctx, _) = Inochi2D::new(timing_func(), 800, 600);
    ctx.add_puppet("a".to_string(), puppet(3), None).unwrap();
    ctx.add_puppet("b".to_string(), puppet(1), None).unwrap();
    assert_eq!(
        ctx.draw_puppets(),
        vec![
            NativeCall::PuppetDraw { puppet: puppet(3) },
            NativeCall::PuppetDraw { puppet: puppet(1) },
        ]
    );
}

#[test]
fn update_and_draw_of_an_empty_context_ask_for_nothing() {
    let (mut ctx, _) = Inochi2D::new(timing_func(), 800, 600);
    assert!(ctx.update_puppets().is_empty());
    assert!(ctx.draw_puppets().is_empty());
}

#[test]
fn set_viewport_forwards_and_mirrors() {
    let (mut ctx, _) = Inochi2D::new(timing_func(), 800, 600);
    let call = ctx.set_viewport(1920, 1080);
    assert_eq!(call, NativeCall::ViewportSet { width: 1920, height: 1080 });
    assert_eq!((ctx.view_width(), ctx.view_height()), (1920, 1080));
}

#[test]
fn set_viewport_does_not_validate() {
    let (mut ctx, _) = Inochi2D::new(timing_func(), 800, 600);
    let call = ctx.set_viewport(-1, i32::MIN);
    assert_eq!(call, NativeCall::ViewportSet { width: -1, height: i32::MIN });
    assert_eq!((ctx.view_width(), ctx.view_height()), (-1, i32::MIN));
}

#[test]
fn get_viewport_returns_the_native_reading_and_mirrors_it() {
    let (mut ctx, _) = Inochi2D::new(timing_func(), 800, 600);
    assert_eq!(ctx.get_viewport((640, 480)), (640, 480));
    assert_eq!((ctx.view_width(), ctx.view_height()), (640, 480));
}

#[test]
fn viewport_set_then_get_round_trips() {
    let (mut ctx, _) = Inochi2D::new(timing_func(), 800, 600);
    let native = match ctx.set_viewport(1024, 768) {
        NativeCall::ViewportSet { width, height } => (width, height),
        other => panic!("expected a viewport call, got {:?}", other),
    };
    assert_eq!(ctx.get_viewport(native), (1024, 768));
}

#[test]
fn teardown_releases_puppets_then_cleans_up_last() {
    let (mut ctx, _) = Inochi2D::new(timing_func(), 800, 600);
    ctx.add_puppet("a".to_string(), puppet(3), None).unwrap();
    ctx.add_puppet("b".to_string(), puppet(1), None).unwrap();
    ctx.add_puppet("c".to_string(), puppet(2), None).unwrap();
    let calls = ctx.teardown();
    assert_eq!(
        calls,
        vec![
            NativeCall::PuppetDestroy { puppet: puppet(3) },
            NativeCall::PuppetDestroy { puppet: puppet(1) },
            NativeCall::PuppetDestroy { puppet: puppet(2) },
            NativeCall::Cleanup,
        ]
    );
    assert_eq!(calls.last(), Some(&NativeCall::Cleanup));
    assert_eq!(calls.iter().filter(|c| **c == NativeCall::Cleanup).count(), 1);
}

#[test]
fn teardown_of_an_empty_context_only_cleans_up() {
    let (ctx, _) = Inochi2D::new(timing_func(), 800, 600);
    assert_eq!(ctx.teardown(), vec![NativeCall::Cleanup]);
}

#[test]
fn teardown_does_not_release_a_puppet_that_failed_to_load() {
    let (mut ctx, _) = Inochi2D::new(timing_func(), 800, 600);
    ctx.add_puppet("a".to_string(), puppet(3), None).unwrap();
    assert!(ctx.add_puppet("b".to_string(), InPuppetPtr::null(), None).is_err());
    assert_eq!(
        ctx.teardown(),
        vec![NativeCall::PuppetDestroy { puppet: puppet(3) }, NativeCall::Cleanup]
    );
}
