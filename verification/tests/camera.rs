use inochi2d_rs::camera::{CameraReading, Inochi2DCamera};
use inochi2d_rs::ffi::{InCameraPtr, NativeCall, Scalar};

fn scalar(value: f32) -> Scalar {
    Scalar { bits: value.to_bits() }
}

fn handle() -> InCameraPtr {
    InCameraPtr { addr: 0xca }
}

fn current() -> CameraReading {
    CameraReading { handle: handle(), zoom: scalar(1.0), x: scalar(10.0), y: scalar(-20.0) }
}

#[test]
fn new_camera_keeps_what_was_not_asked_for() {
    let (camera, calls) = Inochi2DCamera::new(None, None, None, current());
    assert_eq!(camera.handle(), handle());
    assert_eq!(camera.cached_zoom(), scalar(1.0));
    assert_eq!(camera.cached_pos(), (scalar(10.0), scalar(-20.0)));
    assert_eq!(
        calls,
        vec![
            NativeCall::CameraSetZoom { camera: handle(), zoom: scalar(1.0) },
            NativeCall::CameraSetPosition { camera: handle(), x: scalar(10.0), y: scalar(-20.0) },
        ]
    );
}

#[test]
fn new_camera_sets_only_the_zoom() {
    let (camera, calls) = Inochi2DCamera::new(Some(scalar(0.15)), None, None, current());
    assert_eq!(camera.cached_zoom(), scalar(0.15));
    assert_eq!(camera.cached_pos(), (scalar(10.0), scalar(-20.0)));
    assert_eq!(
        calls,
        vec![
            NativeCall::CameraSetZoom { camera: handle(), zoom: scalar(0.15) },
            NativeCall::CameraSetPosition { camera: handle(), x: scalar(10.0), y: scalar(-20.0) },
        ]
    );
}

#[test]
fn new_camera_sets_one_coordinate() {
    let (camera, calls) = Inochi2DCamera::new(None, None, Some(scalar(5.0)), current());
    assert_eq!(camera.cached_pos(), (scalar(10.0), scalar(5.0)));
    assert_eq!(
        calls[1],
        NativeCall::CameraSetPosition { camera: handle(), x: scalar(10.0), y: scalar(5.0) }
    );
    let (camera, calls) = Inochi2DCamera::new(None, Some(scalar(7.0)), None, current());
    assert_eq!(camera.cached_pos(), (scalar(7.0), scalar(-20.0)));
    assert_eq!(
        calls[1],
        NativeCall::CameraSetPosition { camera: handle(), x: scalar(7.0), y: scalar(-20.0) }
    );
}

#[test]
fn new_camera_sets_everything_asked_for() {
    let (camera, calls) =
        Inochi2DCamera::new(Some(scalar(2.0)), Some(scalar(3.0)), Some(scalar(4.0)), current());
    assert_eq!(camera.cached_zoom(), scalar(2.0));
    assert_eq!(camera.cached_pos(), (scalar(3.0), scalar(4.0)));
    assert_eq!(
        calls,
        vec![
            NativeCall::CameraSetZoom { camera: handle(), zoom: scalar(2.0) },
            NativeCall::CameraSetPosition { camera: handle(), x: scalar(3.0), y: scalar(4.0) },
        ]
    );
}

#[test]
fn a_zoom_of_zero_asked_for_is_not_taken_for_absent() {
    let (camera, calls) = Inochi2DCamera::new(Some(scalar(0.0)), None, None, current());
    assert_eq!(camera.cached_zoom(), scalar(0.0));
    assert_eq!(calls[0], NativeCall::CameraSetZoom { camera: handle(), zoom: scalar(0.0) });
}

#[test]
fn zoom_set_then_get_round_trips() {
    let (mut camera, _) = Inochi2DCamera::new(None, None, None, current());
    for bits in [0u32, 0x3e19_999a, 0x7fc0_0001, 0xffff_ffff, 0x8000_0000, 0x0000_0001] {
        let written = Scalar { bits };
        let native = match camera.set_zoom(written) {
            NativeCall::CameraSetZoom { camera: target, zoom } => {
                assert_eq!(target, handle());
                zoom
            }
            other => panic!("expected a zoom call, got {:?}", other),
        };
        assert_eq!(camera.cached_zoom(), written);
        assert_eq!(camera.get_zoom(native), written);
        assert_eq!(camera.get_zoom(native).bits, bits);
    }
}

#[test]
fn get_zoom_trusts_the_native_reading_over_the_mirror() {
    let (mut camera, _) = Inochi2DCamera::new(Some(scalar(2.0)), None, None, current());
    assert_eq!(camera.get_zoom(scalar(0.5)), scalar(0.5));
    assert_eq!(camera.cached_zoom(), scalar(0.5));
    assert_eq!(camera.cached_pos(), (scalar(10.0), scalar(-20.0)));
}

#[test]
fn set_pos_forwards_and_mirrors() {
    let (mut camera, _) = Inochi2DCamera::new(None, None, None, current());
    let call = camera.set_pos(scalar(0.5), scalar(0.25));
    assert_eq!(
        call,
        NativeCall::CameraSetPosition { camera: handle(), x: scalar(0.5), y: scalar(0.25) }
    );
    assert_eq!(camera.cached_pos(), (scalar(0.5), scalar(0.25)));
    assert_eq!(camera.cached_zoom(), scalar(1.0));
}

#[test]
fn get_pos_trusts_the_native_reading_over_the_mirror() {
    let (mut camera, _) = Inochi2DCamera::new(None, None, None, current());
    assert_eq!(camera.get_pos((scalar(1.0), scalar(2.0))), (scalar(1.0), scalar(2.0)));
    assert_eq!(camera.cached_pos(), (scalar(1.0), scalar(2.0)));
    assert_eq!(camera.cached_zoom(), scalar(1.0));
}

#[test]
fn offset_and_real_size_pass_through_and_leave_the_mirror() {
    let (mut camera, _) = Inochi2DCamera::new(None, None, None, current());
    assert_eq!(camera.get_offset((scalar(400.0), scalar(300.0))), (scalar(400.0), scalar(300.0)));
    assert_eq!(
        camera.get_real_size((scalar(1600.0), scalar(1200.0))),
        (scalar(1600.0), scalar(1200.0))
    );
    assert_eq!(camera.cached_zoom(), scalar(1.0));
    assert_eq!(camera.cached_pos(), (scalar(10.0), scalar(-20.0)));
}

#[test]
fn matrix_keeps_every_bit_and_the_order() {
    let (mut camera, _) = Inochi2DCamera::new(None, None, None, current());
    let mut native = [Scalar { bits: 0 }; 16];
    for (i, entry) in native.iter_mut().enumerate() {
        entry.bits = 0x7fc0_0000 ^ ((i as u32) * 0x0101_0101);
    }
    let matrix = camera.get_matrix(native);
    assert_eq!(matrix.len(), 16);
    for i in 0..16 {
        assert_eq!(matrix[i].bits, 0x7fc0_0000 ^ ((i as u32) * 0x0101_0101));
    }
    assert_eq!(camera.cached_zoom(), scalar(1.0));
}

#[test]
fn release_names_the_handle() {
    let (camera, _) = Inochi2DCamera::new(None, None, None, current());
    assert_eq!(camera.release(), NativeCall::CameraDestroy { camera: handle() });
}
