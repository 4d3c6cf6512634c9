use enigo::wayland::{
    absolute_motion, after_mapping, interface_kind, key_request, raw_phases, raw_request,
    GlobalActions, Interface, MapStep, OutputInfo, RawRequest, Registry,
};
use enigo::{Direction, InputError, NewConError};

#[test]
fn interface_names() {
    assert_eq!(interface_kind("wl_seat"), Interface::Seat);
    assert_eq!(interface_kind("wl_output"), Interface::Output);
    assert_eq!(interface_kind("zwp_input_method_manager_v2"), Interface::InputMethodManager);
    assert_eq!(
        interface_kind("zwp_virtual_keyboard_manager_v1"),
        Interface::VirtualKeyboardManager
    );
    assert_eq!(
        interface_kind("zwlr_virtual_pointer_manager_v1"),
        Interface::VirtualPointerManager
    );
    assert_eq!(interface_kind("wl_compositor"), Interface::Other);
    assert_eq!(interface_kind("wl_sea"), Interface::Other);
}

#[test]
fn virtual_keyboard_needs_seat_and_manager_in_either_order() {
    let mut r = Registry::new();
    let a = r.global_announced(Interface::Seat, 1, 7);
    assert!(a.bind && !a.create_virtual_keyboard);
    let a = r.global_announced(Interface::VirtualKeyboardManager, 2, 1);
    assert!(a.create_virtual_keyboard);
    assert!(r.objects.virtual_keyboard);

    let mut r = Registry::new();
    let a = r.global_announced(Interface::VirtualKeyboardManager, 2, 1);
    assert!(!a.create_virtual_keyboard);
    let a = r.global_announced(Interface::Seat, 1, 7);
    assert!(a.create_virtual_keyboard);
    assert!(!a.create_input_method && !a.create_virtual_pointer);
    // a second seat does not create a second keyboard
    let a = r.global_announced(Interface::Seat, 3, 7);
    assert!(!a.create_virtual_keyboard);
}

#[test]
fn unknown_globals_are_recorded_but_not_bound() {
    let mut r = Registry::new();
    let a = r.global_announced(Interface::Other, 9, 1);
    assert_eq!(
        a,
        GlobalActions {
            bind: false,
            create_input_method: false,
            create_virtual_keyboard: false,
            create_virtual_pointer: false
        }
    );
    assert_eq!(r.globals, vec![(Interface::Other, 9, 1)]);
}

#[test]
fn removing_globals() {
    let mut r = Registry::new();
    r.global_announced(Interface::Seat, 1, 7);
    r.global_announced(Interface::InputMethodManager, 2, 1);
    r.global_announced(Interface::VirtualPointerManager, 3, 1);
    assert!(r.objects.input_method && r.objects.virtual_pointer);
    assert_eq!(r.global_removed(42), None);
    assert_eq!(r.global_removed(1), Some(Interface::Seat));
    assert!(!r.objects.seat && !r.objects.im_manager);
    // the pointer manager stays
    assert!(r.objects.pointer_manager);
    assert_eq!(r.globals.len(), 2);
    assert_eq!(r.global_removed(3), Some(Interface::VirtualPointerManager));
    assert!(!r.objects.pointer_manager);
}

#[test]
fn outputs_and_the_main_display() {
    let mut r = Registry::new();
    assert_eq!(r.main_display(), Err(InputError::Simulate("No screens available")));
    r.global_announced(Interface::Output, 5, 4);
    r.output_bound(20);
    r.output_mode(20, false, 800, 600);
    assert_eq!(r.main_display(), Ok((0, 0)));
    r.output_mode(20, true, 1920, 1080);
    assert_eq!(r.main_display(), Ok((1920, 1080)));
    r.output_geometry(20, true);
    assert_eq!(r.main_display(), Ok((1080, 1920)));
    r.output_mode(99, true, 1, 1);
    assert_eq!(
        r.outputs,
        vec![(20, OutputInfo { width: 1920, height: 1080, transform: true })]
    );
    // the output is dropped when a removed output global has its id as name
    r.global_announced(Interface::Output, 20, 4);
    assert_eq!(r.global_removed(20), Some(Interface::Output));
    assert!(r.outputs.is_empty());
}

#[test]
fn input_method_serial_wraps() {
    let mut r = Registry::new();
    r.input_method_done();
    assert_eq!(r.im_serial, 1);
    r.im_serial = u32::MAX;
    r.input_method_done();
    assert_eq!(r.im_serial, 0);
}

#[test]
fn seat_devices_are_requested_once() {
    let mut r = Registry::new();
    assert_eq!(r.seat_capabilities(true, false), (true, false));
    assert_eq!(r.seat_capabilities(true, true), (false, true));
    assert_eq!(r.seat_capabilities(true, true), (false, false));
}

#[test]
fn a_connection_needs_a_protocol() {
    let mut r = Registry::new();
    assert_eq!(
        r.check_available_protocols(),
        Err(NewConError::EstablishCon("no protocol available to simulate input"))
    );
    r.global_announced(Interface::VirtualPointerManager, 1, 1);
    r.global_announced(Interface::Seat, 2, 1);
    assert_eq!(r.check_available_protocols(), Ok(()));
}

#[test]
fn key_requests() {
    assert_eq!(key_request(38, Direction::Press), Ok((30, 1)));
    assert_eq!(key_request(38, Direction::Release), Ok((30, 0)));
    assert_eq!(
        key_request(38, Direction::Click),
        Err(InputError::Simulate(
            "impossible direction, this should never be possible. This function must never be called with Direction::Click"
        ))
    );
}

#[test]
fn absolute_motions() {
    assert_eq!(absolute_motion(10, 20, 1920, 1080), Ok((10, 20, 1920, 1080)));
    assert_eq!(
        absolute_motion(-1, 20, -5, 1080),
        Err(InputError::InvalidInput("x_extend cannot be negative"))
    );
    assert_eq!(
        absolute_motion(-1, 20, 5, -1),
        Err(InputError::InvalidInput("y_extend cannot be negative"))
    );
    assert_eq!(
        absolute_motion(1, -20, 5, 5),
        Err(InputError::InvalidInput("the absolute coordinates cannot be negative"))
    );
}

#[test]
fn mapping_outcomes() {
    assert_eq!(after_mapping(Ok(42)), MapStep::Use(42));
    assert_eq!(
        after_mapping(Err(InputError::Mapping("full".to_string()))),
        MapStep::UnmapAndRetry
    );
    assert_eq!(
        after_mapping(Err(InputError::Simulate("x"))),
        MapStep::Fail(InputError::Mapping("unable to map the key".to_string()))
    );
}

#[test]
fn raw_key_events() {
    assert_eq!(raw_phases(Direction::Click), vec![Direction::Press, Direction::Release]);
    assert_eq!(raw_phases(Direction::Release), vec![Direction::Release]);
    assert_eq!(raw_request(50, Direction::Press, None), RawRequest::Key(42, 1));
    assert_eq!(raw_request(50, Direction::Release, None), RawRequest::Key(42, 0));
    assert_eq!(
        raw_request(50, Direction::Press, Some((1, 0, 0, 0))),
        RawRequest::Modifiers(1, 0, 0, 0)
    );
}
