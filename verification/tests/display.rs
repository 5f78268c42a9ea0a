use big_types::borrowed;
use big_types::owned;
use big_types::{DisplayError, Interface, Object, DRAW_COMMAND, INIT_COMMAND};

#[test]
fn owned_new_zero_initializes_buffer() {
    let iface = Interface::new(Vec::new());
    let display = owned::Display::new(iface).unwrap();
    assert_eq!(display.buffer_len(), 1024);
    let mut i: usize = 0;
    while i < display.buffer_len() {
        assert_eq!(display.buffer_byte(i), 0);
        i += 1;
    }
}

#[test]
fn owned_new_sends_exactly_the_init_command() {
    let iface = Interface::new(Vec::new());
    let display = owned::Display::new(iface).unwrap();
    assert_eq!(display.sent_len(), 1);
    assert_eq!(display.sent_byte(0), INIT_COMMAND);
}

#[test]
fn owned_new_fails_when_transport_rejects_init() {
    let iface = Interface::new(vec![false]);
    let r = owned::Display::new(iface);
    assert!(matches!(r, Err(DisplayError::IfaceError)));
}

#[test]
fn owned_draw_pushes_one_draw_command() {
    let iface = Interface::new(Vec::new());
    let mut display = owned::Display::new(iface).unwrap();
    assert!(display.draw(Object).is_ok());
    assert_eq!(display.sent_len(), 2);
    assert_eq!(display.sent_byte(0), INIT_COMMAND);
    assert_eq!(display.sent_byte(1), DRAW_COMMAND);
}

#[test]
fn owned_draw_surfaces_transport_error_and_keeps_buffer() {
    let iface = Interface::new(vec![true, false]);
    let mut display = owned::Display::new(iface).unwrap();
    let r = display.draw(Object);
    assert!(matches!(r, Err(DisplayError::IfaceError)));
    // nothing reached the hardware beyond the init command
    assert_eq!(display.sent_len(), 1);
    // the frame buffer is left in its previous, defined state
    let mut i: usize = 0;
    while i < display.buffer_len() {
        assert_eq!(display.buffer_byte(i), 0);
        i += 1;
    }
    // once the transport recovers, drawing works again
    assert!(display.draw(Object).is_ok());
    assert_eq!(display.sent_len(), 2);
}

#[test]
fn borrowed_new_keeps_caller_supplied_contents() {
    let mut frame_buffer = [7u8; 1024];
    {
        let iface = Interface::new(Vec::new());
        let mut display = borrowed::Display::new(iface, &mut frame_buffer).unwrap();
        assert_eq!(display.sent_len(), 1);
        assert_eq!(display.sent_byte(0), INIT_COMMAND);
        assert!(display.draw(Object).is_ok());
        assert_eq!(display.sent_len(), 2);
        assert_eq!(display.sent_byte(1), DRAW_COMMAND);
    }
    // the display never touched the borrowed storage
    let mut i: usize = 0;
    while i < frame_buffer.len() {
        assert_eq!(frame_buffer[i], 7);
        i += 1;
    }
}

#[test]
fn borrowed_new_fails_and_releases_buffer_unchanged() {
    let mut frame_buffer = [42u8; 1024];
    {
        let iface = Interface::new(vec![false]);
        let r = borrowed::Display::new(iface, &mut frame_buffer);
        assert!(matches!(r, Err(DisplayError::IfaceError)));
    }
    let mut i: usize = 0;
    while i < frame_buffer.len() {
        assert_eq!(frame_buffer[i], 42);
        i += 1;
    }
}

#[test]
fn variants_behave_identically_on_the_same_transport() {
    // same scripted transport for both variants: init accepted, first draw
    // rejected, second draw accepted
    let plan = vec![true, false, true];

    let mut owned_display = owned::Display::new(Interface::new(plan.clone())).unwrap();
    let mut frame_buffer = [0u8; 1024];
    let mut borrowed_display =
        borrowed::Display::new(Interface::new(plan), &mut frame_buffer).unwrap();

    let owned_first = owned_display.draw(Object);
    let borrowed_first = borrowed_display.draw(Object);
    assert!(matches!(owned_first, Err(DisplayError::IfaceError)));
    assert!(matches!(borrowed_first, Err(DisplayError::IfaceError)));

    let owned_second = owned_display.draw(Object);
    let borrowed_second = borrowed_display.draw(Object);
    assert!(owned_second.is_ok());
    assert!(borrowed_second.is_ok());

    // byte-identical command logs
    assert_eq!(owned_display.sent_len(), borrowed_display.sent_len());
    let mut i: usize = 0;
    while i < owned_display.sent_len() {
        assert_eq!(owned_display.sent_byte(i), borrowed_display.sent_byte(i));
        i += 1;
    }
}

#[test]
fn variants_reject_the_same_transports() {
    let r_owned = owned::Display::new(Interface::new(vec![false]));
    let mut frame_buffer = [0u8; 1024];
    let r_borrowed = borrowed::Display::new(Interface::new(vec![false]), &mut frame_buffer);
    assert!(matches!(r_owned, Err(DisplayError::IfaceError)));
    assert!(matches!(r_borrowed, Err(DisplayError::IfaceError)));
}

#[test]
fn write_cmd_consumes_the_plan_front_to_back() {
    let mut iface = Interface::new(vec![false, true]);
    assert!(iface.write_cmd(9).is_err());
    assert_eq!(iface.sent_len(), 0);
    assert!(iface.write_cmd(9).is_ok());
    assert_eq!(iface.sent_len(), 1);
    assert_eq!(iface.sent_byte(0), 9);
    // an exhausted plan accepts every further send
    assert!(iface.write_cmd(3).is_ok());
    assert_eq!(iface.sent_len(), 2);
    assert_eq!(iface.sent_byte(1), 3);
}
