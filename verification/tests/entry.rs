use vga_text::boot::boot_message;
use vga_text::boot::start;
use vga_text::boot::BootState;
use vga_text::vga_buffer::ATTRIBUTE;
use vga_text::vga_buffer::BUFFER_CELLS;
use vga_text::vga_buffer::CELL_BYTES;
use vga_text::vga_buffer::TextBuffer;

#[test]
fn boot_message_is_hello_world() {
    let msg = boot_message();
    assert_eq!(msg, vec![72, 101, 108, 108, 111, 32, 87, 111, 114, 108, 100, 33]);
    assert_eq!(msg.len(), 12);
}

#[test]
fn startup_renders_greeting_and_halts() {
    let mut buf = TextBuffer::new();
    let msg = boot_message();
    let state = start(&mut buf, msg.as_slice(), true);
    assert!(matches!(state, BootState::Halted));
    for i in 0..msg.len() {
        assert_eq!(buf.char_at(i), msg[i]);
        assert_eq!(buf.attr_at(i), ATTRIBUTE);
    }
    for c in msg.len()..BUFFER_CELLS {
        assert_eq!(buf.char_at(c), 0);
        assert_eq!(buf.attr_at(c), 0);
    }
}

#[test]
fn startup_without_message_leaves_buffer_blank() {
    // One build of the entry routine omits the display write: it must still
    // halt, with the buffer untouched.
    let mut buf = TextBuffer::new();
    let msg = boot_message();
    let state = start(&mut buf, msg.as_slice(), false);
    assert!(matches!(state, BootState::Halted));
    for j in 0..BUFFER_CELLS * CELL_BYTES {
        assert_eq!(buf.byte_at(j), 0);
    }
}
