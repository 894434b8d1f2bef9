//! The boot entry's startup sequence, as a verified state machine.

use crate::vga_buffer::BUFFER_CELLS;
use crate::vga_buffer::START_OFFSET;
use crate::vga_buffer::TextBuffer;
use crate::vga_buffer::written;
use vstd::prelude::*;

verus! {

/// The two states of the entry routine: `Running` from the moment the
/// loader transfers control, `Halted` once the startup work is done.
/// `Halted` is terminal: no transition leaves it.
pub enum BootState {
    Running,
    Halted,
}

/// The fixed greeting, as the byte codes of `Hello World!`.
pub open spec fn boot_message_spec() -> Seq<u8> {
    seq![72u8, 101u8, 108u8, 108u8, 111u8, 32u8, 87u8, 111u8, 114u8, 108u8, 100u8, 33u8]
}

/// The fixed greeting as an owned byte vector, for the entry routine and
/// for a simulated machine alike.
pub fn boot_message() -> (r: Vec<u8>)
    ensures
        r@ == boot_message_spec(),
{
    let r: Vec<u8> = vec![72u8, 101u8, 108u8, 108u8, 111u8, 32u8, 87u8, 111u8, 114u8, 108u8, 100u8, 33u8];
    proof {
        assert(r@ =~= boot_message_spec());
    }
    r
}

/// The startup sequence, from the hand-off by the loader to the terminal
/// state: render the message (an explicitly toggled step, since one build
/// of the entry routine omits it) and halt. The returned state is always
/// `Halted`, and the buffer is changed exactly by the one write, or not at
/// all when the step is toggled off.
pub fn start(buffer: &mut TextBuffer, message: &[u8], show_message: bool) -> (state: BootState)
    requires
        old(buffer).wf(),
        message@.len() <= BUFFER_CELLS - START_OFFSET,
    ensures
        state is Halted,
        final(buffer).wf(),
        show_message ==> final(buffer)@ == written(
            old(buffer)@,
            message@,
            START_OFFSET as int,
        ),
        !show_message ==> final(buffer)@ == old(buffer)@,
{
    if show_message {
        buffer.write(message);
    }
    BootState::Halted
}

} // verus!
