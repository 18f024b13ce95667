use vstd::prelude::*;

verus! {

// The bridge never reads or writes individual cells of the root console: it
// only creates the parked placeholder, moves consoles between owners, and
// resizes the grid.  The console type itself therefore stays opaque, with its
// two dimensions as the only observable measures.

#[verifier::external_type_specification]
#[verifier::external_body]
pub struct ExConsole(doryen_rs::Console);

/// The width, in cells, of a console grid.
pub uninterp spec fn con_width(c: doryen_rs::Console) -> u32;

/// The height, in cells, of a console grid.
pub uninterp spec fn con_height(c: doryen_rs::Console) -> u32;

/// Largest accepted cell dimension.  `Console::new` and `Console::resize`
/// round each dimension up to a power of two and multiply the two results in
/// `u32`; dimensions up to 32768 keep that product from overflowing.
pub const MAX_CONSOLE_DIM: u32 = 32768;

/// Relies on `doryen_rs::Console::new`: builds a `width` x `height` cell grid.
#[verifier::external_body]
pub(crate) fn new_console(width: u32, height: u32) -> (r: doryen_rs::Console)
    requires
        width <= MAX_CONSOLE_DIM,
        height <= MAX_CONSOLE_DIM,
    ensures
        con_width(r) == width,
        con_height(r) == height,
{
    doryen_rs::Console::new(width, height)
}

/// Relies on `doryen_rs::Console::resize`: sets the grid to `width` x
/// `height` cells.
#[verifier::external_body]
pub(crate) fn resize_console(c: &mut doryen_rs::Console, width: u32, height: u32)
    requires
        width <= MAX_CONSOLE_DIM,
        height <= MAX_CONSOLE_DIM,
    ensures
        con_width(*final(c)) == width,
        con_height(*final(c)) == height,
{
    c.resize(width, height)
}

} // verus!
