//! The choices a renderer makes from what the graphics device reports,
//! and the layout of an image in a staging buffer. Nothing here touches the
//! device.

use vstd::prelude::*;

verus! {

/// How finished frames are handed to the display.
#[derive(Debug, PartialEq, Eq, Clone, Copy, Structural)]
pub enum PresentMode {
    Immediate,
    Mailbox,
    Fifo,
    Relaxed,
}

/// The mode to present in: the first of mailbox, fifo, relaxed and
/// immediate that the surface offers.
pub open spec fn preferred_mode(available: Seq<PresentMode>) -> Option<PresentMode> {
    if available.contains(PresentMode::Mailbox) {
        Some(PresentMode::Mailbox)
    } else if available.contains(PresentMode::Fifo) {
        Some(PresentMode::Fifo)
    } else if available.contains(PresentMode::Relaxed) {
        Some(PresentMode::Relaxed)
    } else if available.contains(PresentMode::Immediate) {
        Some(PresentMode::Immediate)
    } else {
        None
    }
}

/// Tells whether `mode` is among `available`.
fn offers(available: &Vec<PresentMode>, mode: PresentMode) -> (found: bool)
    ensures
        found == available@.contains(mode),
{
    let mut i: usize = 0;
    while i < available.len()
        invariant
            i <= available@.len(),
            forall|k: int| 0 <= k < i ==> available@[k] != mode,
        decreases available@.len() - i,
    {
        if available[i] == mode {
            return true;
        }
        i += 1;
    }
    false
}

/// Picks the mode to present in among those the surface offers, or nothing
/// when it offers none.
pub fn pick_present_mode(available: &Vec<PresentMode>) -> (mode: Option<PresentMode>)
    ensures
        mode == preferred_mode(available@),
        mode.is_none() <==> available@.len() == 0,
{
    proof {
        if available@.len() > 0 {
            let first = available@[0];
            assert(available@.contains(first));
        }
    }
    if offers(available, PresentMode::Mailbox) {
        Some(PresentMode::Mailbox)
    } else if offers(available, PresentMode::Fifo) {
        Some(PresentMode::Fifo)
    } else if offers(available, PresentMode::Relaxed) {
        Some(PresentMode::Relaxed)
    } else if offers(available, PresentMode::Immediate) {
        Some(PresentMode::Immediate)
    } else {
        None
    }
}

/// Picks the surface format among the preferred ones, of which `is_srgb`
/// tells for each whether it is an sRGB format: the first sRGB format, or
/// the very first format when none is sRGB. Nothing can be picked from an
/// empty list.
pub fn pick_format(is_srgb: &Vec<bool>) -> (picked: Option<usize>)
    ensures
        picked.is_none() <==> is_srgb@.len() == 0,
        picked matches Some(index) ==> {
            &&& index < is_srgb@.len()
            &&& forall|k: int| 0 <= k < index ==> !is_srgb@[k]
            &&& is_srgb@[index as int] || (index == 0 && !is_srgb@.contains(true))
        },
{
    let mut i: usize = 0;
    while i < is_srgb.len()
        invariant
            i <= is_srgb@.len(),
            forall|k: int| 0 <= k < i ==> !is_srgb@[k],
        decreases is_srgb@.len() - i,
    {
        if is_srgb[i] {
            return Some(i);
        }
        i += 1;
    }
    if is_srgb.len() > 0 {
        Some(0)
    } else {
        None
    }
}

/// The number of swapchain images to ask for: three for mailbox
/// presentation and two otherwise, raised to the least the surface allows
/// and then held one below the most it allows.
pub open spec fn image_count(least: int, most: int, mailbox: bool) -> int {
    let wanted = if mailbox {
        3int
    } else {
        2int
    };
    let raised = if least > wanted {
        least
    } else {
        wanted
    };
    if most - 1 < raised {
        most - 1
    } else {
        raised
    }
}

/// Picks the number of swapchain images. The surface must allow at least
/// one.
pub fn pick_image_count(least: u32, most: u32, mailbox: bool) -> (count: u32)
    requires
        most >= 1,
    ensures
        count == image_count(least as int, most as int, mailbox),
{
    let wanted: u32 = if mailbox {
        3
    } else {
        2
    };
    let raised = if least > wanted {
        least
    } else {
        wanted
    };
    if most - 1 < raised {
        most - 1
    } else {
        raised
    }
}

/// The frame that follows `current_frame` when `frames_in_flight` frames
/// take turns.
pub fn next_frame(current_frame: usize, frames_in_flight: usize) -> (next: usize)
    requires
        frames_in_flight > 0,
        current_frame < usize::MAX,
    ensures
        next == (current_frame + 1) % (frames_in_flight as int),
{
    (current_frame + 1) % frames_in_flight
}

/// Picks the kind of memory for a resource: the first kind that the
/// resource can live in, as the bits of `type_mask` say, and that has the
/// property looked for, as `suitable` says for each kind.
pub fn pick_memory_type(type_mask: u64, suitable: &Vec<bool>) -> (picked: Option<usize>)
    requires
        suitable@.len() <= 64,
    ensures
        picked matches Some(id) ==> {
            &&& id < suitable@.len()
            &&& allows(type_mask, id as int) && suitable@[id as int]
            &&& forall|k: int| 0 <= k < id ==> !(allows(type_mask, k) && suitable@[k])
        },
        picked.is_none() ==> forall|k: int|
            0 <= k < suitable@.len() ==> !(allows(type_mask, k) && suitable@[k]),
{
    let mut id: usize = 0;
    while id < suitable.len()
        invariant
            suitable@.len() <= 64,
            id <= suitable@.len(),
            forall|k: int| 0 <= k < id ==> !(allows(type_mask, k) && suitable@[k]),
        decreases suitable@.len() - id,
    {
        if type_mask & (1u64 << (id as u64)) != 0 && suitable[id] {
            return Some(id);
        }
        id += 1;
    }
    None
}

/// Whether bit `id` of `type_mask` is set.
pub open spec fn allows(type_mask: u64, id: int) -> bool {
    type_mask & (1u64 << (id as u64)) != 0
}

/// Whether `alignment` is a power of two.
pub open spec fn is_power_of_two(alignment: u32) -> bool {
    alignment > 0 && alignment & ((alignment - 1) as u32) == 0
}

/// The length of a row in a staging buffer: `row_size` raised by
/// `alignment - 1`, with the bits of `alignment - 1` cleared.
pub open spec fn masked_row(row_size: u32, alignment: u32) -> u32 {
    ((row_size + (alignment - 1)) as u32) & !((alignment - 1) as u32)
}

/// Computes the length of a row in a staging buffer for any alignment of
/// at least one byte.
///
/// The row always holds `row_size` bytes and is less than `alignment`
/// bytes longer. Where `alignment` is a power of two, as devices report
/// it, the length is a multiple of it, and so the least multiple that holds
/// the row.
pub fn row_pitch(row_size: u32, alignment: u32) -> (pitch: u32)
    requires
        alignment >= 1,
        row_size + alignment - 1 <= u32::MAX,
    ensures
        pitch == masked_row(row_size, alignment),
        row_size <= pitch < row_size + alignment,
        is_power_of_two(alignment) ==> pitch % alignment == 0,
{
    let row_alignment_mask = alignment - 1;
    let pitch = (row_size + row_alignment_mask) & !row_alignment_mask;
    assert(row_size <= pitch && pitch - row_size <= row_alignment_mask) by (bit_vector)
        requires
            row_size <= 0xffff_ffffu32 - row_alignment_mask,
            pitch == ((row_size + row_alignment_mask) as u32) & !row_alignment_mask,
    ;
    if alignment & row_alignment_mask == 0 {
        assert(pitch % alignment == 0) by (bit_vector)
            requires
                alignment > 0,
                alignment & row_alignment_mask == 0,
                row_alignment_mask == (alignment - 1) as u32,
                row_size <= 0xffff_ffffu32 - row_alignment_mask,
                pitch == ((row_size + row_alignment_mask) as u32) & !row_alignment_mask,
        ;
    }
    pitch
}

/// Whether a buffer of `capacity` bytes holds `size` bytes.
pub fn has_room(capacity: u64, size: u64) -> (enough: bool)
    ensures
        enough == (capacity >= size),
{
    capacity >= size
}

/// Whether the pair of vertex and index buffers has to be built anew to
/// hold what a frame needs.
pub fn needs_new_buffers(
    vertex_capacity: u64,
    vertex_size: u64,
    index_capacity: u64,
    index_size: u64,
) -> (rebuild: bool)
    ensures
        rebuild == (vertex_capacity < vertex_size || index_capacity < index_size),
{
    has_room(vertex_capacity, vertex_size) == false || has_room(index_capacity, index_size)
        == false
}

} // verus!
