//! What the player does with keyboard and mouse, frame by frame: which
//! keys and buttons went down, are held, and came up.

use vstd::prelude::*;
use vstd::std_specs::convert::FromSpecImpl;
use arrayvec::ArrayVec;

verus! {

/// The number of codes that a list can hold.
pub const LIST_CAPACITY: usize = 10;

/// A list of at most ten codes, kept in an `arrayvec::ArrayVec`. A code
/// stands for a key, or is the code point of a character.
#[verifier::external_body]
pub struct CodeList {
    inner: ArrayVec<[u32; 10]>,
}

/// The codes that a list holds, oldest first.
pub uninterp spec fn codes_of(list: CodeList) -> Seq<u32>;

/// `ArrayVec::new`: a list that holds nothing.
#[verifier::external_body]
fn list_new() -> (list: CodeList)
    ensures
        codes_of(list) == Seq::<u32>::empty(),
{
    CodeList { inner: ArrayVec::new() }
}

/// `ArrayVec::len`: the number of codes held.
#[verifier::external_body]
fn list_len(list: &CodeList) -> (len: usize)
    ensures
        len == codes_of(*list).len(),
{
    list.inner.len()
}

/// Indexing an `ArrayVec` through its slice: the code at `index`, which
/// must be less than the length.
#[verifier::external_body]
fn list_get(list: &CodeList, index: usize) -> (code: u32)
    requires
        index < codes_of(*list).len(),
    ensures
        code == codes_of(*list)[index as int],
{
    list.inner[index]
}

/// `ArrayVec::push`: appends `code` at the end. The list must not be full.
#[verifier::external_body]
fn list_push(list: &mut CodeList, code: u32)
    requires
        codes_of(*old(list)).len() < LIST_CAPACITY,
    ensures
        codes_of(*final(list)) == codes_of(*old(list)).push(code),
{
    list.inner.push(code)
}

/// `ArrayVec::remove`: takes out the code at `index`, which must be less
/// than the length, moves the later codes down by one, and returns it.
#[verifier::external_body]
fn list_remove(list: &mut CodeList, index: usize) -> (code: u32)
    requires
        index < codes_of(*old(list)).len(),
    ensures
        code == codes_of(*old(list))[index as int],
        codes_of(*final(list)) == codes_of(*old(list)).remove(index as int),
{
    list.inner.remove(index)
}

/// `ArrayVec::clear`: takes out every code.
#[verifier::external_body]
fn list_clear(list: &mut CodeList)
    ensures
        codes_of(*final(list)) == Seq::<u32>::empty(),
{
    list.inner.clear()
}

impl CodeList {
    /// The codes held, oldest first.
    pub open spec fn view(&self) -> Seq<u32> {
        codes_of(*self)
    }

    /// A list that holds nothing.
    pub fn new() -> (list: CodeList)
        ensures
            list@ == Seq::<u32>::empty(),
    {
        list_new()
    }

    /// The number of codes held.
    pub fn len(&self) -> (len: usize)
        ensures
            len == self@.len(),
    {
        list_len(self)
    }

    /// The position of the first occurrence of `code`, if it occurs.
    pub fn position(&self, code: u32) -> (found: Option<usize>)
        ensures
            found.is_some() <==> self@.contains(code),
            found matches Some(index) ==> index < self@.len() && self@[index as int] == code
                && forall|k: int| 0 <= k < index ==> self@[k] != code,
    {
        let len = list_len(self);
        let mut i: usize = 0;
        while i < len
            invariant
                len == self@.len(),
                i <= len,
                forall|k: int| 0 <= k < i ==> self@[k] != code,
            decreases len - i,
        {
            if list_get(self, i) == code {
                return Some(i);
            }
            i += 1;
        }
        None
    }

    /// Whether `code` occurs in the list.
    pub fn contains(&self, code: u32) -> (found: bool)
        ensures
            found == self@.contains(code),
    {
        self.position(code).is_some()
    }

    /// Copies the codes out, oldest first.
    pub fn to_vec(&self) -> (codes: Vec<u32>)
        ensures
            codes@ == self@,
    {
        let len = list_len(self);
        let mut codes: Vec<u32> = Vec::new();
        let mut i: usize = 0;
        while i < len
            invariant
                len == self@.len(),
                i <= len,
                codes@.len() == i,
                forall|k: int| 0 <= k < i ==> codes@[k] == self@[k],
            decreases len - i,
        {
            codes.push(list_get(self, i));
            i += 1;
        }
        assert(codes@ =~= self@);
        codes
    }
}

/// Where `code` first occurs in `codes`. Meaningful when it occurs at all.
pub open spec fn first_index(codes: Seq<u32>, code: u32) -> int {
    choose|i: int| is_first_index(codes, code, i)
}

/// `index` is where `code` first occurs in `codes`.
pub open spec fn is_first_index(codes: Seq<u32>, code: u32, index: int) -> bool {
    &&& 0 <= index < codes.len()
    &&& codes[index] == code
    &&& forall|k: int| 0 <= k < index ==> codes[k] != code
}

/// A code has one first occurrence only.
pub proof fn lemma_first_index_unique(codes: Seq<u32>, code: u32, index: int)
    requires
        is_first_index(codes, code, index),
    ensures
        first_index(codes, code) == index,
{
    let chosen = first_index(codes, code);
    assert(is_first_index(codes, code, chosen));
    if chosen < index {
        assert(codes[chosen] != code);
    } else if index < chosen {
        assert(codes[index] != code);
    }
}

/// Tells whether `code` occurs in `codes`.
pub fn slice_contains(codes: &[u32], code: u32) -> (found: bool)
    ensures
        found == codes@.contains(code),
{
    let mut i: usize = 0;
    while i < codes.len()
        invariant
            i <= codes@.len(),
            forall|k: int| 0 <= k < i ==> codes@[k] != code,
        decreases codes@.len() - i,
    {
        if codes[i] == code {
            return true;
        }
        i += 1;
    }
    false
}

/// Whether a key or button went down or came up.
#[derive(Debug, PartialEq, Eq, Clone, Copy, Structural)]
pub enum ElementState {
    Pressed,
    Released,
}

/// A mouse button.
#[derive(Debug, PartialEq, Eq, Clone, Copy, Structural)]
pub enum MouseButton {
    Left,
    Right,
    Middle,
    Generic(usize),
}

impl MouseButton {
    /// The place of the button in the button tables.
    pub open spec fn index(self) -> usize {
        match self {
            MouseButton::Left => 0,
            MouseButton::Right => 1,
            MouseButton::Middle => 2,
            MouseButton::Generic(index) => index,
        }
    }
}

/// The place of a button in the button tables.
impl From<MouseButton> for usize {
    fn from(w: MouseButton) -> (index: usize) {
        match w {
            MouseButton::Left => 0,
            MouseButton::Right => 1,
            MouseButton::Middle => 2,
            MouseButton::Generic(index) => index,
        }
    }
}

impl FromSpecImpl<MouseButton> for usize {
    open spec fn obeys_from_spec() -> bool {
        true
    }

    open spec fn from_spec(w: MouseButton) -> usize {
        w.index()
    }
}

/// The number of mouse buttons that are tracked.
pub const BUTTON_COUNT: usize = 5;

/// The mouse buttons as a mathematical value: one table each for the
/// buttons that went down this frame, are held, and came up this frame.
#[verifier::ext_equal]
pub struct MouseView {
    pub pressed: Seq<bool>,
    pub held: Seq<bool>,
    pub released: Seq<bool>,
    pub taken: bool,
}

impl MouseView {
    /// Nothing down, held or released, and the mouse free.
    pub open spec fn idle() -> MouseView {
        MouseView {
            pressed: Seq::new(BUTTON_COUNT as nat, |i: int| false),
            held: Seq::new(BUTTON_COUNT as nat, |i: int| false),
            released: Seq::new(BUTTON_COUNT as nat, |i: int| false),
            taken: false,
        }
    }

    /// The buttons once the last frame's events are forgotten: nothing
    /// went down or came up, the mouse is free, what is held stays held.
    pub open spec fn cleared(self) -> MouseView {
        MouseView {
            pressed: Seq::new(BUTTON_COUNT as nat, |i: int| false),
            held: self.held,
            released: Seq::new(BUTTON_COUNT as nat, |i: int| false),
            taken: false,
        }
    }

    /// The buttons after one went down: it counts as pressed and held
    /// unless it was already pressed in the frame before.
    pub open spec fn after_press(self, index: int, pressed_last_frame: Seq<bool>) -> MouseView {
        if pressed_last_frame[index] {
            self
        } else {
            MouseView {
                pressed: self.pressed.update(index, true),
                held: self.held.update(index, true),
                ..self
            }
        }
    }

    /// The buttons after one came up: if it was pressed or held it is
    /// neither any more and counts as released.
    pub open spec fn after_release(self, index: int) -> MouseView {
        if self.pressed[index] || self.held[index] {
            MouseView {
                pressed: self.pressed.update(index, false),
                held: self.held.update(index, false),
                released: self.released.update(index, true),
                ..self
            }
        } else {
            self
        }
    }
}

/// The mouse buttons: which went down this frame, which are held, which
/// came up this frame, and whether the interface took the mouse.
#[derive(Debug)]
pub struct MouseInput {
    pub mouse_pressed: [bool; 5],
    pub mouse_held: [bool; 5],
    pub mouse_released: [bool; 5],
    pub mouse_input_taken: bool,
}

impl MouseInput {
    /// The buttons as a mathematical value.
    pub open spec fn view(&self) -> MouseView {
        MouseView {
            pressed: self.mouse_pressed@,
            held: self.mouse_held@,
            released: self.mouse_released@,
            taken: self.mouse_input_taken,
        }
    }

    /// No button down, held or released, and the mouse free.
    pub fn new() -> (mouse: Self)
        ensures
            mouse@ == MouseView::idle(),
    {
        let mouse = MouseInput {
            mouse_pressed: [false, false, false, false, false],
            mouse_held: [false, false, false, false, false],
            mouse_released: [false, false, false, false, false],
            mouse_input_taken: false,
        };
        assert(mouse@ =~~= MouseView::idle());
        mouse
    }

    /// Forgets what went down and came up in the last frame, and gives the
    /// mouse back. What is held stays held.
    pub fn clear(&mut self)
        ensures
            final(self)@ == old(self)@.cleared(),
    {
        self.mouse_pressed = [false, false, false, false, false];
        self.mouse_released = [false, false, false, false, false];
        self.mouse_input_taken = false;
        assert(self@ =~~= old(self)@.cleared());
    }

    /// Whether the button went down this frame and the mouse is free.
    pub fn is_pressed(&self, mouse_button: MouseButton) -> (pressed: bool)
        requires
            mouse_button.index() < BUTTON_COUNT,
        ensures
            pressed == (self@.pressed[mouse_button.index() as int] && !self@.taken),
    {
        let index: usize = mouse_button.into();
        self.mouse_pressed[index] && self.mouse_input_taken == false
    }

    /// Whether the button is held and the mouse is free.
    pub fn is_held(&self, mouse_button: MouseButton) -> (held: bool)
        requires
            mouse_button.index() < BUTTON_COUNT,
        ensures
            held == (self@.held[mouse_button.index() as int] && !self@.taken),
    {
        let index: usize = mouse_button.into();
        self.mouse_held[index] && self.mouse_input_taken == false
    }

    /// Whether the button came up this frame, or the interface took the
    /// mouse, which counts as letting go.
    pub fn is_released(&self, mouse_button: MouseButton) -> (released: bool)
        requires
            mouse_button.index() < BUTTON_COUNT,
        ensures
            released == (self@.released[mouse_button.index() as int] || self@.taken),
    {
        let index: usize = mouse_button.into();
        self.mouse_released[index] || self.mouse_input_taken
    }

    /// Records that a button went down.
    pub fn press(&mut self, mouse_button: MouseButton, pressed_last_frame: &[bool; 5])
        requires
            mouse_button.index() < BUTTON_COUNT,
        ensures
            final(self)@ == old(self)@.after_press(
                mouse_button.index() as int,
                pressed_last_frame@,
            ),
    {
        let this_button: usize = mouse_button.into();
        if pressed_last_frame[this_button] == false {
            self.mouse_pressed[this_button] = true;
            self.mouse_held[this_button] = true;
        }
        assert(self@ =~~= old(self)@.after_press(this_button as int, pressed_last_frame@));
    }

    /// Records that a button came up.
    pub fn release(&mut self, mouse_button: MouseButton)
        requires
            mouse_button.index() < BUTTON_COUNT,
        ensures
            final(self)@ == old(self)@.after_release(mouse_button.index() as int),
    {
        let this_button: usize = mouse_button.into();
        if self.mouse_pressed[this_button] || self.mouse_held[this_button] {
            self.mouse_pressed[this_button] = false;
            self.mouse_held[this_button] = false;
            self.mouse_released[this_button] = true;
        }
        assert(self@ =~~= old(self)@.after_release(this_button as int));
    }
}

/// Whether a typed character is kept: delete and backspace are not.
pub open spec fn is_text(c: char) -> bool {
    c != '\u{7f}' && c != '\u{8}'
}

/// The keys as a mathematical value: the codes of the keys that went down
/// this frame, are held, and came up this frame, and the code points typed
/// this frame, each list oldest first.
#[verifier::ext_equal]
pub struct KeysView {
    pub pressed: Seq<u32>,
    pub held: Seq<u32>,
    pub released: Seq<u32>,
    pub typed: Seq<u32>,
}

impl KeysView {
    /// No key down, held or released, and nothing typed.
    pub open spec fn idle() -> KeysView {
        KeysView { pressed: Seq::empty(), held: Seq::empty(), released: Seq::empty(), typed: Seq::empty() }
    }

    /// The keys once the last frame's events are forgotten. What is held
    /// stays held.
    pub open spec fn cleared(self) -> KeysView {
        KeysView { held: self.held, ..Self::idle() }
    }

    /// Whether a key that goes down counts as newly pressed: it was not
    /// pressed in the frame before and is not held.
    pub open spec fn newly_pressed(self, code: u32, last_frame_pressed: Seq<u32>) -> bool {
        !last_frame_pressed.contains(code) && !self.held.contains(code)
    }

    /// The keys after one went down: a newly pressed key joins the pressed
    /// and the held keys, any other changes nothing.
    pub open spec fn after_key_down(self, code: u32, last_frame_pressed: Seq<u32>) -> KeysView {
        if self.newly_pressed(code, last_frame_pressed) {
            KeysView { pressed: self.pressed.push(code), held: self.held.push(code), ..self }
        } else {
            self
        }
    }

    /// The keys after one came up: a held key leaves the held keys, at its
    /// first occurrence, and joins the released keys; any other changes
    /// nothing.
    pub open spec fn after_key_up(self, code: u32) -> KeysView {
        if self.held.contains(code) {
            KeysView {
                held: self.held.remove(first_index(self.held, code)),
                released: self.released.push(code),
                ..self
            }
        } else {
            self
        }
    }

    /// The keys after a key event.
    pub open spec fn after_key(
        self,
        element_state: ElementState,
        code: u32,
        last_frame_pressed: Seq<u32>,
    ) -> KeysView {
        match element_state {
            ElementState::Pressed => self.after_key_down(code, last_frame_pressed),
            ElementState::Released => self.after_key_up(code),
        }
    }

    /// The keys after a character was typed: its code point joins the typed
    /// characters unless it is delete or backspace.
    pub open spec fn after_character(self, c: char) -> KeysView {
        if is_text(c) {
            KeysView { typed: self.typed.push(c as u32), ..self }
        } else {
            self
        }
    }

    /// Whether the lists have room for what a key event adds.
    pub open spec fn has_room_for_key(
        self,
        element_state: ElementState,
        code: u32,
        last_frame_pressed: Seq<u32>,
    ) -> bool {
        match element_state {
            ElementState::Pressed => self.newly_pressed(code, last_frame_pressed) ==> {
                &&& self.pressed.len() < LIST_CAPACITY
                &&& self.held.len() < LIST_CAPACITY
            },
            ElementState::Released => self.held.contains(code) ==> self.released.len()
                < LIST_CAPACITY,
        }
    }

    /// Whether the typed characters have room for `c`.
    pub open spec fn has_room_for_character(self, c: char) -> bool {
        is_text(c) ==> self.typed.len() < LIST_CAPACITY
    }
}

/// The keys: which went down this frame, which are held, which came up
/// this frame, and the characters typed this frame as code points.
pub struct KeyboardInput {
    pub pressed_keys: CodeList,
    pub held_keys: CodeList,
    pub released_keys: CodeList,
    pub received_char: CodeList,
}

impl KeyboardInput {
    /// The keys as a mathematical value.
    pub open spec fn view(&self) -> KeysView {
        KeysView {
            pressed: self.pressed_keys@,
            held: self.held_keys@,
            released: self.released_keys@,
            typed: self.received_char@,
        }
    }

    /// No key down, held or released, and nothing typed.
    pub fn new() -> (keys: Self)
        ensures
            keys@ == KeysView::idle(),
    {
        KeyboardInput {
            pressed_keys: CodeList::new(),
            held_keys: CodeList::new(),
            released_keys: CodeList::new(),
            received_char: CodeList::new(),
        }
    }

    /// Forgets what went down, came up and was typed in the last frame.
    /// What is held stays held.
    pub fn clear(&mut self)
        ensures
            final(self)@ == old(self)@.cleared(),
    {
        list_clear(&mut self.pressed_keys);
        list_clear(&mut self.released_keys);
        list_clear(&mut self.received_char);
    }

    /// Whether the key went down this frame.
    pub fn is_pressed(&self, target_keycode: u32) -> (found: bool)
        ensures
            found == self@.pressed.contains(target_keycode),
    {
        self.pressed_keys.contains(target_keycode)
    }

    /// Whether the key is held.
    pub fn is_held(&self, target_keycode: u32) -> (found: bool)
        ensures
            found == self@.held.contains(target_keycode),
    {
        self.held_keys.contains(target_keycode)
    }

    /// Whether the key came up this frame.
    pub fn is_released(&self, target_keycode: u32) -> (found: bool)
        ensures
            found == self@.released.contains(target_keycode),
    {
        self.released_keys.contains(target_keycode)
    }
}

/// What the window system reports, as far as the input state reacts to it.
#[derive(Debug, Clone, Copy)]
pub enum InputEvent {
    /// The player asked to close the window.
    CloseRequested,
    /// A key went down or came up.
    Key { state: ElementState, code: u32 },
    /// A mouse button went down or came up.
    Button { state: ElementState, button: MouseButton },
    /// A character was typed.
    ReceivedCharacter(char),
}

/// What is remembered of the frame before while the events of a frame are
/// taken in.
#[derive(Debug)]
pub struct FrameMemory {
    pub keys_pressed_last_frame: Vec<u32>,
    pub mouse_pressed_last_frame: [bool; 5],
}

/// The input of one frame as a mathematical value.
#[verifier::ext_equal]
pub struct InputView {
    pub end_requested: bool,
    pub mouse: MouseView,
    pub keys: KeysView,
}

impl InputView {
    /// No input at all.
    pub open spec fn idle() -> InputView {
        InputView { end_requested: false, mouse: MouseView::idle(), keys: KeysView::idle() }
    }

    /// The input once the last frame's events are forgotten.
    pub open spec fn cleared(self) -> InputView {
        InputView {
            end_requested: false,
            mouse: self.mouse.cleared(),
            keys: self.keys.cleared(),
        }
    }

    /// Whether `event` can be taken in: a button lies inside the button
    /// tables, and the lists have room for what a key or a character adds.
    pub open spec fn accepts(self, event: InputEvent, keys_pressed_last_frame: Seq<u32>) -> bool {
        match event {
            InputEvent::CloseRequested => true,
            InputEvent::Key { state, code } => self.keys.has_room_for_key(
                state,
                code,
                keys_pressed_last_frame,
            ),
            InputEvent::Button { state, button } => button.index() < BUTTON_COUNT,
            InputEvent::ReceivedCharacter(c) => self.keys.has_room_for_character(c),
        }
    }

    /// The input after `event`.
    pub open spec fn after(
        self,
        event: InputEvent,
        keys_pressed_last_frame: Seq<u32>,
        mouse_pressed_last_frame: Seq<bool>,
    ) -> InputView {
        match event {
            InputEvent::CloseRequested => InputView { end_requested: true, ..self },
            InputEvent::Key { state, code } => InputView {
                keys: self.keys.after_key(state, code, keys_pressed_last_frame),
                ..self
            },
            InputEvent::Button { state, button } => InputView {
                mouse: match state {
                    ElementState::Pressed => self.mouse.after_press(
                        button.index() as int,
                        mouse_pressed_last_frame,
                    ),
                    ElementState::Released => self.mouse.after_release(button.index() as int),
                },
                ..self
            },
            InputEvent::ReceivedCharacter(c) => InputView {
                keys: self.keys.after_character(c),
                ..self
            },
        }
    }
}

/// The input of one frame.
pub struct UserInput {
    pub end_requested: bool,
    pub mouse_input: MouseInput,
    pub kb_input: KeyboardInput,
}

impl UserInput {
    /// The input as a mathematical value.
    pub open spec fn view(&self) -> InputView {
        InputView {
            end_requested: self.end_requested,
            mouse: self.mouse_input@,
            keys: self.kb_input@,
        }
    }

    /// No input at all.
    pub fn new() -> (input: Self)
        ensures
            input@ == InputView::idle(),
    {
        UserInput {
            end_requested: false,
            mouse_input: MouseInput::new(),
            kb_input: KeyboardInput::new(),
        }
    }

    /// Forgets the events of the last frame. Keys and buttons that are held
    /// stay held.
    pub fn clear_input(&mut self)
        ensures
            final(self)@ == old(self)@.cleared(),
    {
        self.end_requested = false;
        self.mouse_input.clear();
        self.kb_input.clear();
    }

    /// Starts a frame: remembers which keys and buttons went down in the
    /// frame before, then forgets that frame's events.
    pub fn begin_frame(&mut self) -> (memory: FrameMemory)
        ensures
            memory.keys_pressed_last_frame@ == old(self)@.keys.pressed,
            memory.mouse_pressed_last_frame@ == old(self)@.mouse.pressed,
            final(self)@ == old(self)@.cleared(),
    {
        let memory = FrameMemory {
            keys_pressed_last_frame: self.kb_input.pressed_keys.to_vec(),
            mouse_pressed_last_frame: self.mouse_input.mouse_pressed,
        };
        self.clear_input();
        memory
    }

    /// Tells whether the lists have room for what a key event adds, which
    /// is what `record_input` asks of its caller.
    pub fn can_record(
        &self,
        element_state: ElementState,
        code: u32,
        last_frame_pressed: &[u32],
    ) -> (ok: bool)
        ensures
            ok == self@.keys.has_room_for_key(element_state, code, last_frame_pressed@),
    {
        match element_state {
            ElementState::Pressed => {
                if slice_contains(last_frame_pressed, code) || self.kb_input.held_keys.contains(
                    code,
                ) {
                    true
                } else {
                    self.kb_input.pressed_keys.len() < LIST_CAPACITY
                        && self.kb_input.held_keys.len() < LIST_CAPACITY
                }
            },
            ElementState::Released => {
                if self.kb_input.held_keys.contains(code) {
                    self.kb_input.released_keys.len() < LIST_CAPACITY
                } else {
                    true
                }
            },
        }
    }

    /// Tells whether the typed characters have room for `c`, which is what
    /// `receive_character` asks of its caller.
    pub fn can_receive(&self, c: char) -> (ok: bool)
        ensures
            ok == self@.keys.has_room_for_character(c),
    {
        if c != '\u{7f}' && c != '\u{8}' {
            self.kb_input.received_char.len() < LIST_CAPACITY
        } else {
            true
        }
    }

    /// Tells whether `event` can be taken in during the frame that `memory`
    /// was begun for, which is what `handle_event` asks of its caller.
    pub fn can_take(&self, event: InputEvent, memory: &FrameMemory) -> (ok: bool)
        ensures
            ok == self@.accepts(event, memory.keys_pressed_last_frame@),
    {
        match event {
            InputEvent::CloseRequested => true,
            InputEvent::Key { state, code } => self.can_record(
                state,
                code,
                memory.keys_pressed_last_frame.as_slice(),
            ),
            InputEvent::Button { state, button } => {
                let index: usize = button.into();
                index < BUTTON_COUNT
            },
            InputEvent::ReceivedCharacter(c) => self.can_receive(c),
        }
    }

    /// Records that a key went down or came up.
    ///
    /// A key that goes down is added to the pressed and to the held keys,
    /// unless it was pressed in the frame before or is held already. A key
    /// that comes up while held leaves the held keys and is added to the
    /// released keys.
    pub fn record_input(
        &mut self,
        element_state: ElementState,
        code: u32,
        last_frame_pressed: &[u32],
    )
        requires
            old(self)@.keys.has_room_for_key(element_state, code, last_frame_pressed@),
        ensures
            final(self)@ == (InputView {
                keys: old(self)@.keys.after_key(element_state, code, last_frame_pressed@),
                ..old(self)@
            }),
    {
        match element_state {
            ElementState::Pressed => {
                if !slice_contains(last_frame_pressed, code) {
                    if !self.kb_input.held_keys.contains(code) {
                        list_push(&mut self.kb_input.pressed_keys, code);
                        list_push(&mut self.kb_input.held_keys, code);
                    }
                }
            },
            ElementState::Released => {
                if let Some(vk_pos) = self.kb_input.held_keys.position(code) {
                    proof {
                        lemma_first_index_unique(self.kb_input.held_keys@, code, vk_pos as int);
                    }
                    let _ = list_remove(&mut self.kb_input.held_keys, vk_pos);
                    list_push(&mut self.kb_input.released_keys, code);
                }
            },
        }
    }

    /// Records a typed character: its code point is added to the typed
    /// characters unless it is delete or backspace.
    pub fn receive_character(&mut self, c: char)
        requires
            old(self)@.keys.has_room_for_character(c),
        ensures
            final(self)@ == (InputView { keys: old(self)@.keys.after_character(c), ..old(self)@ }),
    {
        if c != '\u{7f}' && c != '\u{8}' {
            list_push(&mut self.kb_input.received_char, c as u32);
        }
    }

    /// Takes in one event of the frame that `memory` was begun for.
    pub fn handle_event(&mut self, event: InputEvent, memory: &FrameMemory)
        requires
            old(self)@.accepts(event, memory.keys_pressed_last_frame@),
        ensures
            final(self)@ == old(self)@.after(
                event,
                memory.keys_pressed_last_frame@,
                memory.mouse_pressed_last_frame@,
            ),
    {
        match event {
            InputEvent::CloseRequested => {
                self.end_requested = true;
            },
            InputEvent::Key { state, code } => {
                self.record_input(state, code, memory.keys_pressed_last_frame.as_slice());
            },
            InputEvent::Button { state, button } => match state {
                ElementState::Pressed => {
                    self.mouse_input.press(button, &memory.mouse_pressed_last_frame);
                },
                ElementState::Released => {
                    self.mouse_input.release(button);
                },
            },
            InputEvent::ReceivedCharacter(c) => {
                self.receive_character(c);
            },
        }
    }
}

} // verus!
