use vstd::prelude::*;

verus! {

/// One frame's polled input, read off the host loop's snapshot handle as
/// plain values.  The snapshot handle itself is only valid for the duration
/// of one poll, so the host-side driver copies it into this record before the
/// bridge looks at it; the bridge never retains the handle.
pub struct InputSnapshot {
    /// Scancodes of the keys currently held down.
    pub keys_down: Vec<String>,
    /// Scancodes of the keys newly pressed since the previous frame.
    pub keys_pressed: Vec<String>,
    /// Scancodes of the keys released since the previous frame.
    pub keys_released: Vec<String>,
    /// The mouse buttons the loop reports as currently held down.
    pub mouse_buttons_down: Vec<usize>,
    /// Last known cursor position, in console cells.
    pub mouse_position: (u32, u32),
    /// Whether the player asked to close the window.
    pub close_requested: bool,
    /// Frames per second measured over the last frame.
    pub fps: u32,
    /// Rolling-average frames per second.
    pub average_fps: u32,
}

/// The mouse buttons of `listeners`, in listener order, that `down` reports
/// as held: the translator polls exactly the configured buttons, so a button
/// outside the listener list never shows up as pressed.
pub open spec fn tracked_buttons_down(listeners: Seq<usize>, down: Seq<usize>) -> Seq<usize>
    decreases listeners.len(),
{
    if listeners.len() == 0 {
        Seq::empty()
    } else {
        let rest = tracked_buttons_down(listeners.drop_last(), down);
        if down.contains(listeners.last()) {
            rest.push(listeners.last())
        } else {
            rest
        }
    }
}

proof fn lemma_push_contains(s: Seq<usize>, x: usize, b: usize)
    ensures
        s.push(x).contains(b) <==> (s.contains(b) || b == x),
{
    if s.contains(b) {
        let j = choose|j: int| 0 <= j < s.len() && s[j] == b;
        assert(s.push(x)[j] == b);
    }
    if b == x {
        assert(s.push(x)[s.len() as int] == b);
    }
    if s.push(x).contains(b) {
        let j = choose|j: int| 0 <= j < s.push(x).len() && s.push(x)[j] == b;
        if j < s.len() {
            assert(s[j] == b);
        }
    }
}

proof fn lemma_drop_last_contains(l: Seq<usize>, b: usize)
    requires
        l.len() > 0,
    ensures
        l.contains(b) <==> (l.drop_last().contains(b) || b == l.last()),
{
    if l.drop_last().contains(b) {
        let j = choose|j: int| 0 <= j < l.drop_last().len() && l.drop_last()[j] == b;
        assert(l[j] == b);
    }
    if b == l.last() {
        assert(l[l.len() - 1] == b);
    }
    if l.contains(b) {
        let j = choose|j: int| 0 <= j < l.len() && l[j] == b;
        if j < l.len() - 1 {
            assert(l.drop_last()[j] == b);
        }
    }
}

/// A button is listed by `tracked_buttons_down` exactly when it is both
/// configured as a listener and reported down by the snapshot.
pub proof fn lemma_tracked_buttons_down_contains(
    listeners: Seq<usize>,
    down: Seq<usize>,
    b: usize,
)
    ensures
        tracked_buttons_down(listeners, down).contains(b) <==> (listeners.contains(b)
            && down.contains(b)),
    decreases listeners.len(),
{
    if listeners.len() == 0 {
        assert(!listeners.contains(b));
    } else {
        lemma_tracked_buttons_down_contains(listeners.drop_last(), down, b);
        let rest = tracked_buttons_down(listeners.drop_last(), down);
        lemma_drop_last_contains(listeners, b);
        if down.contains(listeners.last()) {
            lemma_push_contains(rest, listeners.last(), b);
        }
    }
}

/// A button outside the configured listener list is never reported pressed,
/// whatever the underlying snapshot says.
pub proof fn lemma_unlistened_button_never_pressed(
    listeners: Seq<usize>,
    down: Seq<usize>,
    b: usize,
)
    requires
        !listeners.contains(b),
    ensures
        !tracked_buttons_down(listeners, down).contains(b),
{
    lemma_tracked_buttons_down_contains(listeners, down, b);
}

/// The translator's output for one frame: the snapshot's keys, cursor and
/// close request taken over as they are, and of the mouse exactly the
/// configured buttons.
pub open spec fn translated_input(
    i: DoryenInput,
    listeners: Seq<usize>,
    snapshot: InputSnapshot,
) -> bool {
    &&& i.keys_down == snapshot.keys_down
    &&& i.keys_pressed == snapshot.keys_pressed
    &&& i.keys_released == snapshot.keys_released
    &&& i.mouse_buttons_pressed@ == tracked_buttons_down(listeners, snapshot.mouse_buttons_down@)
    &&& i.mouse_position == snapshot.mouse_position
    &&& i.close_requested == snapshot.close_requested
}

/// An input resource with nothing pressed and nothing requested: the state
/// the translator starts from before the first frame's snapshot arrives.
pub open spec fn is_cleared_input(i: DoryenInput) -> bool {
    &&& i.keys_down@ == Seq::<String>::empty()
    &&& i.keys_pressed@ == Seq::<String>::empty()
    &&& i.keys_released@ == Seq::<String>::empty()
    &&& i.mouse_buttons_pressed@ == Seq::<usize>::empty()
    &&& i.mouse_position == (0u32, 0u32)
    &&& i.close_requested == false
}

/// Whether some key in `keys` carries the scancode `scan`.
pub open spec fn has_scancode(keys: Seq<String>, scan: Seq<char>) -> bool {
    exists|j: int| 0 <= j < keys.len() && (#[trigger] keys[j])@ == scan
}

/// The input resource host-framework systems query: the one frame's snapshot,
/// translated.  Rebuilt from a fresh snapshot once per frame; it is
/// overwritten, never merged.
pub struct DoryenInput {
    /// Scancodes of the keys currently held down.
    pub keys_down: Vec<String>,
    /// Scancodes of the keys newly pressed this frame.
    pub keys_pressed: Vec<String>,
    /// Scancodes of the keys released this frame.
    pub keys_released: Vec<String>,
    /// The configured mouse buttons currently held down, in listener order.
    pub mouse_buttons_pressed: Vec<usize>,
    /// Last known cursor position, in console cells.
    pub mouse_position: (u32, u32),
    /// Whether the player asked to close the window.
    pub close_requested: bool,
}

impl Default for DoryenInput {
    fn default() -> (r: Self)
        ensures
            is_cleared_input(r),
    {
        DoryenInput {
            keys_down: Vec::new(),
            keys_pressed: Vec::new(),
            keys_released: Vec::new(),
            mouse_buttons_pressed: Vec::new(),
            mouse_position: (0, 0),
            close_requested: false,
        }
    }
}

impl DoryenInput {
    /// Overwrite this resource with one frame's snapshot, keeping of the
    /// mouse only the buttons in `listeners`.
    pub fn handle_input(&mut self, listeners: &Vec<usize>, snapshot: InputSnapshot)
        ensures
            translated_input(*final(self), listeners@, snapshot),
    {
        let mut pressed: Vec<usize> = Vec::new();
        let mut i: usize = 0;
        while i < listeners.len()
            invariant
                0 <= i <= listeners.len(),
                pressed@ == tracked_buttons_down(
                    listeners@.take(i as int),
                    snapshot.mouse_buttons_down@,
                ),
            decreases listeners.len() - i,
        {
            let b = listeners[i];
            if vec_contains_usize(&snapshot.mouse_buttons_down, b) {
                pressed.push(b);
            }
            proof {
                assert(listeners@.take(i + 1).drop_last() =~= listeners@.take(i as int));
                assert(listeners@.take(i + 1).last() == listeners@[i as int]);
            }
            i = i + 1;
        }
        proof {
            assert(listeners@.take(listeners@.len() as int) =~= listeners@);
        }
        self.keys_down = snapshot.keys_down;
        self.keys_pressed = snapshot.keys_pressed;
        self.keys_released = snapshot.keys_released;
        self.mouse_buttons_pressed = pressed;
        self.mouse_position = snapshot.mouse_position;
        self.close_requested = snapshot.close_requested;
    }

    /// Whether the key with this scancode is currently held down.
    pub fn key(&self, scan_code: &String) -> (r: bool)
        ensures
            r == has_scancode(self.keys_down@, scan_code@),
    {
        vec_contains_string(&self.keys_down, scan_code)
    }

    /// Whether the key with this scancode was newly pressed this frame.
    pub fn key_pressed(&self, scan_code: &String) -> (r: bool)
        ensures
            r == has_scancode(self.keys_pressed@, scan_code@),
    {
        vec_contains_string(&self.keys_pressed, scan_code)
    }

    /// Whether the key with this scancode was released this frame.
    pub fn key_released(&self, scan_code: &String) -> (r: bool)
        ensures
            r == has_scancode(self.keys_released@, scan_code@),
    {
        vec_contains_string(&self.keys_released, scan_code)
    }

    /// Whether this mouse button is both configured and currently held down.
    pub fn mouse_button(&self, button: usize) -> (r: bool)
        ensures
            r == self.mouse_buttons_pressed@.contains(button),
    {
        vec_contains_usize(&self.mouse_buttons_pressed, button)
    }

    /// Last known cursor position, in console cells.
    pub fn mouse_position(&self) -> (r: (u32, u32))
        ensures
            r == self.mouse_position,
    {
        self.mouse_position
    }

    /// Whether the player asked to close the window this frame.
    pub fn close_requested(&self) -> (r: bool)
        ensures
            r == self.close_requested,
    {
        self.close_requested
    }
}

fn vec_contains_usize(v: &Vec<usize>, x: usize) -> (r: bool)
    ensures
        r == v@.contains(x),
{
    let mut i: usize = 0;
    while i < v.len()
        invariant
            0 <= i <= v.len(),
            forall|j: int| 0 <= j < i ==> v@[j] != x,
        decreases v.len() - i,
    {
        if v[i] == x {
            return true;
        }
        i = i + 1;
    }
    false
}

fn vec_contains_string(v: &Vec<String>, x: &String) -> (r: bool)
    ensures
        r == has_scancode(v@, x@),
{
    let mut i: usize = 0;
    while i < v.len()
        invariant
            0 <= i <= v.len(),
            forall|j: int| 0 <= j < i ==> (#[trigger] v@[j])@ != x@,
        decreases v.len() - i,
    {
        if v[i].eq(x) {
            return true;
        }
        i = i + 1;
    }
    false
}

} // verus!
