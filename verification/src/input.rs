use vstd::prelude::*;

use smallvec::SmallVec;

use crate::utils::frame::FrameAction;

verus! {

/// How many keys can be held down at the same time and still be tracked.
pub const SIMULTANEOUS_KEY_COUNT: usize = 12;

/// A fixed-capacity buffer of key codes kept inline, backed by `smallvec::SmallVec`.
/// Its contents are seen only through `key_slots` and the functions below.
#[verifier::external_body]
pub struct KeyBuffer {
    codes: SmallVec<[u32; 12]>,
}

/// The key codes stored in a key buffer, in storage order.
pub uninterp spec fn key_slots(keys: KeyBuffer) -> Seq<u32>;

/// `SmallVec::new`: an empty buffer.
#[verifier::external_body]
fn keys_new() -> (keys: KeyBuffer)
    ensures
        key_slots(keys) == Seq::<u32>::empty(),
{
    KeyBuffer { codes: SmallVec::new() }
}

/// `SmallVec::len`: the number of stored codes.
#[verifier::external_body]
fn keys_len(keys: &KeyBuffer) -> (n: usize)
    ensures
        n == key_slots(*keys).len(),
{
    keys.codes.len()
}

/// Indexing a `SmallVec`: the code stored at `index`.
#[verifier::external_body]
fn keys_get(keys: &KeyBuffer, index: usize) -> (code: u32)
    requires
        index < key_slots(*keys).len(),
    ensures
        code == key_slots(*keys)[index as int],
{
    keys.codes[index]
}

/// `SmallVec::push`: appends a code at the end.
#[verifier::external_body]
fn keys_push(keys: &mut KeyBuffer, code: u32)
    requires
        key_slots(*old(keys)).len() < usize::MAX,
    ensures
        key_slots(*final(keys)) == key_slots(*old(keys)).push(code),
{
    keys.codes.push(code)
}

/// `SmallVec::swap_remove`: removes the code at `index`, moving the last code into its place.
#[verifier::external_body]
fn keys_swap_remove(keys: &mut KeyBuffer, index: usize) -> (removed: u32)
    requires
        index < key_slots(*old(keys)).len(),
    ensures
        removed == key_slots(*old(keys))[index as int],
        key_slots(*final(keys)) == key_slots(*old(keys)).update(
            index as int,
            key_slots(*old(keys)).last(),
        ).drop_last(),
{
    keys.codes.swap_remove(index)
}

/// The held keys after `code` goes down, from the held keys `pressed`, of
/// which there are `count`: a key already held, or one pressed while the
/// buffer is full, changes nothing.
pub open spec fn spec_after_press(pressed: Set<u32>, count: nat, code: u32) -> Set<u32> {
    if pressed.contains(code) || count >= SIMULTANEOUS_KEY_COUNT {
        pressed
    } else {
        pressed.insert(code)
    }
}

/// The held keys after `code` goes up.
pub open spec fn spec_after_release(pressed: Set<u32>, code: u32) -> Set<u32> {
    pressed.remove(code)
}

/// Pressing a key that is not held and releasing it again leaves the held
/// keys as they were, whether or not the buffer had room for it.
pub proof fn lemma_press_then_release(pressed: Set<u32>, count: nat, code: u32)
    requires
        !pressed.contains(code),
    ensures
        spec_after_release(spec_after_press(pressed, count, code), code) == pressed,
{
    assert(pressed.insert(code).remove(code) =~= pressed);
    assert(pressed.remove(code) =~= pressed);
}

/// Pressing a key twice has the effect of pressing it once.
pub proof fn lemma_press_idempotent(pressed: Set<u32>, count: nat, code: u32)
    ensures
        spec_after_press(spec_after_press(pressed, count, code), count + 1, code)
            == spec_after_press(pressed, count, code),
{
}

/// The keys that are currently held down.
pub struct KeyHeap {
    keys: KeyBuffer,
}

impl KeyHeap {
    /// The codes of the keys held down.
    pub closed spec fn pressed(&self) -> Set<u32> {
        key_slots(self.keys).to_set()
    }

    /// How many keys are held down.
    pub closed spec fn count(&self) -> nat {
        key_slots(self.keys).len()
    }

    /// Each held key is stored once, and no more keys than the buffer holds.
    pub closed spec fn wf(&self) -> bool {
        &&& key_slots(self.keys).len() <= SIMULTANEOUS_KEY_COUNT
        &&& key_slots(self.keys).no_duplicates()
    }

    /// No key is held down.
    pub fn new() -> (heap: KeyHeap)
        ensures
            heap.wf(),
            heap.pressed() == Set::<u32>::empty(),
            heap.count() == 0,
    {
        let heap = KeyHeap { keys: keys_new() };
        assert(key_slots(heap.keys).to_set() =~= Set::<u32>::empty());
        heap
    }

    fn position(&self, code: u32) -> (index: Option<usize>)
        requires
            self.wf(),
        ensures
            match index {
                Some(i) => i < key_slots(self.keys).len() && key_slots(self.keys)[i as int] == code,
                None => !key_slots(self.keys).contains(code),
            },
    {
        let n = keys_len(&self.keys);
        for i in 0..n
            invariant
                n == key_slots(self.keys).len(),
                forall|j: int| 0 <= j < i ==> key_slots(self.keys)[j] != code,
        {
            if keys_get(&self.keys, i) == code {
                return Some(i);
            }
        }
        None
    }

    /// Records that `code` was pressed. A key that is already held, or a key
    /// pressed while the buffer is full, is ignored.
    pub fn key_press(&mut self, code: u32)
        requires
            old(self).wf(),
        ensures
            final(self).wf(),
            final(self).pressed() == spec_after_press(old(self).pressed(), old(self).count(), code),
            if old(self).pressed().contains(code) || old(self).count() >= SIMULTANEOUS_KEY_COUNT {
                final(self).count() == old(self).count()
            } else {
                final(self).count() == old(self).count() + 1
            },
    {
        let ghost before = key_slots(self.keys);
        // if input key has been existed, just ignore it.
        if self.position(code).is_some() {
            return;
        }
        // and if the key pool has been full, just ignore the input key.
        if keys_len(&self.keys) < SIMULTANEOUS_KEY_COUNT {
            keys_push(&mut self.keys, code);
            proof {
                let after = key_slots(self.keys);
                assert(after.to_set() =~= before.to_set().insert(code)) by {
                    assert forall|x: u32| after.to_set().contains(x) <==> before.to_set().insert(code).contains(x) by {
                        if after.contains(x) && x != code {
                            let j = choose|j: int| 0 <= j < after.len() && after[j] == x;
                            assert(j < before.len());
                            assert(before[j] == x);
                        }
                        if before.contains(x) {
                            let j = choose|j: int| 0 <= j < before.len() && before[j] == x;
                            assert(after[j] == x);
                        }
                        if x == code {
                            assert(after[before.len() as int] == code);
                        }
                    }
                }
                assert forall|i: int, j: int| 0 <= i < after.len() && 0 <= j < after.len() && i != j implies after[i] != after[j] by {
                    if i < before.len() && j < before.len() {
                    } else if i < before.len() {
                        assert(before.contains(after[i]));
                    } else {
                        assert(before.contains(after[j]));
                    }
                }
            }
        } else {
            proof {
                assert(before.no_duplicates());
                before.unique_seq_to_set();
            }
        }
    }

    /// Records that `code` was released.
    pub fn key_release(&mut self, code: u32)
        requires
            old(self).wf(),
        ensures
            final(self).wf(),
            final(self).pressed() == spec_after_release(old(self).pressed(), code),
    {
        let ghost before = key_slots(self.keys);
        if let Some(index) = self.position(code) {
            keys_swap_remove(&mut self.keys, index);
            proof {
                let after = key_slots(self.keys);
                let last = before.last();
                assert(after == before.update(index as int, last).drop_last());
                assert forall|x: u32| after.to_set().contains(x) <==> before.to_set().remove(code).contains(x) by {
                    if after.contains(x) {
                        let j = choose|j: int| 0 <= j < after.len() && after[j] == x;
                        if j == index {
                            assert(x == last);
                            assert(before[before.len() - 1] == x);
                            assert(index != before.len() - 1);
                        } else {
                            assert(before[j] == x);
                        }
                    }
                    if before.contains(x) && x != code {
                        let j = choose|j: int| 0 <= j < before.len() && before[j] == x;
                        if j == before.len() - 1 {
                            assert(after[index as int] == x);
                        } else {
                            assert(j != index);
                            assert(after[j] == x);
                        }
                    }
                }
                assert(after.to_set() =~= before.to_set().remove(code));
                assert forall|i: int, j: int| 0 <= i < after.len() && 0 <= j < after.len() && i != j implies after[i] != after[j] by {
                    let bi = if i == index { before.len() - 1 } else { i };
                    let bj = if j == index { before.len() - 1 } else { j };
                    assert(after[i] == before[bi]);
                    assert(after[j] == before[bj]);
                }
            }
        } else {
            assert(before.to_set() =~= before.to_set().remove(code));
        }
    }

    /// Whether the key `code` is held down.
    pub fn is_key_pressed(&self, code: u32) -> (pressed: bool)
        requires
            self.wf(),
        ensures
            pressed == self.pressed().contains(code),
    {
        self.position(code).is_some()
    }
}

impl Default for KeyHeap {
    fn default() -> (heap: KeyHeap)
        ensures
            heap.wf(),
            heap.pressed() == Set::<u32>::empty(),
            heap.count() == 0,
    {
        KeyHeap::new()
    }
}

/// A window or device event, reduced to what the controller reacts to.
#[derive(Debug, Clone, Copy, PartialEq, Eq, Structural)]
pub enum InputEvent {
    /// The mouse moved.
    MouseMotion,
    /// A key with a known code went down.
    KeyPressed(u32),
    /// A key with a known code went up.
    KeyReleased(u32),
    /// The window was resized.
    Resized,
    /// The window was asked to close.
    CloseRequested,
    /// Anything else.
    Other,
}

/// Collects the input of one frame and decides what the render loop does next.
pub struct EventController {
    pub key: KeyHeap,
    action: FrameAction,
    is_toggle_key: bool,
    is_toggle_cursor: bool,
}

impl EventController {
    /// The key state is well formed.
    pub closed spec fn wf(&self) -> bool {
        self.key.wf()
    }

    /// The state of the keys.
    pub closed spec fn keys(&self) -> KeyHeap {
        self.key
    }

    /// What the render loop is asked to do.
    pub closed spec fn action(&self) -> FrameAction {
        self.action
    }

    /// Whether a key went down since the last frame tick.
    pub closed spec fn key_toggled(&self) -> bool {
        self.is_toggle_key
    }

    /// Whether the cursor moved since the last frame tick.
    pub closed spec fn cursor_toggled(&self) -> bool {
        self.is_toggle_cursor
    }

    /// Applies one event.
    pub fn record_event(&mut self, event: InputEvent)
        requires
            old(self).wf(),
        ensures
            final(self).wf(),
            match event {
                InputEvent::MouseMotion => {
                    &&& final(self).cursor_toggled()
                    &&& final(self).keys() == old(self).keys()
                    &&& final(self).key_toggled() == old(self).key_toggled()
                    &&& final(self).action() == old(self).action()
                },
                InputEvent::KeyPressed(code) => {
                    &&& final(self).key_toggled()
                    &&& final(self).keys().pressed() == spec_after_press(
                        old(self).keys().pressed(),
                        old(self).keys().count(),
                        code,
                    )
                    &&& final(self).cursor_toggled() == old(self).cursor_toggled()
                    &&& final(self).action() == old(self).action()
                },
                InputEvent::KeyReleased(code) => {
                    &&& final(self).keys().pressed() == spec_after_release(old(self).keys().pressed(), code)
                    &&& final(self).key_toggled() == old(self).key_toggled()
                    &&& final(self).cursor_toggled() == old(self).cursor_toggled()
                    &&& final(self).action() == old(self).action()
                },
                InputEvent::CloseRequested => {
                    &&& final(self).action() == FrameAction::Terminal
                    &&& final(self).keys() == old(self).keys()
                    &&& final(self).key_toggled() == old(self).key_toggled()
                    &&& final(self).cursor_toggled() == old(self).cursor_toggled()
                },
                _ => *final(self) == *old(self),
            },
    {
        match event {
            InputEvent::MouseMotion => {
                self.is_toggle_cursor = true;
            },
            InputEvent::KeyPressed(code) => {
                self.key.key_press(code);
                self.is_toggle_key = true;
            },
            InputEvent::KeyReleased(code) => {
                self.key.key_release(code);
            },
            InputEvent::Resized => {
                // the window sends a resize when it is created, so the
                // swapchain is not rebuilt on this event.
            },
            InputEvent::CloseRequested => {
                self.action = FrameAction::Terminal;
            },
            InputEvent::Other => {},
        }
    }

    pub fn is_key_active(&self) -> (active: bool)
        ensures
            active == self.key_toggled(),
    {
        self.is_toggle_key
    }

    pub fn is_cursor_active(&self) -> (active: bool)
        ensures
            active == self.cursor_toggled(),
    {
        self.is_toggle_cursor
    }

    /// Starts a new frame: clears the toggles and asks for ordinary rendering.
    pub fn tick_frame(&mut self)
        ensures
            final(self).keys() == old(self).keys(),
            !final(self).key_toggled(),
            !final(self).cursor_toggled(),
            final(self).action() == FrameAction::Rendering,
    {
        self.is_toggle_key = false;
        self.is_toggle_cursor = false;
        self.action = FrameAction::Rendering;
    }

    pub fn current_action(&self) -> (action: FrameAction)
        ensures
            action == self.action(),
    {
        self.action
    }
}

impl Default for EventController {
    fn default() -> (controller: EventController)
        ensures
            controller.wf(),
            controller.keys().pressed() == Set::<u32>::empty(),
            controller.action() == FrameAction::Rendering,
            !controller.key_toggled(),
            !controller.cursor_toggled(),
    {
        EventController {
            key: KeyHeap::new(),
            action: FrameAction::Rendering,
            is_toggle_key: false,
            is_toggle_cursor: false,
        }
    }
}

/// Which way the keys move the camera: `(forward, right)`, each `1`, `-1` or
/// `0`. Of forward and backward, forward wins when both are held; of left and
/// right, left wins.
pub fn camera_motion(keys: &KeyHeap, forward: u32, backward: u32, left: u32, right: u32) -> (motion: (i8, i8))
    requires
        keys.wf(),
    ensures
        motion.0 == (if keys.pressed().contains(forward) {
            1i8
        } else if keys.pressed().contains(backward) {
            -1i8
        } else {
            0i8
        }),
        motion.1 == (if keys.pressed().contains(left) {
            -1i8
        } else if keys.pressed().contains(right) {
            1i8
        } else {
            0i8
        }),
{
    let ahead = if keys.is_key_pressed(forward) {
        1i8
    } else if keys.is_key_pressed(backward) {
        -1i8
    } else {
        0i8
    };
    let aside = if keys.is_key_pressed(left) {
        -1i8
    } else if keys.is_key_pressed(right) {
        1i8
    } else {
        0i8
    };
    (ahead, aside)
}

} // verus!
