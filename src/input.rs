use vstd::prelude::*;

verus! {

/// Number of key identifiers tracked.
pub const KEY_COUNT: usize = 512;

/// Whether a key is held down.
#[derive(Clone, Copy, Debug, PartialEq, Eq, Structural)]
pub enum KeyState {
    Pressed,
    Released,
}

/// A key's state and how many times it changed since the last reset.
#[derive(Clone, Copy, Debug, PartialEq, Eq, Structural)]
pub struct KeyRecord {
    pub state: KeyState,
    pub changes: u32,
}

pub open spec fn bump(n: u32) -> u32 {
    if n == u32::MAX { n } else { (n + 1) as u32 }
}

/// Keyboard state, owned by whoever runs the ticks: for each key identifier
/// below `KEY_COUNT`, up or down and a change counter that `reset` clears at
/// the start of a tick.
pub struct Input {
    keys: Vec<KeyRecord>,
}

impl View for Input {
    type V = Seq<KeyRecord>;

    closed spec fn view(&self) -> Seq<KeyRecord> {
        self.keys@
    }
}

impl Input {
    pub open spec fn wf(&self) -> bool {
        self@.len() == KEY_COUNT
    }

    /// Every key up, no changes.
    pub fn new() -> (r: Self)
        ensures
            r.wf(),
            forall|k: int|
                0 <= k < KEY_COUNT ==> #[trigger] r@[k] == (KeyRecord {
                    state: KeyState::Released,
                    changes: 0,
                }),
    {
        let mut keys: Vec<KeyRecord> = Vec::new();
        let mut i: usize = 0;
        while i < KEY_COUNT
            invariant
                0 <= i <= KEY_COUNT,
                keys@.len() == i,
                forall|k: int|
                    0 <= k < i ==> #[trigger] keys@[k] == (KeyRecord {
                        state: KeyState::Released,
                        changes: 0,
                    }),
            decreases KEY_COUNT - i,
        {
            keys.push(KeyRecord { state: KeyState::Released, changes: 0 });
            i = i + 1;
        }
        Input { keys }
    }

    /// Clears every change counter and keeps every key's state.
    pub fn reset(&mut self)
        requires
            old(self).wf(),
        ensures
            final(self).wf(),
            forall|k: int|
                0 <= k < KEY_COUNT ==> #[trigger] final(self)@[k] == (KeyRecord {
                    state: old(self)@[k].state,
                    changes: 0,
                }),
    {
        let mut i: usize = 0;
        while i < self.keys.len()
            invariant
                0 <= i <= self.keys.len(),
                self.keys@.len() == KEY_COUNT,
                forall|k: int|
                    0 <= k < KEY_COUNT ==> #[trigger] self.keys@[k] == if k < i {
                        KeyRecord { state: old(self)@[k].state, changes: 0 }
                    } else {
                        old(self)@[k]
                    },
            decreases self.keys.len() - i,
        {
            let state = self.keys[i].state;
            self.keys.set(i, KeyRecord { state, changes: 0 });
            i = i + 1;
        }
    }

    /// Whether `key` is held down.
    pub fn is_down(&self, key: usize) -> (r: bool)
        requires
            self.wf(),
            key < KEY_COUNT,
        ensures
            r == (self@[key as int].state == KeyState::Pressed),
    {
        match self.keys[key].state {
            KeyState::Pressed => true,
            KeyState::Released => false,
        }
    }

    /// Whether `key` is up and changed since the last reset.
    pub fn is_released(&self, key: usize) -> (r: bool)
        requires
            self.wf(),
            key < KEY_COUNT,
        ensures
            r == (self@[key as int].state == KeyState::Released && self@[key as int].changes > 0),
    {
        let rec = self.keys[key];
        match rec.state {
            KeyState::Released => rec.changes > 0,
            KeyState::Pressed => false,
        }
    }

    /// Whether `key` is down and changed since the last reset.
    pub fn is_pressed(&self, key: usize) -> (r: bool)
        requires
            self.wf(),
            key < KEY_COUNT,
        ensures
            r == (self@[key as int].state == KeyState::Pressed && self@[key as int].changes > 0),
    {
        let rec = self.keys[key];
        match rec.state {
            KeyState::Pressed => rec.changes > 0,
            KeyState::Released => false,
        }
    }

    /// Records that `key` went to `state`: the key takes that state and its
    /// change counter grows by one (staying at its maximum once there).
    /// Every other key is left as it was.
    pub fn update(&mut self, key: usize, state: KeyState)
        requires
            old(self).wf(),
            key < KEY_COUNT,
        ensures
            final(self).wf(),
            final(self)@ == old(self)@.update(
                key as int,
                KeyRecord { state, changes: bump(old(self)@[key as int].changes) },
            ),
    {
        match state {
            KeyState::Pressed => self.set_pressed(key),
            KeyState::Released => self.set_released(key),
        }
    }

    /// `update(key, KeyState::Pressed)`.
    pub fn set_pressed(&mut self, key: usize)
        requires
            old(self).wf(),
            key < KEY_COUNT,
        ensures
            final(self).wf(),
            final(self)@ == old(self)@.update(
                key as int,
                KeyRecord { state: KeyState::Pressed, changes: bump(old(self)@[key as int].changes) },
            ),
    {
        let changes = self.keys[key].changes;
        let changes = if changes == u32::MAX { changes } else { changes + 1 };
        self.keys.set(key, KeyRecord { state: KeyState::Pressed, changes });
    }

    /// `update(key, KeyState::Released)`.
    pub fn set_released(&mut self, key: usize)
        requires
            old(self).wf(),
            key < KEY_COUNT,
        ensures
            final(self).wf(),
            final(self)@ == old(self)@.update(
                key as int,
                KeyRecord { state: KeyState::Released, changes: bump(old(self)@[key as int].changes) },
            ),
    {
        let changes = self.keys[key].changes;
        let changes = if changes == u32::MAX { changes } else { changes + 1 };
        self.keys.set(key, KeyRecord { state: KeyState::Released, changes });
    }
}

} // verus!
