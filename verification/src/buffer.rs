//! Attack Buffer: a per-fighter queue of at most two recent attack-button
//! presses with a rolling timeout, resolving to a combo key.

use vstd::prelude::*;

verus! {

/// One recognized attack button.
#[derive(Clone, Copy, Debug, PartialEq, Eq, Structural)]
pub enum AttackKey {
    One,
    Two,
}

impl Default for AttackKey {
    /// The first attack button.
    fn default() -> (r: Self)
        ensures
            r == AttackKey::One,
    {
        AttackKey::One
    }
}

/// The combo key an ordered pair of attack presses resolves to; also the key
/// a cooldown entry is filed under.
#[derive(Clone, Copy, Debug, PartialEq, Eq, Structural)]
pub enum AttackType {
    OneOne,
    OneTwo,
    TwoOne,
    TwoTwo,
}

/// The logical purpose of one bound input button.
#[derive(Clone, Copy, Debug, PartialEq, Eq, Structural)]
pub enum InputPurpose {
    Up,
    Down,
    Left,
    Right,
    Atk1,
    Atk2,
    Reset,
}

/// The edge transition an input snapshot reports for a button.
#[derive(Clone, Copy, Debug, PartialEq, Eq, Structural)]
pub enum InputKeyboardType {
    JustPressed,
    JustReleased,
    Idle,
}

/// The combo key named by two presses in order.
pub open spec fn combo_of(first: AttackKey, second: AttackKey) -> AttackType {
    match (first, second) {
        (AttackKey::One, AttackKey::One) => AttackType::OneOne,
        (AttackKey::One, AttackKey::Two) => AttackType::OneTwo,
        (AttackKey::Two, AttackKey::One) => AttackType::TwoOne,
        (AttackKey::Two, AttackKey::Two) => AttackType::TwoTwo,
    }
}

/// Mathematical state of an attack buffer.
pub struct BufferView {
    pub keys: Seq<AttackKey>,
    pub final_timestamp: u64,
}

/// The buffered presses of one fighter and the timestamp of the last
/// accepted one.
#[derive(Clone, Debug)]
pub struct AttackBuffer {
    pub buffer: Vec<AttackKey>,
    pub final_timestamp: u64,
}

impl View for AttackBuffer {
    type V = BufferView;

    open spec fn view(&self) -> BufferView {
        BufferView { keys: self.buffer@, final_timestamp: self.final_timestamp }
    }
}

/// State after recording one input edge.  Only press edges act: `Reset`
/// clears the buffer unconditionally, an attack key is appended while fewer
/// than two entries are present, and everything else is ignored.
pub open spec fn record_spec(
    b: BufferView,
    input_type: InputKeyboardType,
    purpose: InputPurpose,
    now: u64,
) -> BufferView {
    if input_type != InputKeyboardType::JustPressed {
        b
    } else {
        match purpose {
            InputPurpose::Reset => BufferView { keys: Seq::empty(), final_timestamp: 0 },
            InputPurpose::Atk1 => if b.keys.len() < 2 {
                BufferView { keys: b.keys.push(AttackKey::One), final_timestamp: now }
            } else {
                b
            },
            InputPurpose::Atk2 => if b.keys.len() < 2 {
                BufferView { keys: b.keys.push(AttackKey::Two), final_timestamp: now }
            } else {
                b
            },
            _ => b,
        }
    }
}

/// Whether the buffer is stale at `now`: the last accepted press lies more
/// than `timeout` in the past.
pub open spec fn stale_spec(b: BufferView, now: u64, timeout: u64) -> bool {
    b.final_timestamp + timeout < now
}

/// The combo key resolution yields: the first two buffered presses in order,
/// unless the buffer is stale or holds fewer than two entries.
pub open spec fn resolve_result_spec(b: BufferView, now: u64, timeout: u64) -> Option<AttackType> {
    if stale_spec(b, now, timeout) {
        Option::None
    } else if b.keys.len() >= 2 {
        Option::Some(combo_of(b.keys[0], b.keys[1]))
    } else {
        Option::None
    }
}

/// Buffer state after resolution: cleared when stale or when a combo key was
/// taken, untouched otherwise.
pub open spec fn resolve_state_spec(b: BufferView, now: u64, timeout: u64) -> BufferView {
    if stale_spec(b, now, timeout) {
        BufferView { keys: Seq::empty(), final_timestamp: 0 }
    } else if b.keys.len() >= 2 {
        BufferView { keys: Seq::empty(), final_timestamp: 0 }
    } else {
        b
    }
}

impl AttackBuffer {
    /// The buffer never holds more than two presses.
    pub open spec fn well_formed(self) -> bool {
        self.buffer@.len() <= 2
    }

    /// A fresh, empty buffer.
    pub fn new() -> (r: AttackBuffer)
        ensures
            r@.keys.len() == 0,
            r@.final_timestamp == 0,
            r.well_formed(),
    {
        AttackBuffer { buffer: Vec::new(), final_timestamp: 0 }
    }

    /// Records one input edge, accepting attack presses and the reset input.
    pub fn add_to_buffer(
        &mut self,
        input_type: InputKeyboardType,
        purpose: InputPurpose,
        now: u64,
    )
        requires
            old(self).well_formed(),
        ensures
            final(self).well_formed(),
            final(self)@ == record_spec(old(self)@, input_type, purpose, now),
    {
        if input_type == InputKeyboardType::JustPressed {
            match purpose {
                InputPurpose::Reset => {
                    self.buffer.clear();
                    self.final_timestamp = 0;
                },
                InputPurpose::Atk1 => {
                    if self.buffer.len() < 2 {
                        self.buffer.push(AttackKey::One);
                        self.final_timestamp = now;
                    }
                },
                InputPurpose::Atk2 => {
                    if self.buffer.len() < 2 {
                        self.buffer.push(AttackKey::Two);
                        self.final_timestamp = now;
                    }
                },
                _ => {},
            }
        }
    }

    /// Resolves the buffer: a stale buffer is cleared without effect, a full
    /// buffer is cleared and yields its combo key, anything else waits.
    pub fn execute_buffer(&mut self, now: u64, timeout: u64) -> (combo: Option<AttackType>)
        requires
            old(self).well_formed(),
        ensures
            final(self).well_formed(),
            final(self)@ == resolve_state_spec(old(self)@, now, timeout),
            combo == resolve_result_spec(old(self)@, now, timeout),
    {
        let stale = if timeout > u64::MAX - self.final_timestamp {
            false
        } else {
            self.final_timestamp + timeout < now
        };
        if stale {
            self.buffer.clear();
            self.final_timestamp = 0;
            Option::None
        } else if self.buffer.len() >= 2 {
            let first = self.buffer[0];
            let second = self.buffer[1];
            self.buffer.clear();
            self.final_timestamp = 0;
            let combo = match (first, second) {
                (AttackKey::One, AttackKey::One) => AttackType::OneOne,
                (AttackKey::One, AttackKey::Two) => AttackType::OneTwo,
                (AttackKey::Two, AttackKey::One) => AttackType::TwoOne,
                (AttackKey::Two, AttackKey::Two) => AttackType::TwoTwo,
            };
            Option::Some(combo)
        } else {
            Option::None
        }
    }
}

/// The purpose bound to an attack key's button.
pub open spec fn purpose_of_key(k: AttackKey) -> InputPurpose {
    match k {
        AttackKey::One => InputPurpose::Atk1,
        AttackKey::Two => InputPurpose::Atk2,
    }
}

/// Two attack-button presses within the timeout window resolve to the combo
/// key naming the two presses in order, and leave the buffer empty.
pub proof fn lemma_two_presses_resolve(
    b0: BufferView,
    k1: AttackKey,
    k2: AttackKey,
    t1: u64,
    t2: u64,
    t3: u64,
    timeout: u64,
)
    requires
        b0.keys.len() == 0,
        t3 <= t2 + timeout,
    ensures
        ({
            let b1 = record_spec(b0, InputKeyboardType::JustPressed, purpose_of_key(k1), t1);
            let b2 = record_spec(b1, InputKeyboardType::JustPressed, purpose_of_key(k2), t2);
            resolve_result_spec(b2, t3, timeout) == Option::Some(combo_of(k1, k2))
                && resolve_state_spec(b2, t3, timeout).keys.len() == 0
        }),
{
}

/// A buffer whose last press lies more than the timeout in the past resolves
/// to nothing and is cleared.
pub proof fn lemma_stale_resolve(b: BufferView, now: u64, timeout: u64)
    requires
        b.final_timestamp + timeout < now,
    ensures
        resolve_result_spec(b, now, timeout) == Option::<AttackType>::None,
        resolve_state_spec(b, now, timeout).keys.len() == 0,
{
}

} // verus!
