use vstd::prelude::*;

verus! {

/// Frames a fresh action buffer stays alive; one less is the number of
/// frames it can wait after the press.
pub const BUFFER_TIME: u8 = 4;

/// One player's intent on one frame: the movement direction held, the
/// direction newly pressed, and the attack button's press edge and level.
#[derive(Debug, PartialEq, Eq, Clone, Copy, Structural)]
pub struct FgInput {
    pub movement: i8,
    pub movement_press: i8,
    pub attack_press: bool,
    pub attack_hold: bool,
}

/// The buffer an attack press arms, if any.
pub open spec fn buffer_of(movement: i8, pressed: bool) -> Option<ActionBuffer> {
    if pressed {
        Some(ActionBuffer { movement, buff_time: BUFFER_TIME })
    } else {
        None
    }
}

/// `new` when present, else `old`: a fresh press always wins.
pub open spec fn preferred(old: Option<ActionBuffer>, new: Option<ActionBuffer>) -> Option<
    ActionBuffer,
> {
    match new {
        Some(_) => new,
        None => old,
    }
}

/// A buffer after one frame: one frame less to live, gone at zero.
pub open spec fn ticked(b: ActionBuffer) -> Option<ActionBuffer> {
    if b.buff_time <= 1 {
        None
    } else {
        Some(ActionBuffer { buff_time: (b.buff_time - 1) as u8, ..b })
    }
}

/// `ticked` applied to an optional buffer.
pub open spec fn ticked_opt(b: Option<ActionBuffer>) -> Option<ActionBuffer> {
    match b {
        Some(b) => ticked(b),
        None => None,
    }
}

/// `ticked_opt` applied `k` times.
pub open spec fn ticked_times(b: Option<ActionBuffer>, k: nat) -> Option<ActionBuffer>
    decreases k,
{
    if k == 0 {
        b
    } else {
        ticked_opt(ticked_times(b, (k - 1) as nat))
    }
}

impl FgInput {
    pub fn new(movement: i8, movement_press: i8, attack_press: bool, attack_hold: bool) -> (r:
        Self)
        ensures
            r == (FgInput { movement, movement_press, attack_press, attack_hold }),
    {
        FgInput { movement, movement_press, attack_press, attack_hold }
    }

    /// The buffer that this frame's attack press arms, in the held direction.
    pub fn to_buffer(self) -> (r: Option<ActionBuffer>)
        ensures
            r == buffer_of(self.movement, self.attack_press),
    {
        ActionBuffer::new(self.movement, self.attack_press)
    }
}

/// A remembered press: its direction and how many frames it still lives.
#[derive(Debug, PartialEq, Eq, Clone, Copy, Structural)]
pub struct ActionBuffer {
    pub movement: i8,
    pub buff_time: u8,
}

impl ActionBuffer {
    /// A live buffer has between one and `BUFFER_TIME` frames left.
    pub open spec fn wf(self) -> bool {
        1 <= self.buff_time <= BUFFER_TIME
    }

    /// A buffer with the full lifetime if `attack_press`, else none.
    pub fn new(movement: i8, attack_press: bool) -> (r: Option<Self>)
        ensures
            r == buffer_of(movement, attack_press),
            r matches Some(b) ==> b.wf(),
    {
        if attack_press {
            Some(ActionBuffer { movement, buff_time: BUFFER_TIME })
        } else {
            None
        }
    }

    /// The buffer one frame later; `None` once its time runs out.
    pub fn update_buffer(self) -> (r: Option<Self>)
        ensures
            r == ticked(self),
            self.wf() ==> (r matches Some(b) ==> b.wf()),
    {
        match self.buff_time.checked_sub(1) {
            Some(time) if time > 0 => Some(ActionBuffer { buff_time: time, ..self }),
            _ => None,
        }
    }

    /// Resolves an older and a newer buffer of one kind: the newer wins
    /// whenever present, and the older survives only its absence.
    pub fn compare(old: Option<Self>, new: Option<Self>) -> (r: Option<Self>)
        ensures
            r == preferred(old, new),
    {
        match new {
            Some(_) => new,
            None => old,
        }
    }
}

/// A fresh buffer ticked `k` times has `4 - k` frames left for `k < 4`, and
/// is gone from the fourth tick on.
pub proof fn lemma_buffer_lifetime(movement: i8, k: nat)
    ensures
        k < 4 ==> ticked_times(buffer_of(movement, true), k) == Some(
            ActionBuffer { movement, buff_time: (4 - k) as u8 },
        ),
        k >= 4 ==> ticked_times(buffer_of(movement, true), k) is None,
    decreases k,
{
    if k > 0 {
        lemma_buffer_lifetime(movement, (k - 1) as nat);
    }
}

/// The newer buffer wins whenever present, whatever the older one; without a
/// newer one the older one is kept.
pub proof fn lemma_prefer_newer(old: Option<ActionBuffer>, new: Option<ActionBuffer>)
    ensures
        new is Some ==> preferred(old, new) == new,
        new is None ==> preferred(old, new) == old,
{
}

} // verus!
