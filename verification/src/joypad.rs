use vstd::prelude::*;

verus! {

/// The eight buttons of a controller, in the order in which the shift
/// register hands them out.
#[derive(Clone, Copy, Debug, PartialEq, Eq, Structural)]
pub enum Button {
    A,
    B,
    Select,
    Start,
    Up,
    Down,
    Left,
    Right,
}

impl Button {
    /// Position of the button in the status byte: A is bit 0, Right is bit 7.
    pub open spec fn bit(self) -> nat {
        match self {
            Button::A => 0,
            Button::B => 1,
            Button::Select => 2,
            Button::Start => 3,
            Button::Up => 4,
            Button::Down => 5,
            Button::Left => 6,
            Button::Right => 7,
        }
    }

    /// The status byte in which only this button is held.
    pub open spec fn spec_mask(self) -> u8 {
        match self {
            Button::A => 0x01,
            Button::B => 0x02,
            Button::Select => 0x04,
            Button::Start => 0x08,
            Button::Up => 0x10,
            Button::Down => 0x20,
            Button::Left => 0x40,
            Button::Right => 0x80,
        }
    }

    #[verifier::when_used_as_spec(spec_mask)]
    pub fn mask(self) -> (m: u8)
        ensures
            m == self.spec_mask(),
    {
        match self {
            Button::A => 0x01,
            Button::B => 0x02,
            Button::Select => 0x04,
            Button::Start => 0x08,
            Button::Up => 0x10,
            Button::Down => 0x20,
            Button::Left => 0x40,
            Button::Right => 0x80,
        }
    }
}

impl vstd::std_specs::convert::FromSpecImpl<Button> for u8 {
    open spec fn obeys_from_spec() -> bool {
        true
    }

    open spec fn from_spec(button: Button) -> u8 {
        button.spec_mask()
    }
}

impl From<Button> for u8 {
    fn from(button: Button) -> (m: u8) {
        button.mask()
    }
}

/// A controller: a latch of held buttons read out one bit at a time.
#[derive(Clone, Copy, Debug, PartialEq, Eq, Structural)]
pub struct Joypad {
    /// One bit per held button.
    pub status: u8,
    /// While set, the read-out stays on the first button.
    pub strobe: bool,
    /// Next bit to hand out; 8 once all have been read.
    pub index: u8,
}

/// Bit `index` of `status`, as 0 or 1.
pub open spec fn status_bit(status: u8, index: u8) -> u8 {
    (status >> index) & 1
}

impl Joypad {
    /// The state after `press(btn)`.
    pub open spec fn spec_press(self, btn: Button) -> Joypad {
        Joypad { status: self.status | btn.spec_mask(), ..self }
    }

    /// The state after `release(btn)`.
    pub open spec fn spec_release(self, btn: Button) -> Joypad {
        Joypad { status: self.status & !btn.spec_mask(), ..self }
    }

    /// The state after `write(data)`.
    pub open spec fn spec_write(self, data: u8) -> Joypad {
        let strobe = data & 0x01 != 0;
        Joypad { strobe, index: if strobe { 0 } else { self.index }, ..self }
    }

    /// The byte that `read()` returns.
    pub open spec fn spec_read_value(self) -> u8 {
        if self.index > 7 {
            1
        } else {
            status_bit(self.status, self.index)
        }
    }

    /// The state after `read()`.
    pub open spec fn spec_read_state(self) -> Joypad {
        if self.index > 7 || self.strobe {
            self
        } else {
            Joypad { index: (self.index + 1) as u8, ..self }
        }
    }

    /// The state after `n` reads in a row.
    pub open spec fn spec_after_reads(self, n: nat) -> Joypad
        decreases n,
    {
        if n == 0 {
            self
        } else {
            self.spec_after_reads((n - 1) as nat).spec_read_state()
        }
    }

    /// A controller with nothing held, strobe off, read-out at the first button.
    pub fn new() -> (j: Joypad)
        ensures
            j == (Joypad { status: 0, strobe: false, index: 0 }),
    {
        Joypad { status: 0, strobe: false, index: 0 }
    }

    /// Holds `btn` down.
    pub fn press(&mut self, btn: Button)
        ensures
            *final(self) == old(self).spec_press(btn),
    {
        self.status = self.status | btn.mask();
    }

    /// Lets `btn` go.
    pub fn release(&mut self, btn: Button)
        ensures
            *final(self) == old(self).spec_release(btn),
    {
        self.status = self.status & !btn.mask();
    }

    /// Hands out the next button bit, A first; 1 once all eight are out.
    /// While the strobe is set the read-out does not advance.
    pub fn read(&mut self) -> (response: u8)
        ensures
            response == old(self).spec_read_value(),
            *final(self) == old(self).spec_read_state(),
    {
        if self.index > 7 {
            return 1;
        }
        let response: u8 = (self.status >> self.index) & 1;
        if !self.strobe {
            self.index = self.index + 1;
        }
        response
    }

    /// Sets the strobe from bit 0 of `data`; a set strobe rewinds the read-out.
    pub fn write(&mut self, data: u8)
        ensures
            *final(self) == old(self).spec_write(data),
    {
        self.strobe = data & 0x01 != 0;
        if self.strobe {
            self.index = 0;
        }
    }
}

impl Default for Joypad {
    fn default() -> (j: Joypad)
        ensures
            j == (Joypad { status: 0, strobe: false, index: 0 }),
    {
        Joypad::new()
    }
}

/// The pressed state of a button is the bit that its mask selects.
pub proof fn lemma_mask_selects_bit(status: u8, btn: Button)
    ensures
        status_bit(status, btn.bit() as u8) == 1 <==> status & btn.spec_mask() != 0,
        status_bit(status, btn.bit() as u8) == 0 || status_bit(status, btn.bit() as u8) == 1,
{
    assert(forall|s: u8, i: u8| i < 8 ==> (((s >> i) & 1 == 1) <==> (s & (1u8 << i) != 0)))
        by (bit_vector);
    assert(forall|s: u8, i: u8| i < 8 ==> ((s >> i) & 1 == 0 || (s >> i) & 1 == 1))
        by (bit_vector);
    assert(1u8 << 0u8 == 1 && 1u8 << 1u8 == 2 && 1u8 << 2u8 == 4 && 1u8 << 3u8 == 8 && 1u8 << 4u8
        == 16 && 1u8 << 5u8 == 32 && 1u8 << 6u8 == 64 && 1u8 << 7u8 == 128) by (bit_vector);
}

/// After the strobe was raised and dropped, `k` reads leave the read-out at
/// button `k`, and at 8 from the eighth read on.
pub proof fn lemma_reads_advance(j: Joypad, k: nat)
    requires
        !j.strobe,
        j.index == 0,
    ensures
        j.spec_after_reads(k).status == j.status,
        !j.spec_after_reads(k).strobe,
        j.spec_after_reads(k).index == (if k < 8 { k } else { 8 }),
    decreases k,
{
    if k > 0 {
        lemma_reads_advance(j, (k - 1) as nat);
    }
}

/// Read-out order: after `write(1); write(0)`, read number `k` (from 0)
/// returns the bit of button `k` for the first eight reads, in the order
/// A, B, Select, Start, Up, Down, Left, Right, and 1 for every read after.
pub proof fn lemma_read_sequence(j: Joypad, k: nat)
    ensures
        ({
            let latched = j.spec_write(1).spec_write(0);
            let at_k = latched.spec_after_reads(k);
            &&& latched.status == j.status
            &&& k < 8 ==> at_k.spec_read_value() == status_bit(j.status, k as u8)
            &&& k >= 8 ==> at_k.spec_read_value() == 1
        }),
{
    assert(1u8 & 0x01 != 0) by (bit_vector);
    assert(0u8 & 0x01 == 0) by (bit_vector);
    let latched = j.spec_write(1).spec_write(0);
    lemma_reads_advance(latched, k);
}

/// Pressing a button sets its bit and no other; releasing clears it and no
/// other.
pub proof fn lemma_press_release(j: Joypad, btn: Button, other: Button)
    ensures
        j.spec_press(btn).status & btn.spec_mask() != 0,
        j.spec_release(btn).status & btn.spec_mask() == 0,
        other != btn ==> (j.spec_press(btn).status & other.spec_mask()) == (j.status
            & other.spec_mask()),
        other != btn ==> (j.spec_release(btn).status & other.spec_mask()) == (j.status
            & other.spec_mask()),
{
    let s = j.status;
    let m = btn.spec_mask();
    let o = other.spec_mask();
    assert(m != 0 ==> (s | m) & m != 0) by (bit_vector);
    assert((s & !m) & m == 0) by (bit_vector);
    assert(m & o == 0 ==> ((s | m) & o == s & o) && ((s & !m) & o == s & o)) by (bit_vector);
    assert(other != btn ==> m & o == 0) by {
        assert(forall|a: u8, b: u8|
            (a == 1 || a == 2 || a == 4 || a == 8 || a == 16 || a == 32 || a == 64 || a == 128)
                && (b == 1 || b == 2 || b == 4 || b == 8 || b == 16 || b == 32 || b == 64 || b
                == 128) && a != b ==> a & b == 0) by (bit_vector);
    }
}

} // verus!
