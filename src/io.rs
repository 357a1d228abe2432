//! The small memory-mapped devices: serial link, timer and joypad.
use vstd::prelude::*;

use crate::alu::bit_of;

verus! {

pub const SB_ADDR: u16 = 0xFF01;

pub const SC_ADDR: u16 = 0xFF02;

pub const P1_ADDR: u16 = 0xFF00;

pub const DIV_ADDR: u16 = 0xFF04;

pub const TIMA_ADDR: u16 = 0xFF05;

pub const TMA_ADDR: u16 = 0xFF06;

pub const TAC_ADDR: u16 = 0xFF07;

/// The serial link: a data register, a control register, and every byte
/// that the guest sent by writing 0x81 to the control register.
pub struct Serial {
    sb: u8,
    sc: u8,
    sent: Vec<u8>,
}

/// The characters of a sequence of ASCII bytes.
pub open spec fn ascii_text(b: Seq<u8>) -> Seq<char> {
    b.map_values(|x: u8| x as char)
}

pub open spec fn all_ascii(b: Seq<u8>) -> bool {
    forall|i: int| 0 <= i < b.len() ==> b[i] < 128
}

/// Relies on String::from_utf8_lossy: ASCII bytes are valid UTF-8 and come
/// out one character each.
#[verifier::external_body]
fn text_of(b: &Vec<u8>) -> (r: String)
    ensures
        all_ascii(b@) ==> r@ == ascii_text(b@),
{
    String::from_utf8_lossy(b.as_slice()).into_owned()
}

impl Serial {
    pub closed spec fn data(&self) -> u8 {
        self.sb
    }

    pub closed spec fn control(&self) -> u8 {
        self.sc
    }

    /// The bytes sent so far, oldest first.
    pub closed spec fn output(&self) -> Seq<u8> {
        self.sent@
    }

    pub fn new() -> (r: Self)
        ensures
            r.data() == 0,
            r.control() == 0,
            r.output() == Seq::<u8>::empty(),
    {
        Self { sb: 0, sc: 0, sent: Vec::new() }
    }

    /// How a write of `value` to SB or SC changes the link from `self` to `s`.
    pub open spec fn written(&self, addr: u16, value: u8, s: Serial) -> bool {
        if addr == SB_ADDR {
            s.data() == value && s.control() == self.control() && s.output() == self.output()
        } else {
            &&& s.data() == self.data()
            &&& s.control() == value
            &&& s.output() == (if value == 0x81 {
                self.output().push(self.data())
            } else {
                self.output()
            })
        }
    }

    /// Writes SB or SC. A write of 0x81 to SC sends the byte in SB.
    pub fn write(&mut self, addr: u16, value: u8)
        requires
            addr == SB_ADDR || addr == SC_ADDR,
        ensures
            old(self).written(addr, value, *final(self)),
    {
        if addr == SB_ADDR {
            self.sb = value;
        } else {
            self.sc = value;
            if value == 0x81 {
                self.sent.push(self.sb);
            }
        }
    }

    pub fn read(&self, addr: u16) -> (r: u8)
        requires
            addr == SB_ADDR || addr == SC_ADDR,
        ensures
            r == (if addr == SB_ADDR {
                self.data()
            } else {
                self.control()
            }),
    {
        if addr == SB_ADDR {
            self.sb
        } else {
            self.sc
        }
    }

    /// The bytes sent so far.
    pub fn sent_bytes(&self) -> (r: &Vec<u8>)
        ensures
            r@ == self.output(),
    {
        &self.sent
    }

    /// The text sent so far, one character per byte.
    pub fn get_buffer(&self) -> (r: String)
        ensures
            all_ascii(self.output()) ==> r@ == ascii_text(self.output()),
    {
        text_of(&self.sent)
    }
}

/// The timer: a 16-bit divider that counts machine clocks, and a counter
/// TIMA that steps on each falling edge of the selected divider bit while
/// the timer is enabled.
pub struct Timer {
    div_clock: u16,
    tima: u8,
    tma: u8,
    tac: u8,
    overflowed: bool,
}

/// The divider bit that TAC bits 1..0 select: 9, 3, 5 or 7.
pub open spec fn selected_bit(tac: u8) -> int {
    let s = tac % 4;
    if s == 0 {
        9
    } else if s == 1 {
        3
    } else if s == 2 {
        5
    } else {
        7
    }
}

/// The signal whose falling edge steps TIMA: the timer is enabled (TAC bit
/// 2) and the selected divider bit is one.
pub open spec fn timer_signal(div: u16, tac: u8) -> bool {
    (tac / 4) % 2 == 1 && bit_of(div as int, selected_bit(tac))
}

impl Timer {
    pub closed spec fn counter(&self) -> u16 {
        self.div_clock
    }

    pub closed spec fn tima(&self) -> u8 {
        self.tima
    }

    pub closed spec fn tma(&self) -> u8 {
        self.tma
    }

    pub closed spec fn tac(&self) -> u8 {
        self.tac
    }

    /// Whether TIMA overflowed during the last change of the timer.
    pub closed spec fn did_overflow(&self) -> bool {
        self.overflowed
    }

    /// The timer after its divider and control take the values `div` and
    /// `tac`: TIMA steps if the signal fell, and reloads from TMA when it
    /// wraps.
    pub open spec fn stepped(&self, div: u16, tac: u8, t: Timer) -> bool {
        let fell = timer_signal(self.counter(), self.tac()) && !timer_signal(div, tac);
        &&& t.counter() == div
        &&& t.tac() == tac
        &&& t.tma() == self.tma()
        &&& t.did_overflow() == (fell && self.tima() == 255)
        &&& t.tima() == (if !fell {
            self.tima()
        } else if self.tima() == 255 {
            self.tma()
        } else {
            (self.tima() + 1) as u8
        })
    }

    pub fn new() -> (r: Self)
        ensures
            r.counter() == 0,
            r.tima() == 0,
            r.tma() == 0,
            r.tac() == 0,
            !r.did_overflow(),
    {
        Self { div_clock: 0, tima: 0, tma: 0, tac: 0, overflowed: false }
    }

    fn signal(div: u16, tac: u8) -> (r: bool)
        ensures
            r == timer_signal(div, tac),
    {
        let sel: u16 = if tac % 4 == 0 {
            512
        } else if tac % 4 == 1 {
            8
        } else if tac % 4 == 2 {
            32
        } else {
            128
        };
        proof {
            reveal_with_fuel(crate::alu::pow2, 10);
        }
        (tac / 4) % 2 == 1 && (div / sel) % 2 == 1
    }

    fn change(&mut self, div: u16, tac: u8)
        ensures
            old(self).stepped(div, tac, *final(self)),
    {
        let fell = Self::signal(self.div_clock, self.tac) && !Self::signal(div, tac);
        self.div_clock = div;
        self.tac = tac;
        self.overflowed = false;
        if fell {
            if self.tima == 255 {
                self.tima = self.tma;
                self.overflowed = true;
            } else {
                self.tima = self.tima + 1;
            }
        }
    }

    /// How a write of `value` to DIV, TIMA, TMA or TAC changes the timer
    /// from `self` to `t`. A write of DIV sets the whole divider to zero.
    pub open spec fn written(&self, addr: u16, value: u8, t: Timer) -> bool {
        if addr == DIV_ADDR {
            self.stepped(0, self.tac(), t)
        } else if addr == TAC_ADDR {
            self.stepped(self.counter(), value, t)
        } else if addr == TIMA_ADDR {
            &&& t.tima() == value
            &&& t.counter() == self.counter()
            &&& t.tma() == self.tma()
            &&& t.tac() == self.tac()
            &&& !t.did_overflow()
        } else {
            &&& t.tma() == value
            &&& t.counter() == self.counter()
            &&& t.tima() == self.tima()
            &&& t.tac() == self.tac()
            &&& !t.did_overflow()
        }
    }

    /// What a read of DIV (the divider's high byte), TIMA, TMA or TAC gives.
    pub open spec fn read_value(&self, addr: u16) -> u8 {
        if addr == DIV_ADDR {
            (self.counter() / 256) as u8
        } else if addr == TIMA_ADDR {
            self.tima()
        } else if addr == TMA_ADDR {
            self.tma()
        } else {
            self.tac()
        }
    }

    /// Whether TIMA overflowed during the last change of the timer.
    pub fn overflowed(&self) -> (r: bool)
        ensures
            r == self.did_overflow(),
    {
        self.overflowed
    }

    /// Writes DIV, TIMA, TMA or TAC.
    pub fn write(&mut self, addr: u16, value: u8)
        requires
            DIV_ADDR <= addr <= TAC_ADDR,
        ensures
            old(self).written(addr, value, *final(self)),
    {
        if addr == DIV_ADDR {
            self.change(0, self.tac);
        } else if addr == TIMA_ADDR {
            self.tima = value;
            self.overflowed = false;
        } else if addr == TMA_ADDR {
            self.tma = value;
            self.overflowed = false;
        } else {
            self.change(self.div_clock, value);
        }
    }

    /// Reads DIV, TIMA, TMA or TAC.
    pub fn read(&self, addr: u16) -> (r: u8)
        requires
            DIV_ADDR <= addr <= TAC_ADDR,
        ensures
            r == self.read_value(addr),
    {
        if addr == DIV_ADDR {
            (self.div_clock / 256) as u8
        } else if addr == TIMA_ADDR {
            self.tima
        } else if addr == TMA_ADDR {
            self.tma
        } else {
            self.tac
        }
    }

    /// Advances one machine cycle: the divider counts four clocks. Returns
    /// whether TIMA overflowed, which requests the timer interrupt.
    pub fn tick(&mut self) -> (r: bool)
        ensures
            old(self).stepped(
                ((old(self).counter() + 4) % 65536) as u16,
                old(self).tac(),
                *final(self),
            ),
            r == final(self).did_overflow(),
    {
        let next = ((self.div_clock as u32 + 4) % 65536) as u16;
        self.change(next, self.tac);
        self.overflowed
    }

    /// A copy of the registers, with the divider and the overflow latch
    /// cleared.
    pub fn clone(&self) -> (r: Timer)
        ensures
            r.counter() == 0,
            r.tima() == self.tima(),
            r.tma() == self.tma(),
            r.tac() == self.tac(),
            !r.did_overflow(),
    {
        Timer { div_clock: 0, tima: self.tima, tma: self.tma, tac: self.tac, overflowed: false }
    }
}

/// The eight buttons.
#[derive(Clone, Copy, PartialEq, Eq, Structural, Debug)]
pub enum Button {
    A,
    B,
    Up,
    Down,
    Left,
    Right,
    Start,
    Select,
}

/// The button a host key character stands for: a, b, u(p), d(own),
/// l(eft), r(ight), (s)t(art), (s)e(lect).
pub open spec fn button_for(c: char) -> Option<Button> {
    if c == 'a' {
        Some(Button::A)
    } else if c == 'b' {
        Some(Button::B)
    } else if c == 'u' {
        Some(Button::Up)
    } else if c == 'd' {
        Some(Button::Down)
    } else if c == 'l' {
        Some(Button::Left)
    } else if c == 'r' {
        Some(Button::Right)
    } else if c == 't' {
        Some(Button::Start)
    } else if c == 'e' {
        Some(Button::Select)
    } else {
        None
    }
}

impl Button {
    /// The button for a host key character, if it names one.
    pub fn from_char(c: char) -> (r: Option<Button>)
        ensures
            r == button_for(c),
    {
        if c == 'a' {
            Some(Button::A)
        } else if c == 'b' {
            Some(Button::B)
        } else if c == 'u' {
            Some(Button::Up)
        } else if c == 'd' {
            Some(Button::Down)
        } else if c == 'l' {
            Some(Button::Left)
        } else if c == 'r' {
            Some(Button::Right)
        } else if c == 't' {
            Some(Button::Start)
        } else if c == 'e' {
            Some(Button::Select)
        } else {
            None
        }
    }
}

/// The joypad: the state of each button (true while pressed) and which of
/// the two rows the guest selected.
pub struct Joypad {
    a: bool,
    b: bool,
    start: bool,
    select: bool,
    up: bool,
    down: bool,
    left: bool,
    right: bool,
    arrow_select: bool,
    action_select: bool,
}

pub open spec fn low_bit(pressed: bool) -> int {
    if pressed {
        0
    } else {
        1
    }
}

/// A row read back: bits 6 and 7 set, bits 3..0 active low.
pub open spec fn row_value(b3: bool, b2: bool, b1: bool, b0: bool) -> u8 {
    (0xC0 + low_bit(b3) * 8 + low_bit(b2) * 4 + low_bit(b1) * 2 + low_bit(b0)) as u8
}

impl Joypad {
    pub closed spec fn pressed(&self, b: Button) -> bool {
        match b {
            Button::A => self.a,
            Button::B => self.b,
            Button::Up => self.up,
            Button::Down => self.down,
            Button::Left => self.left,
            Button::Right => self.right,
            Button::Start => self.start,
            Button::Select => self.select,
        }
    }

    pub closed spec fn arrows_selected(&self) -> bool {
        self.arrow_select
    }

    pub closed spec fn actions_selected(&self) -> bool {
        self.action_select
    }

    /// The directions row: Down, Up, Left, Right at bits 3..0.
    pub open spec fn arrow_row(&self) -> u8 {
        row_value(
            self.pressed(Button::Down),
            self.pressed(Button::Up),
            self.pressed(Button::Left),
            self.pressed(Button::Right),
        )
    }

    /// The actions row: Start, Select, B, A at bits 3..0.
    pub open spec fn action_row(&self) -> u8 {
        row_value(
            self.pressed(Button::Start),
            self.pressed(Button::Select),
            self.pressed(Button::B),
            self.pressed(Button::A),
        )
    }

    /// What the joypad register (0xFF00) reads: the selected row (directions first), or
    /// bits 3..0 set when no row is selected.
    pub open spec fn value(&self) -> u8 {
        if self.arrows_selected() {
            self.arrow_row()
        } else if self.actions_selected() {
            self.action_row()
        } else {
            0xCF
        }
    }

    pub fn new() -> (r: Self)
        ensures
            forall|b: Button| !r.pressed(b),
            !r.arrows_selected(),
            !r.actions_selected(),
    {
        Self {
            a: false,
            b: false,
            start: false,
            select: false,
            up: false,
            down: false,
            left: false,
            right: false,
            arrow_select: false,
            action_select: false,
        }
    }

    fn row(b3: bool, b2: bool, b1: bool, b0: bool) -> (r: u8)
        ensures
            r == row_value(b3, b2, b1, b0),
    {
        let mut v: u8 = 0xC0;
        if !b3 {
            v = v + 8;
        }
        if !b2 {
            v = v + 4;
        }
        if !b1 {
            v = v + 2;
        }
        if !b0 {
            v = v + 1;
        }
        v
    }

    pub fn read(&self) -> (r: u8)
        ensures
            r == self.value(),
    {
        if self.arrow_select {
            self.get_arrow()
        } else if self.action_select {
            self.get_action()
        } else {
            0xCF
        }
    }

    /// Selects the rows: bit 5 clear selects the actions, bit 4 clear the
    /// directions.
    pub fn write(&mut self, value: u8)
        ensures
            final(self).actions_selected() == ((value / 32) % 2 == 0),
            final(self).arrows_selected() == ((value / 16) % 2 == 0),
            forall|b: Button| final(self).pressed(b) == old(self).pressed(b),
    {
        self.action_select = (value / 32) % 2 == 0;
        self.arrow_select = (value / 16) % 2 == 0;
    }

    pub fn set(&mut self, b: Button, state: bool)
        ensures
            final(self).pressed(b) == state,
            forall|o: Button| o != b ==> final(self).pressed(o) == old(self).pressed(o),
            final(self).arrows_selected() == old(self).arrows_selected(),
            final(self).actions_selected() == old(self).actions_selected(),
    {
        match b {
            Button::A => self.a = state,
            Button::B => self.b = state,
            Button::Up => self.up = state,
            Button::Down => self.down = state,
            Button::Left => self.left = state,
            Button::Right => self.right = state,
            Button::Start => self.start = state,
            Button::Select => self.select = state,
        }
    }

    pub fn get_action(&self) -> (r: u8)
        ensures
            r == self.action_row(),
    {
        Self::row(self.start, self.select, self.b, self.a)
    }

    pub fn get_arrow(&self) -> (r: u8)
        ensures
            r == self.arrow_row(),
    {
        Self::row(self.down, self.up, self.left, self.right)
    }
}

/// A write of DIV sets the divider to zero, and each tick after it adds
/// four: after `i` ticks the divider holds 4 * i (wrapping at 16 bits).
pub proof fn lemma_div_restart(t0: Timer, v: u8, ts: Seq<Timer>)
    requires
        ts.len() >= 1,
        t0.written(DIV_ADDR, v, ts[0]),
        forall|i: int|
            0 <= i < ts.len() - 1 ==> ts[i].stepped(
                ((ts[i].counter() + 4) % 65536) as u16,
                ts[i].tac(),
                #[trigger] ts[i + 1],
            ),
    ensures
        forall|i: int| 0 <= i < ts.len() ==> (#[trigger] ts[i]).counter() == (4 * i) % 65536,
    decreases ts.len(),
{
    if ts.len() > 1 {
        let k = ts.len() - 1;
        let pre = ts.drop_last();
        assert forall|i: int| 0 <= i < pre.len() - 1 implies pre[i].stepped(
            ((pre[i].counter() + 4) % 65536) as u16,
            pre[i].tac(),
            #[trigger] pre[i + 1],
        ) by {
            assert(pre[i] == ts[i] && pre[i + 1] == ts[i + 1]);
        }
        lemma_div_restart(t0, v, pre);
        assert(pre[k - 1] == ts[k - 1]);
        assert(ts[k - 1].counter() == (4 * (k - 1)) % 65536);
        assert(ts[k - 1].stepped(
            ((ts[k - 1].counter() + 4) % 65536) as u16,
            ts[k - 1].tac(),
            ts[k - 1 + 1],
        ));
        assert(ts[k].counter() == (ts[k - 1].counter() + 4) % 65536);
        vstd::arithmetic::div_mod::lemma_add_mod_noop(4 * (k - 1), 4, 65536);
        assert(((4 * (k - 1)) % 65536 + 4) % 65536 == (4 * k) % 65536);
        assert forall|i: int| 0 <= i < ts.len() implies (#[trigger] ts[i]).counter() == (4 * i)
            % 65536 by {
            if i < k {
                assert(pre[i] == ts[i]);
            }
        }
    }
}

} // verus!
