//! The MBC3 real-time clock: seconds/minutes/hours/day counter with halt and carry
//! flags, the latch protocol and the 13-byte persistence format.
use vstd::prelude::*;

verus! {

pub const SECONDS_PER_DAY: u64 = 86_400;

#[derive(Clone, Copy, Debug, PartialEq, Eq)]
pub struct Mbc3Rtc {
    pub seconds: u8,
    pub minutes: u8,
    pub hours: u8,
    pub day_counter: u16,
    pub carry: bool,
    pub halted: bool,
    pub latched_registers: [u8; 5],
    pub has_latched_snapshot: bool,
    pub latch_armed: bool,
    pub last_update_epoch_secs: u64,
}

/// The array holding the first five values of `s`.
pub open spec fn array5(s: Seq<u8>) -> [u8; 5] {
    [s[0], s[1], s[2], s[3], s[4]]
}

/// The day register pair: bit 0 of the high byte is day bit 8, bit 6 halt, bit 7 carry.
pub open spec fn day_high_byte(day_counter: u16, halted: bool, carry: bool) -> u8 {
    (((day_counter / 256) % 2) + (if halted {
        0x40int
    } else {
        0
    }) + (if carry {
        0x80int
    } else {
        0
    })) as u8
}

impl Mbc3Rtc {
    /// The clock's counters are within their hardware ranges.
    pub open spec fn wf(&self) -> bool {
        &&& self.seconds < 60
        &&& self.minutes < 60
        &&& self.hours < 24
        &&& self.day_counter <= 0x1FF
    }

    /// Seconds elapsed in the current day.
    pub open spec fn seconds_of_day(&self) -> int {
        self.seconds + 60 * self.minutes + 3600 * self.hours
    }

    /// The clock after `elapsed` seconds of running time.
    pub open spec fn advanced_by(self, elapsed: int) -> Mbc3Rtc {
        if elapsed == 0 {
            self
        } else {
            let total = self.seconds_of_day() + elapsed;
            let days = total / 86400;
            let rem = total % 86400;
            let new_days = if self.day_counter + days > u64::MAX {
                u64::MAX as int
            } else {
                self.day_counter + days
            };
            Mbc3Rtc {
                hours: (rem / 3600) as u8,
                minutes: ((rem % 3600) / 60) as u8,
                seconds: (rem % 60) as u8,
                carry: if days > 0 && new_days > 0x1FF {
                    true
                } else {
                    self.carry
                },
                day_counter: if days > 0 {
                    (new_days % 512) as u16
                } else {
                    self.day_counter
                },
                ..self
            }
        }
    }

    /// The clock brought forward to host time `now`: time only moves forward, and a
    /// halted clock only records the new reference time.
    pub open spec fn ticked_to(self, now: u64) -> Mbc3Rtc {
        if now <= self.last_update_epoch_secs {
            self
        } else {
            let moved = Mbc3Rtc { last_update_epoch_secs: now, ..self };
            if self.halted {
                moved
            } else {
                moved.advanced_by(now - self.last_update_epoch_secs)
            }
        }
    }

    /// The five live register values 0x08..=0x0C.
    pub open spec fn live(&self) -> Seq<u8> {
        seq![
            (self.seconds % 60) as u8,
            (self.minutes % 60) as u8,
            (self.hours % 24) as u8,
            (self.day_counter % 256) as u8,
            day_high_byte(self.day_counter, self.halted, self.carry),
        ]
    }

    pub open spec fn latched_after(self, value: u8) -> Mbc3Rtc {
        if value == 0 {
            Mbc3Rtc { latch_armed: true, ..self }
        } else if value == 1 && self.latch_armed {
            Mbc3Rtc {
                latched_registers: array5(self.live()),
                has_latched_snapshot: true,
                latch_armed: false,
                ..self
            }
        } else {
            Mbc3Rtc { latch_armed: false, ..self }
        }
    }

    /// The value read from register `select` (0x08..=0x0C), from the latched copy or live.
    pub open spec fn register_value(self, select: u8, use_latched: bool) -> u8 {
        let index = if select < 8 {
            0
        } else {
            select - 8
        };
        if index >= 5 {
            0xFF
        } else if use_latched {
            self.latched_registers@[index]
        } else {
            self.live()[index]
        }
    }

    /// The clock after writing `value` to register `select` at host time `now`.
    pub open spec fn written(self, select: u8, value: u8, now: u64) -> Mbc3Rtc {
        let r = self.ticked_to(now);
        if select == 0x08 {
            Mbc3Rtc { seconds: value % 60, ..r }
        } else if select == 0x09 {
            Mbc3Rtc { minutes: value % 60, ..r }
        } else if select == 0x0A {
            Mbc3Rtc { hours: value % 24, ..r }
        } else if select == 0x0B {
            Mbc3Rtc { day_counter: ((r.day_counter / 256) * 256 + value) as u16, ..r }
        } else if select == 0x0C {
            Mbc3Rtc {
                day_counter: ((r.day_counter % 256) + 256 * (value % 2)) as u16,
                halted: (value / 64) % 2 == 1,
                carry: value >= 0x80,
                last_update_epoch_secs: now,
                ..r
            }
        } else {
            r
        }
    }

    /// A stopped-at-zero clock whose reference time is `now`.
    pub open spec fn new_spec(now: u64) -> Mbc3Rtc {
        Mbc3Rtc {
            seconds: 0,
            minutes: 0,
            hours: 0,
            day_counter: 0,
            carry: false,
            halted: false,
            latched_registers: [0, 0, 0, 0, 0],
            has_latched_snapshot: false,
            latch_armed: false,
            last_update_epoch_secs: now,
        }
    }

    pub fn new(now_epoch_secs: u64) -> (r: Self)
        ensures
            r.wf(),
            r == Mbc3Rtc::new_spec(now_epoch_secs),
    {
        let r = Self {
            seconds: 0,
            minutes: 0,
            hours: 0,
            day_counter: 0,
            carry: false,
            halted: false,
            latched_registers: [0;5],
            has_latched_snapshot: false,
            latch_armed: false,
            last_update_epoch_secs: now_epoch_secs,
        };
        assert(r.latched_registers =~= Mbc3Rtc::new_spec(now_epoch_secs).latched_registers);
        r
    }

    pub fn tick_to_epoch(&mut self, now_epoch_secs: u64)
        requires
            old(self).wf(),
        ensures
            *final(self) == old(self).ticked_to(now_epoch_secs),
            final(self).wf(),
    {
        if now_epoch_secs <= self.last_update_epoch_secs {
            return;
        }
        let elapsed = now_epoch_secs - self.last_update_epoch_secs;
        self.last_update_epoch_secs = now_epoch_secs;
        if self.halted {
            return;
        }
        self.add_elapsed_seconds(elapsed);
    }

    /// Advances the counters by `elapsed_secs`. The day count is computed from the
    /// seconds of the current day plus the elapsed time without an intermediate sum that
    /// could exceed 64 bits.
    pub fn add_elapsed_seconds(&mut self, elapsed_secs: u64)
        requires
            old(self).wf(),
        ensures
            *final(self) == old(self).advanced_by(elapsed_secs as int),
            final(self).wf(),
    {
        if elapsed_secs == 0 {
            return;
        }
        let base: u64 = (self.seconds as u64) + (self.minutes as u64) * 60 + (self.hours as u64)
            * 3600;
        let within: u64 = base + elapsed_secs % SECONDS_PER_DAY;
        let total_days: u64 = elapsed_secs / SECONDS_PER_DAY + within / SECONDS_PER_DAY;
        let mut total: u64 = within % SECONDS_PER_DAY;
        proof {
            let t = base + elapsed_secs;
            assert(base < 86400);
            assert(t / 86400 == total_days && t % 86400 == total) by (nonlinear_arith)
                requires
                    t == base + elapsed_secs,
                    0 <= base < 86400,
                    elapsed_secs >= 0,
                    within == base + elapsed_secs % 86400,
                    total_days == elapsed_secs / 86400 + within / 86400,
                    total == within % 86400,
            ;
        }
        self.hours = (total / 3600) as u8;
        total %= 3600;
        self.minutes = (total / 60) as u8;
        self.seconds = (total % 60) as u8;
        if total_days > 0 {
            let new_days = (self.day_counter as u64).saturating_add(total_days);
            if new_days > 0x01FF {
                self.carry = true;
            }
            assert(new_days & 0x01FF == new_days % 512) by {
            crate::bits::lemma_day_low9(new_days);
        }
            self.day_counter = (new_days & 0x01FF) as u16;
        }
    }

    pub fn latch_command(&mut self, value: u8)
        ensures
            *final(self) == old(self).latched_after(value),
    {
        if value == 0 {
            self.latch_armed = true;
            return;
        }
        if value == 1 && self.latch_armed {
            self.latch();
        }
        self.latch_armed = false;
    }

    pub fn latch(&mut self)
        ensures
            *final(self) == (Mbc3Rtc {
                latched_registers: array5(old(self).live()),
                has_latched_snapshot: true,
                ..*old(self)
            }),
    {
        let regs = self.live_registers();
        assert(regs =~= array5(self.live()));
        self.latched_registers = regs;
        self.has_latched_snapshot = true;
    }

    pub fn live_registers(&self) -> (r: [u8; 5])
        ensures
            r@ == self.live(),
    {
        let day_low = (self.day_counter & 0x00FF) as u8;
        let day_high = ((self.day_counter >> 8) as u8) & 0x01;
        let halt_bit: u8 = if self.halted {
            0x40
        } else {
            0x00
        };
        let carry_bit: u8 = if self.carry {
            0x80
        } else {
            0x00
        };
        let d = self.day_counter;
        assert(d & 0x00FF == d % 256) by {
            crate::bits::lemma_bits();
        }
        assert(((d >> 8) as u8) & 0x01 == (d / 256) % 2) by {
            crate::bits::lemma_bits();
        }
        assert(day_high < 2);
        assert(day_high | halt_bit | carry_bit == day_high + halt_bit + carry_bit) by {
            crate::bits::lemma_day_high_parts(day_high, halt_bit, carry_bit);
        }
        let r = [
            self.seconds % 60,
            self.minutes % 60,
            self.hours % 24,
            day_low,
            day_high | halt_bit | carry_bit,
        ];
        assert(r@ =~= self.live());
        r
    }

    pub fn live_registers_at_epoch(&self, now_epoch_secs: u64) -> (r: [u8; 5])
        requires
            self.wf(),
        ensures
            r@ == self.ticked_to(now_epoch_secs).live(),
    {
        let mut snapshot = *self;
        snapshot.tick_to_epoch(now_epoch_secs);
        snapshot.live_registers()
    }

    pub fn read_register(&self, register_select: u8, use_latched: bool) -> (r: u8)
        ensures
            r == self.register_value(register_select, use_latched),
    {
        let index = (register_select.saturating_sub(0x08)) as usize;
        if index >= 5 {
            return 0xFF;
        }
        if use_latched {
            self.latched_registers[index]
        } else {
            self.live_registers()[index]
        }
    }

    pub fn write_register(&mut self, register_select: u8, value: u8, now_epoch_secs: u64)
        requires
            old(self).wf(),
        ensures
            *final(self) == old(self).written(register_select, value, now_epoch_secs),
            final(self).wf(),
    {
        self.tick_to_epoch(now_epoch_secs);
        match register_select {
            0x08 => self.seconds = value % 60,
            0x09 => self.minutes = value % 60,
            0x0A => self.hours = value % 24,
            0x0B => {
                let d = self.day_counter;
                assert((d & 0x0100) | (value as u16) == (d / 256) * 256 + value) by {
            crate::bits::lemma_bits();
        }
                self.day_counter = (self.day_counter & 0x0100) | value as u16;
            },
            0x0C => {
                let d = self.day_counter;
                assert((d & 0x00FF) | (((value & 0x01) as u16) << 8u16) == (d % 256) + 256 * (
                value % 2)) by {
            crate::bits::lemma_day_bit8(d, value);
        }
                assert(((value & 0x40) != 0) == ((value / 64) % 2 == 1)) by {
            crate::bits::lemma_bits();
        }
                assert(((value & 0x80) != 0) == (value >= 0x80)) by {
            crate::bits::lemma_bits();
        }
                self.day_counter = (self.day_counter & 0x00FF) | (((value & 0x01) as u16) << 8);
                self.halted = (value & 0x40) != 0;
                self.carry = (value & 0x80) != 0;
                self.last_update_epoch_secs = now_epoch_secs;
            },
            _ => {},
        }
    }

    /// The 13-byte persistence record of the clock brought forward to `now`: the five
    /// live registers, then the reference time in little-endian order.
    pub open spec fn record(&self) -> Seq<u8> {
        self.live() + le_bytes(self.last_update_epoch_secs)
    }

    pub fn serialize(&mut self, now_epoch_secs: u64) -> (r: [u8; 13])
        requires
            old(self).wf(),
        ensures
            *final(self) == old(self).ticked_to(now_epoch_secs),
            r@ == final(self).record(),
            final(self).wf(),
    {
        self.tick_to_epoch(now_epoch_secs);
        let regs = self.live_registers();
        let stamp = u64_to_le_bytes(self.last_update_epoch_secs);
        let out: [u8; 13] = [
            regs[0],
            regs[1],
            regs[2],
            regs[3],
            regs[4],
            stamp[0],
            stamp[1],
            stamp[2],
            stamp[3],
            stamp[4],
            stamp[5],
            stamp[6],
            stamp[7],
        ];
        assert(out@ =~= self.record());
        out
    }

    /// The clock restored from a persistence record: registers reduced to their ranges,
    /// no latched snapshot.
    pub open spec fn from_record(bytes: Seq<u8>) -> Mbc3Rtc {
        Mbc3Rtc {
            seconds: bytes[0] % 60,
            minutes: bytes[1] % 60,
            hours: bytes[2] % 24,
            day_counter: ((bytes[4] % 2) * 256 + bytes[3]) as u16,
            carry: bytes[4] >= 0x80,
            halted: (bytes[4] / 64) % 2 == 1,
            latched_registers: [0, 0, 0, 0, 0],
            has_latched_snapshot: false,
            latch_armed: false,
            last_update_epoch_secs: le_value(bytes.subrange(5, 13)),
        }
    }

    pub fn deserialize(bytes: &[u8]) -> (r: Option<Self>)
        ensures
            bytes@.len() < 13 ==> r.is_none(),
            bytes@.len() >= 13 ==> r == Some(Mbc3Rtc::from_record(bytes@)),
            r matches Some(rtc) ==> rtc.wf(),
    {
        if bytes.len() < 13 {
            return None;
        }
        let last = u64_from_le_bytes(bytes, 5);
        let b4 = bytes[4];
        let b3 = bytes[3];
        assert((((b4 as u16) & 0x01) << 8u16) | (b3 as u16) == (b4 % 2) * 256 + b3) by {
            crate::bits::lemma_record_day_bits(b4, b3);
        }
        assert(((b4 & 0x80) != 0) == (b4 >= 0x80)) by {
            crate::bits::lemma_bits();
        }
        assert(((b4 & 0x40) != 0) == ((b4 / 64) % 2 == 1)) by {
            crate::bits::lemma_bits();
        }
        let rtc = Self {
            seconds: bytes[0] % 60,
            minutes: bytes[1] % 60,
            hours: bytes[2] % 24,
            day_counter: ((bytes[4] as u16 & 0x01) << 8) | bytes[3] as u16,
            carry: (bytes[4] & 0x80) != 0,
            halted: (bytes[4] & 0x40) != 0,
            latched_registers: [0;5],
            has_latched_snapshot: false,
            latch_armed: false,
            last_update_epoch_secs: last,
        };
        assert(rtc.latched_registers =~= Mbc3Rtc::from_record(bytes@).latched_registers);
        Some(rtc)
    }
}

/// The eight little-endian bytes of `x`.
pub open spec fn le_bytes(x: u64) -> Seq<u8> {
    seq![
        (x % 0x100) as u8,
        ((x / 0x100) % 0x100) as u8,
        ((x / 0x1_0000) % 0x100) as u8,
        ((x / 0x100_0000) % 0x100) as u8,
        ((x / 0x1_0000_0000) % 0x100) as u8,
        ((x / 0x100_0000_0000) % 0x100) as u8,
        ((x / 0x1_0000_0000_0000) % 0x100) as u8,
        ((x / 0x100_0000_0000_0000) % 0x100) as u8,
    ]
}

/// The value of eight little-endian bytes.
pub open spec fn le_value(b: Seq<u8>) -> u64 {
    (b[0] as int + 0x100 * b[1] + 0x1_0000 * b[2] + 0x100_0000 * b[3] + 0x1_0000_0000int * b[4]
        + 0x100_0000_0000int * b[5] + 0x1_0000_0000_0000int * b[6] + 0x100_0000_0000_0000int
        * b[7]) as u64
}

pub fn u64_to_le_bytes(x: u64) -> (r: [u8; 8])
    ensures
        r@ == le_bytes(x),
        le_value(r@) == x,
{
    let r: [u8; 8] = [
        (x & 0xFF) as u8,
        ((x >> 8) & 0xFF) as u8,
        ((x >> 16) & 0xFF) as u8,
        ((x >> 24) & 0xFF) as u8,
        ((x >> 32) & 0xFF) as u8,
        ((x >> 40) & 0xFF) as u8,
        ((x >> 48) & 0xFF) as u8,
        ((x >> 56) & 0xFF) as u8,
    ];
    proof {
        assert(x & 0xFF == x % 0x100) by {
            crate::bits::lemma_u64_bytes(x);
        }
        assert((x >> 8) & 0xFF == (x / 0x100) % 256) by {
            crate::bits::lemma_u64_bytes(x);
        }
        assert((x >> 16) & 0xFF == (x / 0x1_0000) % 256) by {
            crate::bits::lemma_u64_bytes(x);
        }
        assert((x >> 24) & 0xFF == (x / 0x100_0000) % 256) by {
            crate::bits::lemma_u64_bytes(x);
        }
        assert((x >> 32) & 0xFF == (x / 0x1_0000_0000) % 256) by {
            crate::bits::lemma_u64_bytes(x);
        }
        assert((x >> 40) & 0xFF == (x / 0x100_0000_0000) % 256) by {
            crate::bits::lemma_u64_bytes(x);
        }
        assert((x >> 48) & 0xFF == (x / 0x1_0000_0000_0000) % 256) by {
            crate::bits::lemma_u64_bytes(x);
        }
        assert((x >> 56) & 0xFF == (x / 0x100_0000_0000_0000) % 256) by {
            crate::bits::lemma_u64_bytes(x);
        }
        assert(r@ =~= le_bytes(x));
        assert(x == (x & 0xFF) + 0x100 * ((x >> 8) & 0xFF) + 0x1_0000 * ((x >> 16) & 0xFF)
            + 0x100_0000 * ((x >> 24) & 0xFF) + 0x1_0000_0000 * ((x >> 32) & 0xFF)
            + 0x100_0000_0000 * ((x >> 40) & 0xFF) + 0x1_0000_0000_0000 * ((x >> 48) & 0xFF)
            + 0x100_0000_0000_0000 * ((x >> 56) & 0xFF)) by {
            crate::bits::lemma_u64_bytes(x);
        }
    }
    r
}

pub fn u64_from_le_bytes(bytes: &[u8], start: usize) -> (r: u64)
    requires
        start + 8 <= bytes@.len(),
    ensures
        r == le_value(bytes@.subrange(start as int, start + 8)),
{
    let b0 = bytes[start] as u64;
    let b1 = bytes[start + 1] as u64;
    let b2 = bytes[start + 2] as u64;
    let b3 = bytes[start + 3] as u64;
    let b4 = bytes[start + 4] as u64;
    let b5 = bytes[start + 5] as u64;
    let b6 = bytes[start + 6] as u64;
    let b7 = bytes[start + 7] as u64;
    let r = b0 | (b1 << 8) | (b2 << 16) | (b3 << 24) | (b4 << 32) | (b5 << 40) | (b6 << 48) | (b7
        << 56);
    assert(r == b0 + 0x100 * b1 + 0x1_0000 * b2 + 0x100_0000 * b3 + 0x1_0000_0000 * b4
        + 0x100_0000_0000 * b5 + 0x1_0000_0000_0000 * b6 + 0x100_0000_0000_0000 * b7) by {
            crate::bits::lemma_u64_from_bytes(b0, b1, b2, b3, b4, b5, b6, b7);
        }
    r
}

/// Law: a clock written out as a persistence record and read back has the same counters,
/// flags and reference time.
pub proof fn lemma_record_roundtrip(rtc: Mbc3Rtc)
    requires
        rtc.wf(),
    ensures
        ({
            let back = Mbc3Rtc::from_record(rtc.record());
            &&& back.seconds == rtc.seconds
            &&& back.minutes == rtc.minutes
            &&& back.hours == rtc.hours
            &&& back.day_counter == rtc.day_counter
            &&& back.halted == rtc.halted
            &&& back.carry == rtc.carry
            &&& back.last_update_epoch_secs == rtc.last_update_epoch_secs
        }),
{
    let x = rtc.last_update_epoch_secs;
    let bytes = le_bytes(x);
    assert(rtc.record().subrange(5, 13) =~= bytes);
    assert(x == (x % 0x100) + 0x100 * ((x / 0x100) % 256) + 0x1_0000 * ((x / 0x1_0000) % 256)
        + 0x100_0000 * ((x / 0x100_0000) % 256) + 0x1_0000_0000 * ((x / 0x1_0000_0000) % 256)
        + 0x100_0000_0000 * ((x / 0x100_0000_0000) % 256) + 0x1_0000_0000_0000 * ((x
        / 0x1_0000_0000_0000) % 256) + 0x100_0000_0000_0000 * ((x / 0x100_0000_0000_0000) % 256)) by {
            crate::bits::lemma_u64_bytes(x);
        }
    let d = rtc.day_counter;
    let hi = day_high_byte(d, rtc.halted, rtc.carry);
    assert(hi % 2 == (d / 256) % 2);
    assert(hi >= 0x80 <==> rtc.carry);
    assert((hi / 64) % 2 == 1 <==> rtc.halted);
}

/// Hours, minutes and seconds of a second-of-day recompose to it.
proof fn lemma_time_of_day(rem: int)
    requires
        0 <= rem < 86400,
    ensures
        (rem % 60) + 60 * ((rem % 3600) / 60) + 3600 * (rem / 3600) == rem,
        rem / 3600 < 24,
        (rem % 3600) / 60 < 60,
        rem % 60 < 60,
{
    assert((rem % 60) + 60 * ((rem % 3600) / 60) + 3600 * (rem / 3600) == rem) by (nonlinear_arith)
        requires
            0 <= rem < 86400,
    ;
}

/// Whole days and remainder of consecutive advances add up.
proof fn lemma_days_split(s: int, a: int, b: int)
    requires
        0 <= s < 86400,
        0 <= a,
        0 <= b,
    ensures
        (s + a) / 86400 + ((s + a) % 86400 + b) / 86400 == (s + a + b) / 86400,
        ((s + a) % 86400 + b) % 86400 == (s + a + b) % 86400,
{
    assert((s + a) / 86400 + ((s + a) % 86400 + b) / 86400 == (s + a + b) / 86400
        && ((s + a) % 86400 + b) % 86400 == (s + a + b) % 86400) by (nonlinear_arith)
        requires
            0 <= s < 86400,
            0 <= a,
            0 <= b,
    ;
}

/// Law: a running clock advanced by `a` seconds and then by `b` seconds shows the same
/// time, day counter and carry as one advanced by `a + b` seconds.
pub proof fn lemma_advance_adds(r: Mbc3Rtc, a: int, b: int)
    requires
        r.wf(),
        0 <= a,
        0 <= b,
        a + b <= u64::MAX,
    ensures
        r.advanced_by(a).advanced_by(b) == r.advanced_by(a + b),
        r.advanced_by(a).wf(),
{
    let s = r.seconds_of_day();
    if a == 0 || b == 0 {
        if a > 0 {
            lemma_time_of_day((s + a) % 86400);
        }
        return;
    }
    let r1 = r.advanced_by(a);
    let rem1 = (s + a) % 86400;
    lemma_time_of_day(rem1);
    assert(r1.seconds_of_day() == rem1);
    lemma_days_split(s, a, b);
    assert((s + a) / 86400 <= a + b) by (nonlinear_arith)
        requires
            0 <= s < 86400,
            0 <= a,
            0 <= b,
    ;
    assert((s + a + b) / 86400 <= a + b) by (nonlinear_arith)
        requires
            0 <= s < 86400,
            0 <= a,
            0 <= b,
    ;
    let d1 = (s + a) / 86400;
    let d2 = (rem1 + b) / 86400;
    assert(d1 >= 0 && d2 >= 0) by (nonlinear_arith)
        requires
            0 <= s < 86400,
            0 <= a,
            0 <= b,
            0 <= rem1,
            d1 == (s + a) / 86400,
            d2 == (rem1 + b) / 86400,
    ;
    let day1 = r1.day_counter as int;
    if d1 > 0 {
        assert(day1 == (r.day_counter + d1) % 512);
    }
    assert(((r.day_counter + d1) % 512 + d2) % 512 == (r.day_counter + d1 + d2) % 512) by (nonlinear_arith)
        requires
            d1 >= 0,
            d2 >= 0,
    ;
    assert(r.advanced_by(a).advanced_by(b) =~= r.advanced_by(a + b));
}

/// Law: a running clock brought forward to `t1` and then to `t2` is the clock brought
/// forward to `t2` directly.
pub proof fn lemma_tick_composes(r: Mbc3Rtc, t1: u64, t2: u64)
    requires
        r.wf(),
        !r.halted,
        t1 <= t2,
    ensures
        r.ticked_to(t1).ticked_to(t2) == r.ticked_to(t2),
{
    let last = r.last_update_epoch_secs;
    if t1 <= last {
    } else if t2 == t1 {
    } else {
        let moved = Mbc3Rtc { last_update_epoch_secs: t1, ..r };
        lemma_advance_adds(r, t1 - last, t2 - t1);
        let moved2 = Mbc3Rtc { last_update_epoch_secs: t2, ..r };
        assert(moved.advanced_by(t1 - last) == Mbc3Rtc { last_update_epoch_secs: t1, ..r.advanced_by(t1 - last) });
        assert(moved2.advanced_by(t2 - last) == Mbc3Rtc { last_update_epoch_secs: t2, ..r.advanced_by(t2 - last) });
        let r1 = r.ticked_to(t1);
        assert(Mbc3Rtc { last_update_epoch_secs: t2, ..r1 }.advanced_by(t2 - t1) == Mbc3Rtc { last_update_epoch_secs: t2, ..r.advanced_by(t1 - last).advanced_by(t2 - t1) });
    }
}

/// Law: a halted clock keeps its counters whatever time passes; only the reference
/// time moves.
pub proof fn lemma_halted_clock_stands_still(r: Mbc3Rtc, now: u64)
    requires
        r.halted,
    ensures
        r.ticked_to(now).live() == r.live(),
        r.ticked_to(now).last_update_epoch_secs >= r.last_update_epoch_secs,
{
}


/// The registers of `t` with seconds, minutes, hours or day-high replaced read back.
proof fn lemma_register_fields(t: Mbc3Rtc, v: u8)
    ensures
        (Mbc3Rtc { seconds: v % 60, ..t }).register_value(0x08, false) == v % 60,
        (Mbc3Rtc { minutes: v % 60, ..t }).register_value(0x09, false) == v % 60,
        (Mbc3Rtc { hours: v % 24, ..t }).register_value(0x0A, false) == v % 24,
        (Mbc3Rtc {
            day_counter: ((t.day_counter % 256) + 256 * (v % 2)) as u16,
            halted: (v / 64) % 2 == 1,
            carry: v >= 0x80,
            ..t
        }).register_value(0x0C, false) == v % 2 + 64 * ((v / 64) % 2) + 128 * (v / 128),
{
    let d: u16 = ((t.day_counter % 256) + 256 * (v % 2)) as u16;
    assert(d / 256 % 2 == v % 2);
}

/// Law: what is written to a live RTC register reads back at once: seconds and minutes
/// modulo 60, hours modulo 24, and of the day-high register the day counter's bit 8
/// (bit 0), the halt flag (bit 6) and the carry flag (bit 7), its other bits reading 0.
pub proof fn lemma_rtc_write_read_back(r: Mbc3Rtc, v: u8, now: u64)
    ensures
        r.written(0x08, v, now).register_value(0x08, false) == v % 60,
        r.written(0x09, v, now).register_value(0x09, false) == v % 60,
        r.written(0x0A, v, now).register_value(0x0A, false) == v % 24,
        r.written(0x0C, v, now).register_value(0x0C, false) == v % 2 + 64 * ((v / 64) % 2)
            + 128 * (v / 128),
{
    let t = r.ticked_to(now);
    lemma_register_fields(t, v);
    assert(r.written(0x08, v, now) == Mbc3Rtc { seconds: v % 60, ..t });
    assert(r.written(0x09, v, now) == Mbc3Rtc { minutes: v % 60, ..t });
    assert(r.written(0x0A, v, now) == Mbc3Rtc { hours: v % 24, ..t });
    assert(r.written(0x0C, v, now) == Mbc3Rtc {
        day_counter: ((t.day_counter % 256) + 256 * (v % 2)) as u16,
        halted: (v / 64) % 2 == 1,
        carry: v >= 0x80,
        last_update_epoch_secs: now,
        ..t
    });
}

} // verus!
