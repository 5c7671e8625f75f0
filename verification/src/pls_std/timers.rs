//! IEC-style timers: on-delay (`Ton`), off-delay (`Tof`) and pulse (`Tp`).
//!
//! A timer is driven by repeated `run` calls that carry the current time as
//! a nanosecond count; each call is one deterministic state transition.

use vstd::prelude::*;

verus! {

/// Marker state of an on-delay timer: the start instant of the current
/// measurement, if one is running.
pub struct Ton_(pub Option<u64>);

/// Marker state of an off-delay timer.
pub struct Tof_(pub Option<u64>);

/// Marker state of a pulse timer.
pub struct Tp_(pub Option<u64>);

/// Common timer record: input sample `in1`, preset time `pt`, output `q`,
/// elapsed time `et`, and the kind-specific start state.
pub struct Timer<T> {
    pub in1: bool,
    pub pt: u64,
    pub q: bool,
    pub et: u64,
    pub timer_type: T,
}

/// Nanoseconds from `start` to `now`, zero when the clock moved backwards.
pub open spec fn spec_elapsed(start: u64, now: u64) -> u64 {
    if now >= start {
        (now - start) as u64
    } else {
        0
    }
}

impl<T> Timer<T> {
    pub fn get_q(&self) -> (r: bool)
        ensures
            r == self.q,
    {
        self.q
    }

    pub fn get_et(&self) -> (r: u64)
        ensures
            r == self.et,
    {
        self.et
    }

    pub fn get_in1(&self) -> (r: bool)
        ensures
            r == self.in1,
    {
        self.in1
    }

    pub fn get_pt(&self) -> (r: u64)
        ensures
            r == self.pt,
    {
        self.pt
    }

    pub fn set_pt(&mut self, pt: u64)
        ensures
            final(self).pt == pt,
            final(self).in1 == old(self).in1,
            final(self).q == old(self).q,
            final(self).et == old(self).et,
            final(self).timer_type == old(self).timer_type,
    {
        self.pt = pt;
    }
}

/// One `Ton::run` transition: a rising edge of `in1` starts the
/// measurement; `et` follows the elapsed time up to `pt`; `q` holds while
/// the input is high and the preset time has been reached.
pub open spec fn spec_ton_run(t: Timer<Ton_>, in1: bool, now: u64) -> Timer<Ton_> {
    let start0 = if in1 && !t.in1 {
        Some(now)
    } else {
        t.timer_type.0
    };
    let (et1, start1) = match start0 {
        Some(s) => {
            let e = spec_elapsed(s, now);
            if e >= t.pt {
                (t.pt, None::<u64>)
            } else {
                (e, Some(s))
            }
        },
        None => (t.et, None::<u64>),
    };
    let start2 = if !in1 {
        None::<u64>
    } else {
        start1
    };
    Timer {
        in1,
        pt: t.pt,
        q: et1 == t.pt && in1,
        et: et1,
        timer_type: Ton_(if start0 is Some { start2 } else { t.timer_type.0 }),
    }
}

impl Timer<Ton_> {
    pub fn new(pt: u64) -> (r: Self)
        ensures
            r == (Timer::<Ton_> { in1: false, pt, q: false, et: 0, timer_type: Ton_(None) }),
    {
        Self { in1: false, pt, q: false, et: 0, timer_type: Ton_(None) }
    }

    pub fn run(&mut self, in1: bool, now_ns: u64)
        ensures
            *final(self) == spec_ton_run(*old(self), in1, now_ns),
    {
        let timer_run = in1 && !self.in1;
        self.in1 = in1;

        if timer_run {
            self.timer_type.0 = Some(now_ns);
        }

        if let Some(i) = self.timer_type.0 {
            self.et = if now_ns >= i {
                now_ns - i
            } else {
                0
            };

            if self.et >= self.pt {
                self.et = self.pt;
                self.timer_type.0 = None;
            }

            if !self.in1 {
                self.timer_type.0 = None;
            }
        }

        self.q = self.et == self.pt && in1;
    }
}

/// One `Tof::run` transition: a falling edge of `in1` starts the
/// measurement; `q` stays high while the input is high or the preset time
/// has not yet elapsed since the input fell.
pub open spec fn spec_tof_run(t: Timer<Tof_>, in1: bool, now: u64) -> Timer<Tof_> {
    let start0 = if !in1 && t.in1 {
        Some(now)
    } else {
        t.timer_type.0
    };
    let (et1, start1) = match start0 {
        Some(s) => {
            let e = spec_elapsed(s, now);
            if e >= t.pt {
                (t.pt, None::<u64>)
            } else {
                (e, Some(s))
            }
        },
        None => (t.et, None::<u64>),
    };
    Timer {
        in1,
        pt: t.pt,
        q: in1 || et1 < t.pt,
        et: et1,
        timer_type: Tof_(if start0 is Some { start1 } else { t.timer_type.0 }),
    }
}

impl Timer<Tof_> {
    pub fn new(pt: u64) -> (r: Self)
        ensures
            r == (Timer::<Tof_> { in1: false, pt, q: false, et: 0, timer_type: Tof_(None) }),
    {
        Self { in1: false, pt, q: false, et: 0, timer_type: Tof_(None) }
    }

    pub fn run(&mut self, in1: bool, now_ns: u64)
        ensures
            *final(self) == spec_tof_run(*old(self), in1, now_ns),
    {
        let timer_run = !in1 && self.in1;
        self.in1 = in1;

        if timer_run {
            self.timer_type.0 = Some(now_ns);
        }

        if let Some(i) = self.timer_type.0 {
            self.et = if now_ns >= i {
                now_ns - i
            } else {
                0
            };

            if self.et >= self.pt {
                self.et = self.pt;
                self.timer_type.0 = None;
            }
        }

        self.q = self.in1 || self.et < self.pt;
    }
}

/// One `Tp::run` transition: a rising edge while idle starts a pulse of
/// length `pt`; `q` holds exactly while the pulse is running, and further
/// edges during the pulse are ignored.
pub open spec fn spec_tp_run(t: Timer<Tp_>, in1: bool, now: u64) -> Timer<Tp_> {
    let start0 = if in1 && !t.in1 && t.timer_type.0 is None {
        Some(now)
    } else {
        t.timer_type.0
    };
    let (et1, start1) = match start0 {
        Some(s) => {
            let e = spec_elapsed(s, now);
            if e >= t.pt {
                (t.pt, None::<u64>)
            } else {
                (e, Some(s))
            }
        },
        None => (t.et, None::<u64>),
    };
    Timer {
        in1,
        pt: t.pt,
        q: if start0 is Some { start1 is Some } else { false },
        et: et1,
        timer_type: Tp_(if start0 is Some { start1 } else { t.timer_type.0 }),
    }
}

impl Timer<Tp_> {
    pub fn new(pt: u64) -> (r: Self)
        ensures
            r == (Timer::<Tp_> { in1: false, pt, q: false, et: 0, timer_type: Tp_(None) }),
    {
        Self { in1: false, pt, q: false, et: 0, timer_type: Tp_(None) }
    }

    pub fn run(&mut self, in1: bool, now_ns: u64)
        ensures
            *final(self) == spec_tp_run(*old(self), in1, now_ns),
    {
        let timer_run = in1 && !self.in1 && matches!(self.timer_type.0, None);
        self.in1 = in1;

        if timer_run {
            self.timer_type.0 = Some(now_ns);
        }

        if let Some(i) = self.timer_type.0 {
            self.et = if now_ns >= i {
                now_ns - i
            } else {
                0
            };

            if self.et >= self.pt {
                self.et = self.pt;
                self.timer_type.0 = None;
            }
        }

        self.q = matches!(self.timer_type.0, Some(_));
    }
}

/// On-delay timer.
pub type Ton = Timer<Ton_>;

/// Off-delay timer.
pub type Tof = Timer<Tof_>;

/// Pulse timer.
pub type Tp = Timer<Tp_>;

} // verus!
