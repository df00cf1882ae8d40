//! Timers
use vstd::prelude::*;

use core::convert::Infallible;

use crate::divisor::{divisors, divisors_spec, ConfigError, Divisors, ReloadWidth};
use crate::rcc::{Apb1, Clocks};
use crate::time::Hertz;

verus! {

/// Relies on `nb::Error`, the result convention of non-blocking operations:
/// `WouldBlock` asks the caller to try again, `Other` carries a real error.
#[verifier::external_type_specification]
#[verifier::reject_recursive_types(E)]
pub struct ExNbError<E>(nb::Error<E>);

/// Master mode that resets the trigger output (`CR2.MMS`).
pub const MMS_RESET: u8 = 0b000;

/// Master mode selected when listening for `Event::TimeOut`.
pub const MMS_TIMEOUT: u8 = 0b001;

/// Master mode selected when listening for `Event::Update`.
pub const MMS_UPDATE: u8 = 0b010;

/// Interrupt events
#[derive(Clone, Copy, Debug, PartialEq, Eq, Structural)]
pub enum Event {
    /// Timer timed out / count down ended
    TimeOut,
    Update,
}

impl Event {
    /// The master mode that listening for this event selects.
    pub open spec fn master_mode(self) -> u8 {
        match self {
            Event::TimeOut => MMS_TIMEOUT,
            Event::Update => MMS_UPDATE,
        }
    }
}

/// The general-purpose timers on the APB1 bus.
#[derive(Clone, Copy, Debug, PartialEq, Eq, Structural)]
pub enum TimId {
    Tim2,
    Tim3,
    Tim4,
    Tim6,
    Tim7,
}

impl TimId {
    /// The timer's bit in the APB1 clock-enable and reset registers.
    pub open spec fn bus_mask(self) -> u32 {
        match self {
            TimId::Tim2 => 1u32 << 0,
            TimId::Tim3 => 1u32 << 1,
            TimId::Tim4 => 1u32 << 2,
            TimId::Tim6 => 1u32 << 4,
            TimId::Tim7 => 1u32 << 5,
        }
    }

    /// TIM2 has a 32-bit counter and offers the extended operations.
    pub open spec fn is_extended(self) -> bool {
        self is Tim2
    }

    /// Value of the auto-reload register after a reset: its field all ones.
    pub open spec fn reload_reset_value(self) -> u32 {
        if self.is_extended() {
            0xFFFF_FFFF
        } else {
            0xFFFF
        }
    }

    pub fn bus_bit(&self) -> (r: u32)
        ensures
            r == self.bus_mask(),
    {
        match self {
            TimId::Tim2 => 1u32 << 0,
            TimId::Tim3 => 1u32 << 1,
            TimId::Tim4 => 1u32 << 2,
            TimId::Tim6 => 1u32 << 4,
            TimId::Tim7 => 1u32 << 5,
        }
    }

    pub fn extended(&self) -> (r: bool)
        ensures
            r == self.is_extended(),
    {
        match self {
            TimId::Tim2 => true,
            _ => false,
        }
    }
}

/// The register fields of one timer that the driver reads or writes.
#[derive(Clone, Copy, Debug, PartialEq, Eq, Structural)]
pub struct Registers {
    /// Counter enable (`CR1.CEN`).
    pub cen: bool,
    /// Counter (`CNT`).
    pub cnt: u32,
    /// Update interrupt flag (`SR.UIF`), set by the hardware on each update event.
    pub uif: bool,
    /// Update interrupt enable (`DIER.UIE`).
    pub uie: bool,
    /// Master mode selection (`CR2.MMS`).
    pub mms: u8,
    /// Prescaler (`PSC`).
    pub psc: u16,
    /// Auto-reload value (`ARR`).
    pub arr: u32,
}

impl Registers {
    /// The register state right after a reset of timer `id`.
    pub open spec fn reset_state(id: TimId) -> Registers {
        Registers {
            cen: false,
            cnt: 0,
            uif: false,
            uie: false,
            mms: MMS_RESET,
            psc: 0,
            arr: id.reload_reset_value(),
        }
    }

    /// Counting from zero.
    pub open spec fn started(self) -> Registers {
        Registers { cen: true, cnt: 0, ..self }
    }

    /// Counting paused, counter kept.
    pub open spec fn halted(self) -> Registers {
        Registers { cen: false, ..self }
    }

    /// Counting paused, counter back at zero.
    pub open spec fn stopped(self) -> Registers {
        Registers { cen: false, cnt: 0, ..self }
    }

    /// The divisors written.
    pub open spec fn programmed(self, d: Divisors) -> Registers {
        Registers { psc: d.psc, arr: d.arr, ..self }
    }

    /// What the hardware does on an update event: it sets the flag.
    pub open spec fn update_event(self) -> Registers {
        Registers { uif: true, ..self }
    }

    /// Whether a poll finds an update event pending.
    pub open spec fn poll_completes(self) -> bool {
        self.uif
    }

    /// The state after a poll: a pending update event is acknowledged.
    pub open spec fn polled(self) -> Registers {
        Registers { uif: false, ..self }
    }

    /// Listening for `e`: its master mode selected, the update interrupt enabled.
    pub open spec fn listening(self, e: Event) -> Registers {
        Registers { mms: e.master_mode(), uie: true, ..self }
    }

    /// Not listening: master mode back to reset, the update interrupt disabled.
    pub open spec fn not_listening(self) -> Registers {
        Registers { mms: MMS_RESET, uie: false, ..self }
    }
}

/// One timer peripheral, owned by whoever holds this value.
#[derive(Debug)]
pub struct Tim {
    pub id: TimId,
    pub regs: Registers,
}

/// Hardware timers
#[derive(Debug)]
pub struct Timer {
    clocks: Clocks,
    tim: Tim,
    timeout: Hertz,
}

impl Timer {
    pub closed spec fn spec_clocks(&self) -> Clocks {
        self.clocks
    }

    pub closed spec fn spec_id(&self) -> TimId {
        self.tim.id
    }

    pub closed spec fn regs(&self) -> Registers {
        self.tim.regs
    }

    /// The frequency last programmed; zero before the first one.
    pub closed spec fn spec_timeout(&self) -> u32 {
        self.timeout.0
    }

    /// The reload value fits the timer's field, and once a frequency is
    /// programmed the divisors in the registers are the ones computed for it.
    pub closed spec fn wf(&self) -> bool {
        &&& (self.tim.id.is_extended() || self.tim.regs.arr <= 0xFFFF)
        &&& (self.timeout.0 != 0 ==> {
            ||| divisors_spec(self.clocks, self.timeout.0, ReloadWidth::Bits16) == Ok::<
                Divisors,
                ConfigError,
            >(Divisors { psc: self.tim.regs.psc, arr: self.tim.regs.arr })
            ||| divisors_spec(self.clocks, self.timeout.0, ReloadWidth::Bits32) == Ok::<
                Divisors,
                ConfigError,
            >(Divisors { psc: self.tim.regs.psc, arr: self.tim.regs.arr })
        })
    }

    /// Takes ownership of a timer peripheral, turns its bus clock on and resets it.
    pub fn new(tim: Tim, clocks: Clocks, apb1: &mut Apb1) -> (r: Timer)
        ensures
            r.wf(),
            r.spec_clocks() == clocks,
            r.spec_id() == tim.id,
            r.regs() == Registers::reset_state(tim.id),
            r.spec_timeout() == 0,
            final(apb1).enr == old(apb1).enr | tim.id.bus_mask(),
            final(apb1).rstr == old(apb1).rstr & !tim.id.bus_mask(),
    {
        // enable and reset peripheral to a clean slate state
        apb1.enable_and_reset(tim.id.bus_bit());
        let regs = Registers {
            cen: false,
            cnt: 0,
            uif: false,
            uie: false,
            mms: MMS_RESET,
            psc: 0,
            arr: if tim.id.extended() {
                0xFFFF_FFFF
            } else {
                0xFFFF
            },
        };
        Timer { clocks, tim: Tim { id: tim.id, regs }, timeout: Hertz(0) }
    }

    /// Restarts the count from zero.
    pub fn start(&mut self)
        requires
            old(self).wf(),
        ensures
            final(self).wf(),
            final(self).regs() == old(self).regs().started(),
            final(self).spec_clocks() == old(self).spec_clocks(),
            final(self).spec_id() == old(self).spec_id(),
            final(self).spec_timeout() == old(self).spec_timeout(),
    {
        // pause
        self.tim.regs.cen = false;
        // restart counter
        self.tim.regs.cnt = 0;
        // start counter
        self.tim.regs.cen = true;
    }

    /// Polls for an update event: when one is pending it is acknowledged and the
    /// poll completes, otherwise the caller is asked to try again.
    pub fn wait(&mut self) -> (r: nb::Result<(), Infallible>)
        requires
            old(self).wf(),
        ensures
            final(self).wf(),
            old(self).regs().poll_completes() ==> r == Ok::<(), nb::Error<Infallible>>(()),
            !old(self).regs().poll_completes() ==> r == Err::<(), nb::Error<Infallible>>(
                nb::Error::WouldBlock,
            ),
            final(self).regs() == old(self).regs().polled(),
            final(self).spec_clocks() == old(self).spec_clocks(),
            final(self).spec_id() == old(self).spec_id(),
            final(self).spec_timeout() == old(self).spec_timeout(),
    {
        if !self.tim.regs.uif {
            Err(nb::Error::WouldBlock)
        } else {
            self.tim.regs.uif = false;
            Ok(())
        }
    }

    /// Starts listening for an `event`
    pub fn listen(&mut self, event: Event)
        requires
            old(self).wf(),
        ensures
            final(self).wf(),
            final(self).regs() == old(self).regs().listening(event),
            final(self).spec_clocks() == old(self).spec_clocks(),
            final(self).spec_id() == old(self).spec_id(),
            final(self).spec_timeout() == old(self).spec_timeout(),
    {
        match event {
            Event::TimeOut => {
                self.tim.regs.mms = MMS_TIMEOUT;
            },
            Event::Update => {
                self.tim.regs.mms = MMS_UPDATE;
            },
        }
        self.tim.regs.uie = true;
    }

    /// Stops listening for an `event`
    pub fn unlisten(&mut self, event: Event)
        requires
            old(self).wf(),
        ensures
            final(self).wf(),
            final(self).regs() == old(self).regs().not_listening(),
            final(self).spec_clocks() == old(self).spec_clocks(),
            final(self).spec_id() == old(self).spec_id(),
            final(self).spec_timeout() == old(self).spec_timeout(),
    {
        match event {
            Event::TimeOut => {
                self.tim.regs.uie = false;
                self.tim.regs.mms = MMS_RESET;
            },
            Event::Update => {
                self.tim.regs.mms = MMS_RESET;
                self.tim.regs.uie = false;
            },
        }
    }

    /// Programs the timer to expire at `timeout`. On an error nothing changes.
    pub fn config(&mut self, timeout: Hertz) -> (r: Result<(), ConfigError>)
        requires
            old(self).wf(),
        ensures
            final(self).wf(),
            final(self).spec_clocks() == old(self).spec_clocks(),
            final(self).spec_id() == old(self).spec_id(),
            match divisors_spec(old(self).spec_clocks(), timeout.0, ReloadWidth::Bits16) {
                Ok(d) => {
                    &&& r is Ok
                    &&& final(self).regs() == old(self).regs().programmed(d)
                    &&& final(self).spec_timeout() == timeout.0
                },
                Err(e) => {
                    &&& r == Err::<(), ConfigError>(e)
                    &&& final(self).regs() == old(self).regs()
                    &&& final(self).spec_timeout() == old(self).spec_timeout()
                },
            },
    {
        let d = match divisors(&self.clocks, timeout.0, ReloadWidth::Bits16) {
            Ok(d) => d,
            Err(e) => return Err(e),
        };
        proof {
            crate::divisor::lemma_divisor_bounds(
                crate::divisor::total_ticks(self.clocks, timeout.0),
                ReloadWidth::Bits16.span(),
            );
        }
        self.timeout = timeout;
        self.tim.regs.psc = d.psc;
        self.tim.regs.arr = d.arr;
        Ok(())
    }

    /// Stops the counter and hands the timer peripheral back.
    pub fn free(self) -> (r: Tim)
        requires
            self.wf(),
        ensures
            r.id == self.spec_id(),
            r.regs == self.regs().halted(),
            !r.regs.cen,
    {
        let mut tim = self.tim;
        // pause counter
        tim.regs.cen = false;
        tim
    }

    /// The timer peripheral this driver owns.
    pub fn id(&self) -> (r: TimId)
        ensures
            r == self.spec_id(),
    {
        self.tim.id
    }

    /// The clock configuration the divisors are computed from.
    pub fn clocks(&self) -> (r: Clocks)
        ensures
            r == self.spec_clocks(),
    {
        self.clocks
    }

    /// The frequency last programmed; zero before the first one.
    pub fn timeout(&self) -> (r: Hertz)
        ensures
            r.0 == self.spec_timeout(),
    {
        self.timeout
    }

    /// The register state as the driver has programmed and last observed it.
    pub fn registers(&self) -> (r: Registers)
        ensures
            r == self.regs(),
    {
        self.tim.regs
    }

    /// Records the fields that the hardware changes on its own: the counter and
    /// the update interrupt flag, as read from the peripheral.
    pub fn observe(&mut self, cnt: u32, uif: bool)
        requires
            old(self).wf(),
        ensures
            final(self).wf(),
            final(self).regs() == (Registers { cnt, uif, ..old(self).regs() }),
            final(self).spec_clocks() == old(self).spec_clocks(),
            final(self).spec_id() == old(self).spec_id(),
            final(self).spec_timeout() == old(self).spec_timeout(),
    {
        self.tim.regs.cnt = cnt;
        self.tim.regs.uif = uif;
    }

    /// The counter value. Only TIM2 offers it.
    pub fn get_counter(&self) -> (r: u32)
        requires
            self.spec_id().is_extended(),
        ensures
            r == self.regs().cnt,
    {
        self.tim.regs.cnt
    }

    /// Programs the last requested frequency again, using the whole 32-bit
    /// auto-reload field of TIM2 so that the prescaler stays as small as
    /// possible. On an error nothing changes.
    pub fn reconfig(&mut self) -> (r: Result<(), ConfigError>)
        requires
            old(self).wf(),
            old(self).spec_id().is_extended(),
        ensures
            final(self).wf(),
            final(self).spec_clocks() == old(self).spec_clocks(),
            final(self).spec_id() == old(self).spec_id(),
            final(self).spec_timeout() == old(self).spec_timeout(),
            match divisors_spec(
                old(self).spec_clocks(),
                old(self).spec_timeout(),
                ReloadWidth::Bits32,
            ) {
                Ok(d) => {
                    &&& r is Ok
                    &&& final(self).regs() == old(self).regs().programmed(d)
                },
                Err(e) => {
                    &&& r == Err::<(), ConfigError>(e)
                    &&& final(self).regs() == old(self).regs()
                },
            },
    {
        let d = match divisors(&self.clocks, self.timeout.0, ReloadWidth::Bits32) {
            Ok(d) => d,
            Err(e) => return Err(e),
        };
        self.tim.regs.psc = d.psc;
        self.tim.regs.arr = d.arr;
        Ok(())
    }

    /// Pauses the counter and sets it back to zero, keeping the timer. Only
    /// TIM2 offers it.
    pub fn stop(&mut self)
        requires
            old(self).wf(),
            old(self).spec_id().is_extended(),
        ensures
            final(self).wf(),
            final(self).regs() == old(self).regs().stopped(),
            final(self).spec_clocks() == old(self).spec_clocks(),
            final(self).spec_id() == old(self).spec_id(),
            final(self).spec_timeout() == old(self).spec_timeout(),
    {
        // pause
        self.tim.regs.cen = false;
        // restart counter
        self.tim.regs.cnt = 0;
    }
}

/// A counter read right after `start` reads zero, and the counter is running.
pub proof fn lemma_started_counter_is_zero(r: Registers)
    ensures
        r.started().cnt == 0,
        r.started().cen,
{
}

/// Polls before an update event keep asking to try again and change nothing.
/// After an update event exactly one poll completes: it leaves the flag clear,
/// and every later poll asks to try again until the next event.
pub proof fn lemma_one_completion_per_update(r: Registers)
    ensures
        !r.uif ==> !r.poll_completes() && r.polled() == r,
        r.update_event().poll_completes(),
        !r.update_event().polled().uif,
        !r.update_event().polled().poll_completes(),
        r.update_event().polled().polled() == r.update_event().polled(),
{
}

/// `unlisten(e)` undoes `listen(e)`: on a timer that was not listening, the
/// master mode and the update interrupt enable come back to what they were.
pub proof fn lemma_unlisten_undoes_listen(r: Registers, e: Event)
    requires
        r.mms == MMS_RESET,
        !r.uie,
    ensures
        r.listening(e).not_listening() == r,
{
}

} // verus!
