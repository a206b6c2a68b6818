//! Counting objects that cross an opposing (beam-break) infrared sensor.
//!
//! The sensor drives line 14 of GPIO port B; a rising edge raises EXTI line 14,
//! which is served by the `EXTI15_10` interrupt handler. The handler checks
//! whether the sensor's line is pending, counts one object if it is, and clears
//! the pending flag (otherwise the interrupt would fire again at once). The main
//! loop keeps showing the current count.

use vstd::prelude::*;

verus! {

/// Number of objects seen after one interrupt with the given pending flag.
pub open spec fn count_after_interrupt(count: nat, pending: bool) -> nat {
    if pending {
        count + 1
    } else {
        count
    }
}

/// Number of objects seen after a series of interrupts, in order.
pub open spec fn count_after_interrupts(count: nat, events: Seq<bool>) -> nat
    decreases events.len(),
{
    if events.len() == 0 {
        count
    } else {
        count_after_interrupts(count_after_interrupt(count, events[0]), events.drop_first())
    }
}

/// How many of the interrupts found the sensor's line pending.
pub open spec fn pending_interrupts(events: Seq<bool>) -> nat
    decreases events.len(),
{
    if events.len() == 0 {
        0
    } else {
        (if events[0] {
            1nat
        } else {
            0nat
        }) + pending_interrupts(events.drop_first())
    }
}

/// The object counter that the sensor's interrupt handler owns.
pub struct SensorCounter {
    count: u32,
}

impl View for SensorCounter {
    type V = nat;

    closed spec fn view(&self) -> nat {
        self.count as nat
    }
}

impl SensorCounter {
    /// A counter that has seen no object yet.
    pub fn new() -> (counter: Self)
        ensures
            counter@ == 0,
    {
        SensorCounter { count: 0 }
    }

    /// The number of objects counted so far.
    pub fn get_sensor_count(&self) -> (count: u32)
        ensures
            count == self@,
    {
        self.count
    }

    /// What the `EXTI15_10` handler does once it has read whether the sensor's
    /// line is pending: count one object if it is. Returns whether the handler
    /// must clear the line's pending flag, which is exactly when it was set.
    ///
    /// The count is a `u32`; an interrupt that would take it past `u32::MAX`
    /// is outside this function's domain (the increment overflows).
    pub fn exti15_10(&mut self, pending: bool) -> (clear_pending: bool)
        requires
            pending ==> old(self)@ < u32::MAX,
        ensures
            final(self)@ == count_after_interrupt(old(self)@, pending),
            clear_pending == pending,
    {
        if pending {
            self.count = self.count + 1;
        }
        pending
    }
}

/// Counting law: whatever the series of interrupts, the counter grows by
/// exactly the number of them that found the sensor's line pending; an
/// interrupt without a pending flag changes nothing.
pub proof fn lemma_count_is_pending_interrupts(count: nat, events: Seq<bool>)
    ensures
        count_after_interrupts(count, events) == count + pending_interrupts(events),
    decreases events.len(),
{
    if events.len() > 0 {
        lemma_count_is_pending_interrupts(
            count_after_interrupt(count, events[0]),
            events.drop_first(),
        );
    }
}

/// Monotonicity law: the count never decreases, whatever interrupts follow.
pub proof fn lemma_count_never_decreases(count: nat, events: Seq<bool>)
    ensures
        count <= count_after_interrupts(count, events),
{
    lemma_count_is_pending_interrupts(count, events);
}

} // verus!
