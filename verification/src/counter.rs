//! The counter widget's state: an integer, initially zero, changed by three
//! operations (increase by one, decrease by one, reset to zero), with no
//! bounds short of the machine word.

use vstd::prelude::*;

verus! {

/// An operation on the counter, each triggered by one button of the widget.
#[derive(Clone, Copy, Debug, PartialEq, Eq, Structural)]
pub enum CounterOp {
    Increase,
    Decrease,
    Reset,
}

/// The value an operation takes the counter to from value `v`.
pub open spec fn counter_step(v: int, op: CounterOp) -> int {
    match op {
        CounterOp::Increase => v + 1,
        CounterOp::Decrease => v - 1,
        CounterOp::Reset => 0,
    }
}

/// The counter value after a whole sequence of operations, applied in event
/// order starting from zero: plus one for each increase, minus one for each
/// decrease, back to zero at each reset.
pub open spec fn counter_after(ops: Seq<CounterOp>) -> int
    decreases ops.len(),
{
    if ops.len() == 0 {
        0
    } else {
        counter_step(counter_after(ops.drop_last()), ops.last())
    }
}

/// The counter never strays further from zero than the number of operations
/// applied since the start.
pub proof fn lemma_counter_after_bounded(ops: Seq<CounterOp>)
    ensures
        -(ops.len() as int) <= counter_after(ops) <= ops.len() as int,
    decreases ops.len(),
{
    if ops.len() > 0 {
        lemma_counter_after_bounded(ops.drop_last());
    }
}

/// A sequence of at most `i64::MAX` operations keeps every intermediate
/// counter value within the machine word, so `run_counter` accepts it.
pub proof fn lemma_counter_fits(ops: Seq<CounterOp>)
    requires
        ops.len() <= i64::MAX,
    ensures
        forall|i: int|
            0 <= i <= ops.len() ==> i64::MIN <= #[trigger] counter_after(ops.take(i))
                <= i64::MAX,
{
    assert forall|i: int|
        0 <= i <= ops.len() implies i64::MIN <= #[trigger] counter_after(ops.take(i))
        <= i64::MAX by {
        lemma_counter_after_bounded(ops.take(i));
    }
}

/// The counter widget's state cell.
#[derive(Clone, Copy, Debug)]
pub struct Counter {
    pub value: i64,
}

impl Counter {
    /// A freshly mounted counter starts at zero.
    pub fn new() -> (c: Counter)
        ensures
            c.value == 0,
    {
        Counter { value: 0 }
    }

    /// The increase button: add one.
    pub fn increase(&mut self)
        requires
            old(self).value < i64::MAX,
        ensures
            final(self).value == old(self).value + 1,
    {
        self.value = self.value + 1;
    }

    /// The decrease button: subtract one.
    pub fn decrease(&mut self)
        requires
            old(self).value > i64::MIN,
        ensures
            final(self).value == old(self).value - 1,
    {
        self.value = self.value - 1;
    }

    /// The reset button: back to zero.
    pub fn reset(&mut self)
        ensures
            final(self).value == 0,
    {
        self.value = 0;
    }

    /// Apply one operation.
    pub fn apply(&mut self, op: CounterOp)
        requires
            op is Increase ==> old(self).value < i64::MAX,
            op is Decrease ==> old(self).value > i64::MIN,
        ensures
            final(self).value == counter_step(old(self).value as int, op),
    {
        match op {
            CounterOp::Increase => self.increase(),
            CounterOp::Decrease => self.decrease(),
            CounterOp::Reset => self.reset(),
        }
    }
}

/// Run a whole sequence of operations on a fresh counter and report the value
/// displayed after each one: the value after the first `i + 1` operations is
/// exactly `counter_after` of that prefix — plus one for each increase, minus
/// one for each decrease, back to zero at each reset, in event order. The
/// only condition is the machine's: every displayed value must fit in an
/// `i64` (`lemma_counter_fits` discharges it for any sequence of at most
/// `i64::MAX` operations).
pub fn run_counter(ops: &Vec<CounterOp>) -> (shown: Vec<i64>)
    requires
        forall|i: int|
            0 <= i <= ops@.len() ==> i64::MIN <= #[trigger] counter_after(ops@.take(i))
                <= i64::MAX,
    ensures
        shown@.len() == ops@.len(),
        forall|i: int| 0 <= i < ops@.len() ==> shown@[i] == counter_after(ops@.take(i + 1)),
{
    let mut c = Counter::new();
    let mut shown: Vec<i64> = Vec::new();
    let mut i: usize = 0;
    proof {
        assert(ops@.take(0) =~= Seq::<CounterOp>::empty());
    }
    while i < ops.len()
        invariant
            0 <= i <= ops@.len(),
            forall|j: int|
                0 <= j <= ops@.len() ==> i64::MIN <= #[trigger] counter_after(ops@.take(j))
                    <= i64::MAX,
            shown@.len() == i,
            c.value == counter_after(ops@.take(i as int)),
            forall|j: int| 0 <= j < i ==> shown@[j] == counter_after(ops@.take(j + 1)),
        decreases ops@.len() - i,
    {
        proof {
            assert(ops@.take(i + 1).drop_last() =~= ops@.take(i as int));
            assert(ops@.take(i + 1).last() == ops@[i as int]);
            assert(i64::MIN <= counter_after(ops@.take(i + 1)) <= i64::MAX);
        }
        c.apply(ops[i]);
        shown.push(c.value);
        i = i + 1;
    }
    proof {
        assert(ops@.take(ops@.len() as int) =~= ops@);
    }
    shown
}

} // verus!
