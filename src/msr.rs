use vstd::prelude::*;

verus! {

/// One access to a model-specific register: the register and the value read
/// or written.
#[derive(Debug, Clone, Copy, PartialEq, Eq, Structural)]
pub enum MsrOp {
    Read(u32, u64),
    Write(u32, u64),
}

/// The value that an access read or wrote.
pub open spec fn op_value(op: MsrOp) -> u64 {
    match op {
        MsrOp::Read(_, v) => v,
        MsrOp::Write(_, v) => v,
    }
}

/// Access to the model-specific registers of one logical CPU.
///
/// `ops` is the history of accesses made through this handle, oldest first.
pub trait MsrAccess {
    spec fn ops(&self) -> Seq<MsrOp>;

    /// Reads register `msr`.
    fn read(&mut self, msr: u32) -> (r: u64)
        ensures
            final(self).ops() == old(self).ops().push(MsrOp::Read(msr, r)),
    ;

    /// Writes `value` to register `msr`.
    fn write(&mut self, msr: u32, value: u64)
        ensures
            final(self).ops() == old(self).ops().push(MsrOp::Write(msr, value)),
    ;
}

/// A register file in memory that records every access: registers never
/// written read as zero, and a register reads back what was last written.
pub struct SimulatedMsrs {
    values: Vec<(u32, u64)>,
    log: Vec<MsrOp>,
}

/// The value of register `msr` in a list of register values: the first entry
/// for it, or zero.
pub open spec fn value_in(values: Seq<(u32, u64)>, msr: u32) -> u64
    decreases values.len(),
{
    if values.len() == 0 {
        0
    } else if values[0].0 == msr {
        values[0].1
    } else {
        value_in(values.drop_first(), msr)
    }
}

proof fn lemma_value_in_update(values: Seq<(u32, u64)>, i: int, msr: u32, v: u64, other: u32)
    requires
        0 <= i < values.len(),
        values[i].0 == msr,
        forall|j: int| 0 <= j < i ==> values[j].0 != msr,
    ensures
        value_in(values.update(i, (msr, v)), other) == if other == msr {
            v
        } else {
            value_in(values, other)
        },
    decreases i,
{
    if i > 0 {
        lemma_value_in_update(values.drop_first(), i - 1, msr, v, other);
        assert(values.update(i, (msr, v)).drop_first() =~= values.drop_first().update(
            i - 1,
            (msr, v),
        ));
    } else {
        assert(values.update(0, (msr, v)).drop_first() =~= values.drop_first());
    }
}

proof fn lemma_value_in_absent(values: Seq<(u32, u64)>, msr: u32)
    requires
        forall|j: int| 0 <= j < values.len() ==> values[j].0 != msr,
    ensures
        value_in(values, msr) == 0,
    decreases values.len(),
{
    if values.len() > 0 {
        lemma_value_in_absent(values.drop_first(), msr);
    }
}

proof fn lemma_value_in_push(values: Seq<(u32, u64)>, msr: u32, v: u64, other: u32)
    requires
        forall|j: int| 0 <= j < values.len() ==> values[j].0 != msr,
    ensures
        value_in(values.push((msr, v)), other) == if other == msr {
            v
        } else {
            value_in(values, other)
        },
    decreases values.len(),
{
    if values.len() == 0 {
        assert(values.push((msr, v)).drop_first() =~= values);
    } else {
        lemma_value_in_push(values.drop_first(), msr, v, other);
        assert(values.push((msr, v)).drop_first() =~= values.drop_first().push((msr, v)));
    }
}

impl SimulatedMsrs {
    /// The current value of register `msr`.
    pub closed spec fn value_of(&self, msr: u32) -> u64 {
        value_in(self.values@, msr)
    }

    /// A register file with every register at zero and no access recorded.
    pub fn new() -> (r: SimulatedMsrs)
        ensures
            r.ops().len() == 0,
            forall|m: u32| r.value_of(m) == 0,
    {
        SimulatedMsrs { values: Vec::new(), log: Vec::new() }
    }

    fn position(&self, msr: u32) -> (r: Option<usize>)
        ensures
            r matches Some(i) ==> i < self.values@.len() && self.values@[i as int].0 == msr
                && forall|j: int| 0 <= j < i ==> self.values@[j].0 != msr,
            r is None ==> forall|j: int| 0 <= j < self.values@.len() ==> self.values@[j].0 != msr,
    {
        let mut i: usize = 0;
        while i < self.values.len()
            invariant
                i <= self.values@.len(),
                forall|j: int| 0 <= j < i ==> self.values@[j].0 != msr,
            decreases self.values@.len() - i,
        {
            if self.values[i].0 == msr {
                return Some(i);
            }
            i = i + 1;
        }
        None
    }

    /// Reads the value of register `msr` without recording an access.
    pub fn value(&self, msr: u32) -> (r: u64)
        ensures
            r == self.value_of(msr),
    {
        match self.position(msr) {
            Some(i) => {
                proof {
                    lemma_first_match(self.values@, i as int, msr);
                }
                self.values[i].1
            },
            None => {
                proof {
                    lemma_value_in_absent(self.values@, msr);
                }
                0
            },
        }
    }

    /// Sets register `msr` to `v` as the hardware would, without recording an
    /// access.
    pub fn set(&mut self, msr: u32, v: u64)
        ensures
            final(self).ops() == old(self).ops(),
            forall|m: u32| #[trigger]
                final(self).value_of(m) == if m == msr {
                    v
                } else {
                    old(self).value_of(m)
                },
    {
        match self.position(msr) {
            Some(i) => {
                proof {
                    assert forall|m: u32| true implies #[trigger] value_in(
                        self.values@.update(i as int, (msr, v)),
                        m,
                    ) == if m == msr {
                        v
                    } else {
                        value_in(self.values@, m)
                    } by {
                        lemma_value_in_update(self.values@, i as int, msr, v, m);
                    }
                }
                self.values.set(i, (msr, v));
            },
            None => {
                proof {
                    assert forall|m: u32| true implies #[trigger] value_in(
                        self.values@.push((msr, v)),
                        m,
                    ) == if m == msr {
                        v
                    } else {
                        value_in(self.values@, m)
                    } by {
                        lemma_value_in_push(self.values@, msr, v, m);
                    }
                }
                self.values.push((msr, v));
            },
        }
    }

    /// Every access recorded so far, oldest first.
    pub fn log(&self) -> (r: &Vec<MsrOp>)
        ensures
            r@ == self.ops(),
    {
        &self.log
    }
}

proof fn lemma_first_match(values: Seq<(u32, u64)>, i: int, msr: u32)
    requires
        0 <= i < values.len(),
        values[i].0 == msr,
        forall|j: int| 0 <= j < i ==> values[j].0 != msr,
    ensures
        value_in(values, msr) == values[i].1,
    decreases i,
{
    if i > 0 {
        lemma_first_match(values.drop_first(), i - 1, msr);
    }
}

impl MsrAccess for SimulatedMsrs {
    closed spec fn ops(&self) -> Seq<MsrOp> {
        self.log@
    }

    fn read(&mut self, msr: u32) -> (r: u64) {
        let r = self.value(msr);
        self.log.push(MsrOp::Read(msr, r));
        r
    }

    fn write(&mut self, msr: u32, value: u64) {
        self.set(msr, value);
        self.log.push(MsrOp::Write(msr, value));
    }
}

/// Raw access to the model-specific registers of one logical CPU, as a
/// platform provides it (an instruction, a device file, a kernel call).
/// Nothing is assumed of the values it reads.
pub trait RegisterPort {
    fn read_register(&mut self, msr: u32) -> u64;

    fn write_register(&mut self, msr: u32, value: u64);
}

/// A register port together with the history of the accesses made through it.
pub struct LoggedPort<P: RegisterPort> {
    port: P,
    history: Ghost<Seq<MsrOp>>,
}

impl<P: RegisterPort> LoggedPort<P> {
    /// Wraps `port`, with an empty history.
    pub fn new(port: P) -> (r: LoggedPort<P>)
        ensures
            r.ops().len() == 0,
            r.inner() == port,
    {
        LoggedPort { port, history: Ghost(Seq::empty()) }
    }

    pub closed spec fn inner(&self) -> P {
        self.port
    }

    /// The wrapped port.
    pub fn port(&self) -> (r: &P)
        ensures
            r == self.inner(),
    {
        &self.port
    }
}

impl<P: RegisterPort> MsrAccess for LoggedPort<P> {
    closed spec fn ops(&self) -> Seq<MsrOp> {
        self.history@
    }

    fn read(&mut self, msr: u32) -> (r: u64) {
        let r = self.port.read_register(msr);
        self.history = Ghost(self.history@.push(MsrOp::Read(msr, r)));
        r
    }

    fn write(&mut self, msr: u32, value: u64) {
        self.port.write_register(msr, value);
        self.history = Ghost(self.history@.push(MsrOp::Write(msr, value)));
    }
}

} // verus!
