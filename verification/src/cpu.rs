//! The latest reading of the machine's processors.

use vstd::prelude::*;
use crate::usage::Usage;

verus! {

/// The processors of the machine and how busy each was when last read.
#[derive(Debug)]
pub struct CPUData {
    /// How many logical processors the machine has.
    pub cpu_count: u64,
    /// How many physical cores the machine has.
    pub cpu_cores: u64,
    /// The usage of each logical processor, in the machine's order.
    pub usage: Vec<Usage>,
}

/// A copy of a list of readings.
pub(crate) fn copy_readings(readings: &Vec<Usage>) -> (copy: Vec<Usage>)
    ensures
        copy@ == readings@,
{
    let mut copy: Vec<Usage> = Vec::new();
    let mut i: usize = 0;
    while i < readings.len()
        invariant
            i <= readings.len(),
            copy@ == readings@.take(i as int),
        decreases readings.len() - i,
    {
        copy.push(readings[i]);
        i += 1;
        assert(copy@ =~= readings@.take(i as int));
    }
    assert(readings@.take(readings.len() as int) =~= readings@);
    copy
}

impl CPUData {
    /// The processors of a machine, none of them read yet.
    pub fn new(cpu_count: u64, cpu_cores: u64) -> (c: Self)
        ensures
            c.cpu_count == cpu_count,
            c.cpu_cores == cpu_cores,
            c.usage@ == Seq::<Usage>::empty(),
    {
        CPUData { cpu_count, cpu_cores, usage: Vec::new() }
    }

    /// Puts a new reading in the place of the old one, whole.
    pub fn record(&mut self, usage: Vec<Usage>)
        ensures
            final(self).usage == usage,
            final(self).cpu_count == old(self).cpu_count,
            final(self).cpu_cores == old(self).cpu_cores,
    {
        self.usage = usage;
    }

    /// The usage of each logical processor when last read.
    pub fn get_cpu_usage(&self) -> (usage: Vec<Usage>)
        ensures
            usage@ == self.usage@,
    {
        copy_readings(&self.usage)
    }
}

} // verus!
