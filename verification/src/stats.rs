//! The readings of the machine's load that the screen shows.

use vstd::prelude::*;
use crate::cpu::CPUData;
use crate::mem::MemData;
use crate::usage::Usage;

verus! {

/// The load of the machine as it is shown, and the sources it is taken
/// from. What is shown changes only when `update` takes the sources'
/// latest readings over, all at once.
#[derive(Debug)]
pub struct SystemStats {
    /// The usage of each logical processor.
    pub cpu_usages: Vec<Usage>,
    /// The bytes of memory in use.
    pub mem_usage: u64,
    /// The bytes of memory that there are.
    pub max_mem: u64,
    /// Where the processors' readings come in.
    pub cpu_data: CPUData,
    /// Where the memory's readings come in.
    pub mem_data: MemData,
}

impl SystemStats {
    /// Nothing to show yet: no processor read, no memory, and a memory
    /// source without a reading.
    pub fn new(cpu_data: CPUData) -> (s: Self)
        ensures
            s.cpu_usages@ == Seq::<Usage>::empty(),
            s.mem_usage == 0,
            s.max_mem == 0,
            s.cpu_data == cpu_data,
            s.mem_data == (MemData { used: 0, total: 0 }),
    {
        SystemStats {
            cpu_usages: Vec::new(),
            mem_usage: 0,
            max_mem: 0,
            cpu_data,
            mem_data: MemData::new(),
        }
    }

    /// Takes over the latest reading of each source, whole, in the place of
    /// what was shown before. The sources stay as they are.
    pub fn update(&mut self)
        ensures
            final(self).cpu_usages@ == old(self).cpu_data.usage@,
            final(self).mem_usage == old(self).mem_data.used,
            final(self).max_mem == old(self).mem_data.total,
            final(self).cpu_data == old(self).cpu_data,
            final(self).mem_data == old(self).mem_data,
    {
        self.cpu_usages = self.cpu_data.get_cpu_usage();
        self.mem_usage = self.mem_data.get_used();
        self.max_mem = self.mem_data.get_total();
    }
}

} // verus!
