use vstd::prelude::*;

verus! {

/// What is observed of this process.
#[derive(Debug, Clone, Copy, PartialEq, Eq, Structural)]
pub struct ProcessHealth {
    /// The pid of this process.
    pub pid: u32,
    /// The number of threads used by this pid.
    pub pid_num_threads: i64,
    /// The total resident memory used by this pid.
    pub pid_mem_resident_set_size: u64,
    /// The total virtual memory used by this pid.
    pub pid_mem_virtual_memory_size: u64,
    /// The total shared memory used by this pid.
    pub pid_mem_shared_memory_size: u64,
    /// Number of cpu seconds consumed by this pid.
    pub pid_process_seconds_total: u64,
}

/// The raw readings that the health of the process is made of.
#[derive(Debug, Clone, Copy, PartialEq, Eq, Structural)]
pub struct ProcessReadings {
    pub pid: u32,
    pub num_threads: i64,
    pub rss: u64,
    pub vms: u64,
    pub shared: u64,
    pub busy_seconds: u64,
    pub children_system_seconds: u64,
}

impl ProcessHealth {
    /// The health of the process from its readings. The cpu seconds are the busy time plus
    /// twice the system time of the children; a sum past `u64::MAX` is an error.
    pub fn from_readings(r: ProcessReadings) -> (h: Result<ProcessHealth, String>)
        ensures
            r.busy_seconds + 2 * r.children_system_seconds <= u64::MAX <==> h is Ok,
            h is Ok ==> h->Ok_0 == (ProcessHealth {
                pid: r.pid,
                pid_num_threads: r.num_threads,
                pid_mem_resident_set_size: r.rss,
                pid_mem_virtual_memory_size: r.vms,
                pid_mem_shared_memory_size: r.shared,
                pid_process_seconds_total: (r.busy_seconds + 2 * r.children_system_seconds) as u64,
            }),
    {
        let total = match r.busy_seconds.checked_add(r.children_system_seconds) {
            Some(t) => t.checked_add(r.children_system_seconds),
            None => None,
        };
        match total {
            Some(t) => Ok(ProcessHealth {
                pid: r.pid,
                pid_num_threads: r.num_threads,
                pid_mem_resident_set_size: r.rss,
                pid_mem_virtual_memory_size: r.vms,
                pid_mem_shared_memory_size: r.shared,
                pid_process_seconds_total: t,
            }),
            None => Err(String::from_str("Process cpu time does not fit in 64 bits")),
        }
    }
}

} // verus!
