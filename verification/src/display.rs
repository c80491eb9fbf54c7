//! The lines that the window shows for a snapshot.

use vstd::prelude::*;
use vstd::string::*;
use crate::decimal::text;
use crate::level::{classify, Level};
use crate::memory::push_mebibytes;
use crate::snapshot::StatsSnapshot;

verus! {

/// The least time between one paint and the next, in milliseconds. It is
/// asked of the host, which may take longer.
pub const REPAINT_AFTER_MILLIS: u64 = 100;

/// What one paint draws, from top to bottom, and when the next is wanted.
pub struct Frame {
    /// The heading.
    pub heading: String,
    /// The share of memory in use.
    pub ram: String,
    /// The grade that tints the line above.
    pub ram_level: Level,
    /// Memory in use and in all, in mebibytes. Never tinted.
    pub memory: String,
    /// Processor load.
    pub cpu: String,
    /// The grade that tints the line above.
    pub cpu_level: Level,
    /// The least time until the next paint, in milliseconds.
    pub repaint_after_millis: u64,
}

/// The line on the share of memory in use.
pub open spec fn ram_line(s: StatsSnapshot) -> Seq<char> {
    "RAM: "@ + text(s.used_memory_percent()) + "%"@
}

/// The line on memory in use and in all.
pub open spec fn memory_line(s: StatsSnapshot) -> Seq<char> {
    text(s.used_memory_mib()) + "/"@ + text(s.total_memory_mib()) + " MiB"@
}

/// The line on processor load.
pub open spec fn cpu_line(s: StatsSnapshot) -> Seq<char> {
    "CPU: "@ + text(s.cpu_percent()) + "%"@
}

impl Frame {
    /// Whether the frame is the one drawn for snapshot `s`.
    pub open spec fn shows(&self, s: StatsSnapshot) -> bool {
        &&& self.heading@ == "OSStats"@
        &&& self.ram@ == ram_line(s)
        &&& self.ram_level == classify(s.used_memory_percent())
        &&& self.memory@ == memory_line(s)
        &&& self.cpu@ == cpu_line(s)
        &&& self.cpu_level == classify(s.cpu_percent())
        &&& self.repaint_after_millis == REPAINT_AFTER_MILLIS
    }
}

/// Lays out the frame for a snapshot. Every snapshot can be drawn, one
/// without any memory and one that was never sampled too.
pub fn render(s: &StatsSnapshot) -> (frame: Frame)
    ensures
        frame.shows(*s),
{
    let mut ram = String::from_str("RAM: ");
    s.used_memory_share.push_text(&mut ram);
    ram.append("%");

    let mut memory = String::new();
    push_mebibytes(&mut memory, s.used_memory);
    memory.append("/");
    push_mebibytes(&mut memory, s.total_memory);
    memory.append(" MiB");
    assert(memory@ =~= memory_line(*s));

    let mut cpu = String::from_str("CPU: ");
    s.cpu_usage.push_text(&mut cpu);
    cpu.append("%");

    Frame {
        heading: String::from_str("OSStats"),
        ram,
        ram_level: s.used_memory_share.level(),
        memory,
        cpu,
        cpu_level: s.cpu_usage.level(),
        repaint_after_millis: REPAINT_AFTER_MILLIS,
    }
}

} // verus!
