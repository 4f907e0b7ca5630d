//! An instruction execution backend: the interpreter, or any other engine that runs the CPU
//! against the system bus.
use vstd::prelude::*;
use crate::cpu::Cpu;
use crate::interpreter::ExecError;
use crate::system_bus::SystemBus;

verus! {

/// Runs instructions. Each call keeps the CPU and the bus well formed and leaves the bus clock
/// alone (the caller advances time).
pub trait Backend {
    /// What one instruction does: from (`cpu`, `bus`) to (`cpu2`, `bus2`) with result `r`.
    spec fn stepped(cpu: Cpu, bus: SystemBus, cpu2: Cpu, bus2: SystemBus, r: Result<(), ExecError>) -> bool;

    /// Execute one instruction.
    fn step(&mut self, cpu: &mut Cpu, bus: &mut SystemBus) -> (r: Result<(), ExecError>)
        requires
            old(cpu).wf(),
            old(bus).wf(),
        ensures
            final(cpu).wf(),
            final(bus).wf(),
            final(bus).scheduler.current_cycle == old(bus).scheduler.current_cycle,
            Self::stepped(*old(cpu), *old(bus), *final(cpu), *final(bus), r),
    ;

    /// Execute `cycles` instructions, stopping at the first that fails.
    fn run(&mut self, cpu: &mut Cpu, bus: &mut SystemBus, cycles: u64) -> (r: Result<(), ExecError>)
        requires
            old(cpu).wf(),
            old(bus).wf(),
        ensures
            final(cpu).wf(),
            final(bus).wf(),
            final(bus).scheduler.current_cycle == old(bus).scheduler.current_cycle,
    ;
}

} // verus!
