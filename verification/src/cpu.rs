//! Per-vCPU configuration: the base register state sampled from the live
//! vCPUs, overlaid with a declarative CPU template.

use vstd::prelude::*;

verus! {

/// A declarative patch of register values: a list of
/// (register id, value) overrides applied on top of the sampled base
/// configuration, in order.  A later modifier of the same register wins.
#[derive(Clone, Debug)]
pub struct CustomCpuTemplate {
    /// The register modifiers, in application order.
    pub reg_modifiers: Vec<(u64, u128)>,
}

/// A set of (register id, value) pairs for one vCPU, in the order they
/// were sampled from the hardware state.
#[derive(Clone, Debug)]
pub struct CpuConfiguration {
    /// The registers and their values.
    pub regs: Vec<(u64, u128)>,
}

/// The value a register with id `id` and base value `base` holds after
/// the modifiers in `mods` are applied in order: the last modifier of
/// `id` wins; without one the base value stays.
pub open spec fn spec_overlay_value(mods: Seq<(u64, u128)>, id: u64, base: u128) -> u128
    decreases mods.len(),
{
    if mods.len() == 0 {
        base
    } else if mods.last().0 == id {
        mods.last().1
    } else {
        spec_overlay_value(mods.drop_last(), id, base)
    }
}

/// The register list of `regs` after the modifiers in `mods` are applied:
/// the same registers in the same order, each with its overlaid value.
pub open spec fn spec_apply_template(regs: Seq<(u64, u128)>, mods: Seq<(u64, u128)>) -> Seq<
    (u64, u128),
> {
    regs.map_values(|r: (u64, u128)| (r.0, spec_overlay_value(mods, r.0, r.1)))
}

impl CpuConfiguration {
    /// Applies the template on top of the base configuration: a pure
    /// overlay of register-id to value overrides.
    pub fn apply_template(config: CpuConfiguration, template: &CustomCpuTemplate) -> (r:
        CpuConfiguration)
        ensures
            r.regs@ == spec_apply_template(config.regs@, template.reg_modifiers@),
    {
        let mut out: Vec<(u64, u128)> = Vec::new();
        let n = config.regs.len();
        let mut i: usize = 0;
        while i < n
            invariant
                i <= n,
                n == config.regs@.len(),
                out@.len() == i,
                forall|k: int|
                    0 <= k < i ==> out@[k] == (
                    config.regs@[k].0,
                    spec_overlay_value(
                        template.reg_modifiers@,
                        config.regs@[k].0,
                        config.regs@[k].1,
                    ),
                    ),
            decreases n - i,
        {
            let (id, base) = config.regs[i];
            let mut value: u128 = base;
            let m = template.reg_modifiers.len();
            let mut j: usize = 0;
            while j < m
                invariant
                    j <= m,
                    m == template.reg_modifiers@.len(),
                    value == spec_overlay_value(template.reg_modifiers@.take(j as int), id, base),
                decreases m - j,
            {
                let (mod_id, mod_value) = template.reg_modifiers[j];
                if mod_id == id {
                    value = mod_value;
                }
                proof {
                    let mods = template.reg_modifiers@;
                    assert(mods.take(j + 1).drop_last() =~= mods.take(j as int));
                    assert(mods.take(j + 1).last() == mods[j as int]);
                }
                j += 1;
            }
            proof {
                assert(template.reg_modifiers@.take(m as int) =~= template.reg_modifiers@);
            }
            out.push((id, value));
            i += 1;
        }
        proof {
            assert(out@ =~= spec_apply_template(config.regs@, template.reg_modifiers@));
        }
        CpuConfiguration { regs: out }
    }
}

/// Configuration handed to each vCPU when it is programmed.
#[derive(Clone, Debug)]
pub struct VcpuConfig {
    /// Number of guest vCPUs.
    pub vcpu_count: u8,
    /// Whether simultaneous multithreading is on.
    pub smt: bool,
    /// Register overrides programmed into each vCPU.
    pub cpu_config: CpuConfiguration,
}

/// The machine configuration fields the boot planner consumes.
#[derive(Clone, Copy, Debug, PartialEq, Eq, Structural)]
pub struct MachineConfig {
    /// Number of guest vCPUs.
    pub vcpu_count: u8,
    /// Whether simultaneous multithreading is on.
    pub smt: bool,
}

} // verus!
