//! A model of the hardware that the sequences act on, and what holds of the
//! sequences when they are run on it.
//!
//! The model has the five system registers, the translation tables and a
//! record of the operations performed. It says what each operation does to
//! them, which gives the sequences of `mmu` a meaning that can be stated and
//! proved, and gives callers a machine to run them on without hardware.

use vstd::prelude::*;
use crate::descriptor::{
    attribute_index_of, block_attribute, lemma_block_entry_maps, maps_block, refers_to_table,
    MemoryAttribute, LEVEL1_ENTRIES,
};
use crate::mmu::{
    build_program, disable_program, enable_program, initialize_program, Operation, Sequencer,
    TableAddresses, BUILD_STEPS, DESIGNATED_CORE, DISABLE_STEPS, ENABLE_STEPS,
};
use crate::registers::{
    binds_attribute, hcr_direct, lemma_mair_binds, lemma_merge_idempotent,
    lemma_merge_sets_fields, lemma_sctlr_switch, lemma_values_well_formed, mair_profiles,
    sctlr_off, sctlr_on, tcr_walk, translation_enabled, ttbr0_base, Register,
};
use crate::tables::{
    built_level0, built_level1, lemma_build_idempotent, lemma_built_tables, setup_page_tables,
    MmuConfig, LEVEL0_ENTRIES,
};

verus! {

/// The values of the system registers.
#[derive(Clone, Copy, Debug, PartialEq, Eq)]
pub struct Registers {
    pub sctlr_el2: u64,
    pub mair_el2: u64,
    pub ttbr0_el2: u64,
    pub tcr_el2: u64,
    pub hcr_el2: u64,
}

impl Registers {
    /// The value of `register`.
    pub open spec fn value_of(self, register: Register) -> u64 {
        match register {
            Register::SctlrEl2 => self.sctlr_el2,
            Register::MairEl2 => self.mair_el2,
            Register::Ttbr0El2 => self.ttbr0_el2,
            Register::TcrEl2 => self.tcr_el2,
            Register::HcrEl2 => self.hcr_el2,
        }
    }

    /// These registers with `register` set to `value`.
    pub open spec fn with_value(self, register: Register, value: u64) -> Registers {
        match register {
            Register::SctlrEl2 => Registers { sctlr_el2: value, ..self },
            Register::MairEl2 => Registers { mair_el2: value, ..self },
            Register::Ttbr0El2 => Registers { ttbr0_el2: value, ..self },
            Register::TcrEl2 => Registers { tcr_el2: value, ..self },
            Register::HcrEl2 => Registers { hcr_el2: value, ..self },
        }
    }

    /// Reads `register`.
    pub fn read(&self, register: Register) -> (value: u64)
        ensures
            value == self.value_of(register),
    {
        match register {
            Register::SctlrEl2 => self.sctlr_el2,
            Register::MairEl2 => self.mair_el2,
            Register::Ttbr0El2 => self.ttbr0_el2,
            Register::TcrEl2 => self.tcr_el2,
            Register::HcrEl2 => self.hcr_el2,
        }
    }

    /// Writes `value` to `register`.
    pub fn write(&mut self, register: Register, value: u64)
        ensures
            *final(self) == old(self).with_value(register, value),
    {
        match register {
            Register::SctlrEl2 => self.sctlr_el2 = value,
            Register::MairEl2 => self.mair_el2 = value,
            Register::Ttbr0El2 => self.ttbr0_el2 = value,
            Register::TcrEl2 => self.tcr_el2 = value,
            Register::HcrEl2 => self.hcr_el2 = value,
        }
    }
}

/// The state of the modelled machine, as the contracts speak of it.
pub struct MachineState {
    pub registers: Registers,
    pub level0: Seq<u64>,
    pub level1: Seq<u64>,
    pub trace: Seq<Operation>,
}

/// The modelled machine.
pub struct Machine {
    /// The system registers.
    pub registers: Registers,
    /// The translation table region.
    pub tables: MmuConfig,
    /// Every operation performed so far, oldest first.
    pub trace: Vec<Operation>,
}

impl View for Machine {
    type V = MachineState;

    open spec fn view(&self) -> MachineState {
        MachineState {
            registers: self.registers,
            level0: self.tables.ttlb_lvl0@,
            level1: self.tables.ttlb_lvl1@,
            trace: self.trace@,
        }
    }
}

/// The state that performing `op` leaves behind. A write of fields changes the
/// named fields of one register; the building of the tables changes the
/// tables; delays and barriers change nothing that the model holds. Every
/// operation is added to the trace.
pub open spec fn effect(op: Operation, state: MachineState) -> MachineState {
    let traced = MachineState { trace: state.trace.push(op), ..state };
    match op {
        Operation::WriteFields { register, fields } => MachineState {
            registers: state.registers.with_value(
                register,
                fields.merged(state.registers.value_of(register)),
            ),
            ..traced
        },
        Operation::BuildTables { level1_lower, level1_upper } => MachineState {
            level0: built_level0(state.level0, level1_lower, level1_upper),
            level1: built_level1(),
            ..traced
        },
        _ => traced,
    }
}

/// The state that performing `ops` in order leaves behind.
pub open spec fn effects(ops: Seq<Operation>, state: MachineState) -> MachineState
    decreases ops.len(),
{
    if ops.len() == 0 {
        state
    } else {
        effects(ops.drop_first(), effect(ops[0], state))
    }
}

/// Whether `op` is a write that switches translation on.
pub open spec fn switches_translation_on(op: Operation) -> bool {
    match op {
        Operation::WriteFields { register, fields } => register == Register::SctlrEl2
            && fields.mask & 1 != 0 && fields.bits & 1 != 0,
        _ => false,
    }
}

/// Whether `op` is the building of the tables.
pub open spec fn builds_tables(op: Operation) -> bool {
    op is BuildTables
}

/// Whether `op` is a write to `register`.
pub open spec fn writes_register(op: Operation, register: Register) -> bool {
    match op {
        Operation::WriteFields { register: written, .. } => written == register,
        _ => false,
    }
}

impl Machine {
    /// A machine after reset, as far as the model goes: every register and
    /// every table entry is zero, and nothing has been performed.
    pub fn new() -> (machine: Machine)
        ensures
            machine.registers == (Registers {
                sctlr_el2: 0,
                mair_el2: 0,
                ttbr0_el2: 0,
                tcr_el2: 0,
                hcr_el2: 0,
            }),
            forall|i: int| 0 <= i < machine@.level0.len() ==> machine@.level0[i] == 0,
            forall|i: int| 0 <= i < machine@.level1.len() ==> machine@.level1[i] == 0,
            machine@.trace == Seq::<Operation>::empty(),
    {
        Machine {
            registers: Registers { sctlr_el2: 0, mair_el2: 0, ttbr0_el2: 0, tcr_el2: 0, hcr_el2: 0 },
            tables: MmuConfig::new(),
            trace: Vec::new(),
        }
    }

    /// Performs one operation on the machine.
    pub fn perform(&mut self, op: Operation)
        ensures
            final(self)@ == effect(op, old(self)@),
    {
        match op {
            Operation::WriteFields { register, fields } => {
                let current: u64 = self.registers.read(register);
                self.registers.write(register, fields.merge(current));
            },
            Operation::BuildTables { level1_lower, level1_upper } => {
                setup_page_tables(&mut self.tables, level1_lower, level1_upper);
            },
            _ => {},
        }
        self.trace.push(op);
    }

    /// Runs what remains of a sequence on the machine, to its end.
    pub fn run(&mut self, sequencer: &mut Sequencer)
        ensures
            final(self)@ == effects(old(sequencer).remaining(), old(self)@),
            final(sequencer).remaining().len() == 0,
            final(sequencer).program() == old(sequencer).program(),
    {
        loop
            invariant
                effects(sequencer.remaining(), self@) == effects(
                    old(sequencer).remaining(),
                    old(self)@,
                ),
                sequencer.program() == old(sequencer).program(),
            ensures
                self@ == effects(old(sequencer).remaining(), old(self)@),
                sequencer.remaining().len() == 0,
            decreases sequencer.remaining().len(),
        {
            match sequencer.step() {
                Some(op) => self.perform(op),
                None => break ,
            }
        }
    }
}

impl MachineState {
    /// The tables have their lengths.
    pub open spec fn well_formed(self) -> bool {
        self.level0.len() == LEVEL0_ENTRIES && self.level1.len() == LEVEL1_ENTRIES
    }
}

/// The state of a machine is always well formed.
pub proof fn lemma_machine_well_formed(machine: &Machine)
    ensures
        machine@.well_formed(),
{
}

/// Whether some operation of `ops` at a position from `from` on and before
/// `to` writes `register`.
pub open spec fn written_between(ops: Seq<Operation>, from: int, to: int, register: Register) -> bool {
    exists|i: int| from <= i < to && writes_register(#[trigger] ops[i], register)
}

/// Performing one sequence after another is performing their concatenation.
pub proof fn lemma_effects_concat(first: Seq<Operation>, second: Seq<Operation>, state: MachineState)
    ensures
        effects(first + second, state) == effects(second, effects(first, state)),
    decreases first.len(),
{
    if first.len() > 0 {
        assert((first + second).drop_first() =~= first.drop_first() + second);
        lemma_effects_concat(first.drop_first(), second, effect(first[0], state));
    }
}

/// The trace of a run is the trace before it, followed by the operations of
/// the run in their order.
pub proof fn lemma_effects_trace(ops: Seq<Operation>, state: MachineState)
    ensures
        effects(ops, state).trace == state.trace + ops,
    decreases ops.len(),
{
    if ops.len() > 0 {
        lemma_effects_trace(ops.drop_first(), effect(ops[0], state));
    }
}

/// What the disabling sequence does: the system control register has
/// translation and both caches cleared and its other bits as before; the other
/// registers and the tables are untouched.
pub proof fn lemma_disable_effect(state: MachineState)
    ensures
        effects(disable_program(), state).registers == state.registers.with_value(
            Register::SctlrEl2,
            sctlr_off().merged(state.registers.sctlr_el2),
        ),
        effects(disable_program(), state).level0 == state.level0,
        effects(disable_program(), state).level1 == state.level1,
        !translation_enabled(effects(disable_program(), state).registers.sctlr_el2),
{
    reveal_with_fuel(effects, 6);
    lemma_sctlr_switch(state.registers.sctlr_el2);
}

/// What the building sequence does: the tables are built, the registers are
/// untouched.
pub proof fn lemma_build_effect(addresses: TableAddresses, state: MachineState)
    ensures
        effects(build_program(addresses), state).registers == state.registers,
        effects(build_program(addresses), state).level0 == built_level0(
            state.level0,
            addresses.level1_lower,
            addresses.level1_upper,
        ),
        effects(build_program(addresses), state).level1 == built_level1(),
{
    reveal_with_fuel(effects, 4);
}

/// What the enabling sequence does: each of the five registers has the fields
/// that the sequence names at their values and its other bits as before; the
/// tables are untouched.
pub proof fn lemma_enable_effect(level0: u64, state: MachineState)
    ensures
        effects(enable_program(level0), state).registers == (Registers {
            sctlr_el2: sctlr_on().merged(state.registers.sctlr_el2),
            mair_el2: mair_profiles().merged(state.registers.mair_el2),
            ttbr0_el2: ttbr0_base(level0).merged(state.registers.ttbr0_el2),
            tcr_el2: tcr_walk().merged(state.registers.tcr_el2),
            hcr_el2: hcr_direct().merged(state.registers.hcr_el2),
        }),
        effects(enable_program(level0), state).level0 == state.level0,
        effects(enable_program(level0), state).level1 == state.level1,
{
    reveal_with_fuel(effects, 8);
}

/// What the whole bring-up does, from any state: translation ends up switched
/// on, every register has the fields of the sequence at their values, and on
/// the designated core the tables are built, while on any other core they are
/// left as they were.
pub proof fn lemma_initialize_effect(core: u32, addresses: TableAddresses, state: MachineState)
    ensures
        effects(initialize_program(core, addresses), state).registers == (Registers {
            sctlr_el2: sctlr_on().merged(sctlr_off().merged(state.registers.sctlr_el2)),
            mair_el2: mair_profiles().merged(state.registers.mair_el2),
            ttbr0_el2: ttbr0_base(addresses.level0).merged(state.registers.ttbr0_el2),
            tcr_el2: tcr_walk().merged(state.registers.tcr_el2),
            hcr_el2: hcr_direct().merged(state.registers.hcr_el2),
        }),
        translation_enabled(effects(initialize_program(core, addresses), state).registers.sctlr_el2),
        core == DESIGNATED_CORE ==> effects(initialize_program(core, addresses), state).level0
            == built_level0(state.level0, addresses.level1_lower, addresses.level1_upper),
        core == DESIGNATED_CORE ==> effects(initialize_program(core, addresses), state).level1
            == built_level1(),
        core != DESIGNATED_CORE ==> effects(initialize_program(core, addresses), state).level0
            == state.level0,
        core != DESIGNATED_CORE ==> effects(initialize_program(core, addresses), state).level1
            == state.level1,
{
    let build = if core == DESIGNATED_CORE {
        build_program(addresses)
    } else {
        Seq::empty()
    };
    let off = effects(disable_program(), state);
    let built = effects(build, off);
    lemma_effects_concat(disable_program() + build, enable_program(addresses.level0), state);
    lemma_effects_concat(disable_program(), build, state);
    lemma_disable_effect(state);
    if core == DESIGNATED_CORE {
        lemma_build_effect(addresses, off);
    }
    lemma_enable_effect(addresses.level0, built);
    lemma_sctlr_switch(off.registers.sctlr_el2);
}

/// After the bring-up of any core, from any state, each of the five registers
/// holds the fields of the sequence at their values: translation and the data
/// cache are on, the table walk starts at the Level-0 table, and every
/// attribute index is bound to the encoding of its profile.
pub proof fn lemma_initialize_result(core: u32, addresses: TableAddresses, state: MachineState)
    ensures
        ({
            let registers = effects(initialize_program(core, addresses), state).registers;
            &&& sctlr_on().holds_in(registers.sctlr_el2)
            &&& translation_enabled(registers.sctlr_el2)
            &&& mair_profiles().holds_in(registers.mair_el2)
            &&& ttbr0_base(addresses.level0).holds_in(registers.ttbr0_el2)
            &&& tcr_walk().holds_in(registers.tcr_el2)
            &&& hcr_direct().holds_in(registers.hcr_el2)
            &&& forall|attribute: MemoryAttribute| #[trigger]
                binds_attribute(registers.mair_el2, attribute)
        }),
{
    lemma_initialize_effect(core, addresses, state);
    lemma_values_well_formed(addresses.level0);
    lemma_merge_sets_fields(sctlr_on(), sctlr_off().merged(state.registers.sctlr_el2));
    lemma_merge_sets_fields(mair_profiles(), state.registers.mair_el2);
    lemma_merge_sets_fields(ttbr0_base(addresses.level0), state.registers.ttbr0_el2);
    lemma_merge_sets_fields(tcr_walk(), state.registers.tcr_el2);
    lemma_merge_sets_fields(hcr_direct(), state.registers.hcr_el2);
    assert forall|attribute: MemoryAttribute| #[trigger]
        binds_attribute(
            mair_profiles().merged(state.registers.mair_el2),
            attribute,
        ) by {
        lemma_mair_binds(attribute, state.registers.mair_el2);
    }
}

/// After the bring-up of the designated core, every Level-1 entry names, by
/// its attribute index, the profile of its block, and the memory attribute
/// register binds that index to the encoding of that profile.
pub proof fn lemma_blocks_get_their_profiles(
    addresses: TableAddresses,
    state: MachineState,
    index: int,
)
    requires
        0 <= index < LEVEL1_ENTRIES,
    ensures
        ({
            let end = effects(initialize_program(DESIGNATED_CORE, addresses), state);
            &&& attribute_index_of(end.level1[index]) == block_attribute(index).index_of()
            &&& binds_attribute(end.registers.mair_el2, block_attribute(index))
        }),
{
    lemma_initialize_effect(DESIGNATED_CORE, addresses, state);
    lemma_initialize_result(DESIGNATED_CORE, addresses, state);
    lemma_block_entry_maps(index);
}

/// After the bring-up of the designated core with well placed tables, the
/// table walk leads through the tables: the table base register holds the
/// address of the Level-0 table, the first two Level-0 entries refer to the
/// lower and the upper Level-1 table, and every Level-1 entry maps its block.
pub proof fn lemma_walk_leads_through_tables(addresses: TableAddresses, state: MachineState)
    requires
        state.well_formed(),
        addresses.well_placed(),
    ensures
        ({
            let end = effects(initialize_program(DESIGNATED_CORE, addresses), state);
            &&& end.well_formed()
            &&& end.registers.ttbr0_el2 & 0xFFFF_FFFF_FFFF == addresses.level0
            &&& refers_to_table(end.level0[0], addresses.level1_lower)
            &&& refers_to_table(end.level0[1], addresses.level1_upper)
            &&& forall|i: int| 0 <= i < LEVEL1_ENTRIES ==> maps_block(#[trigger] end.level1[i], i)
        }),
{
    let level0: u64 = addresses.level0;
    lemma_initialize_effect(DESIGNATED_CORE, addresses, state);
    lemma_initialize_result(DESIGNATED_CORE, addresses, state);
    lemma_built_tables(state.level0, addresses.level1_lower, addresses.level1_upper);
    assert(level0 & 0xFFFF_FFFF_FFFF == level0) by (bit_vector)
        requires
            level0 & 0x0000_FFFF_FFFF_F000 == level0,
    ;
}

/// Switching translation off twice in succession leaves the registers and the
/// tables as switching it off once.
pub proof fn lemma_disable_idempotent(state: MachineState)
    ensures
        effects(disable_program(), effects(disable_program(), state)).registers == effects(
            disable_program(),
            state,
        ).registers,
        effects(disable_program(), effects(disable_program(), state)).level0 == effects(
            disable_program(),
            state,
        ).level0,
        effects(disable_program(), effects(disable_program(), state)).level1 == effects(
            disable_program(),
            state,
        ).level1,
{
    let once = effects(disable_program(), state);
    lemma_disable_effect(state);
    lemma_disable_effect(once);
    lemma_merge_idempotent(sctlr_off(), state.registers.sctlr_el2);
}

/// The tables are built only on the designated core, only while translation
/// is switched off, and the store barrier and the invalidation of the
/// translation lookaside buffer follow at once. Switching translation off
/// never builds them.
pub proof fn lemma_build_is_guarded(core: u32, addresses: TableAddresses, state: MachineState)
    ensures
        forall|k: int|
            0 <= k < disable_program().len() ==> !builds_tables(#[trigger] disable_program()[k]),
        forall|k: int|
            0 <= k < initialize_program(core, addresses).len() && builds_tables(
                #[trigger] initialize_program(core, addresses)[k],
            ) ==> {
                &&& core == DESIGNATED_CORE
                &&& !translation_enabled(
                    effects(
                        initialize_program(core, addresses).take(k),
                        state,
                    ).registers.sctlr_el2,
                )
                &&& k + 2 < initialize_program(core, addresses).len()
                &&& initialize_program(core, addresses)[k + 1] == Operation::StoreBarrier
                &&& initialize_program(core, addresses)[k + 2] == Operation::InvalidateTlb
            },
        core == DESIGNATED_CORE ==> exists|k: int|
            0 <= k < initialize_program(core, addresses).len() && builds_tables(
                #[trigger] initialize_program(core, addresses)[k],
            ),
{
    let program = initialize_program(core, addresses);
    assert(forall|k: int|
        0 <= k < program.len() && builds_tables(#[trigger] program[k]) ==> core == DESIGNATED_CORE
            && k == DISABLE_STEPS);
    if core == DESIGNATED_CORE {
        let at: int = DISABLE_STEPS as int;
        assert(program.take(at) =~= disable_program());
        lemma_disable_effect(state);
        assert(builds_tables(program[at]));
    }
}

/// Bringing translation up on the designated core, switching it off and
/// bringing it up again leaves the tables as the first bring-up built them.
pub proof fn lemma_reinitialize_keeps_tables(addresses: TableAddresses, state: MachineState)
    requires
        state.well_formed(),
    ensures
        ({
            let first = effects(initialize_program(DESIGNATED_CORE, addresses), state);
            let off = effects(disable_program(), first);
            let second = effects(initialize_program(DESIGNATED_CORE, addresses), off);
            &&& second.level0 == first.level0
            &&& second.level1 == first.level1
        }),
{
    let first = effects(initialize_program(DESIGNATED_CORE, addresses), state);
    let off = effects(disable_program(), first);
    lemma_initialize_effect(DESIGNATED_CORE, addresses, state);
    lemma_disable_effect(first);
    lemma_initialize_effect(DESIGNATED_CORE, addresses, off);
    lemma_build_idempotent(state.level0, addresses.level1_lower, addresses.level1_upper);
}

/// In the bring-up of any core, run from any state, exactly one write
/// switches translation on, and it comes after the writes of the memory
/// attribute, table base, translation control and hypervisor configuration
/// registers of that bring-up. The trace of the run is the trace before it
/// followed by the operations of the bring-up.
pub proof fn lemma_configured_before_enabled(
    core: u32,
    addresses: TableAddresses,
    state: MachineState,
)
    ensures
        ({
            let start: int = state.trace.len() as int;
            let trace = effects(initialize_program(core, addresses), state).trace;
            &&& trace == state.trace + initialize_program(core, addresses)
            &&& forall|k: int|
                start <= k < trace.len() && switches_translation_on(#[trigger] trace[k]) ==> {
                    &&& written_between(trace, start, k, Register::MairEl2)
                    &&& written_between(trace, start, k, Register::Ttbr0El2)
                    &&& written_between(trace, start, k, Register::TcrEl2)
                    &&& written_between(trace, start, k, Register::HcrEl2)
                    &&& k == trace.len() - 3
                }
            &&& trace.len() >= start + 3
            &&& switches_translation_on(trace[trace.len() - 3])
        }),
{
    let program = initialize_program(core, addresses);
    let start: int = state.trace.len() as int;
    let trace = effects(program, state).trace;
    lemma_effects_trace(program, state);
    let base: int = if core == DESIGNATED_CORE {
        DISABLE_STEPS + BUILD_STEPS
    } else {
        DISABLE_STEPS as int
    };
    assert(0x1005u64 & 1 != 0 && 0u64 & 1 == 0 && 0x100Fu64 & 1 != 0 && 0x5u64 & 1 != 0)
        by (bit_vector);
    assert(writes_register(trace[start + base], Register::MairEl2));
    assert(writes_register(trace[start + base + 1], Register::Ttbr0El2));
    assert(writes_register(trace[start + base + 2], Register::TcrEl2));
    assert(writes_register(trace[start + base + 3], Register::HcrEl2));
    assert(forall|k: int|
        start <= k < trace.len() && switches_translation_on(#[trigger] trace[k]) ==> k == start
            + base + 4);
}

} // verus!
