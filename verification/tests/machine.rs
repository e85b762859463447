use el2_mmu::descriptor::{
    attribute_index, block_address, block_descriptor, kind, table_address, table_descriptor,
    DescriptorKind, BLOCK_SIZE,
};
use el2_mmu::mmu::{disable_mmu, initialize_mmu, Operation, TableAddresses};
use el2_mmu::model::{Machine, Registers};
use el2_mmu::registers::{FieldValue, Register};

const ADDRESSES: TableAddresses =
    TableAddresses { level0: 0x8_0000, level1_lower: 0x8_1000, level1_upper: 0x8_2000 };

fn busy_machine() -> Machine {
    let mut machine = Machine::new();
    machine.registers = Registers {
        sctlr_el2: 0x30C5_183F,
        mair_el2: 0x1122_3344_5566_7788,
        ttbr0_el2: 0xFFFF_0000_0000_0000,
        tcr_el2: 0x8000_0000,
        hcr_el2: 0x8000_1001,
    };
    machine
}

#[test]
fn machine_starts_cleared() {
    let machine = Machine::new();
    assert_eq!(
        machine.registers,
        Registers { sctlr_el2: 0, mair_el2: 0, ttbr0_el2: 0, tcr_el2: 0, hcr_el2: 0 }
    );
    assert!(machine.tables.ttlb_lvl0.iter().all(|d| *d == 0));
    assert!(machine.tables.ttlb_lvl1.iter().all(|d| *d == 0));
    assert!(machine.trace.is_empty());
}

#[test]
fn registers_read_back_what_was_written() {
    let mut registers = Registers { sctlr_el2: 1, mair_el2: 2, ttbr0_el2: 3, tcr_el2: 4, hcr_el2: 5 };
    assert_eq!(registers.read(Register::SctlrEl2), 1);
    assert_eq!(registers.read(Register::MairEl2), 2);
    assert_eq!(registers.read(Register::Ttbr0El2), 3);
    assert_eq!(registers.read(Register::TcrEl2), 4);
    assert_eq!(registers.read(Register::HcrEl2), 5);
    registers.write(Register::TcrEl2, 40);
    assert_eq!(
        registers,
        Registers { sctlr_el2: 1, mair_el2: 2, ttbr0_el2: 3, tcr_el2: 40, hcr_el2: 5 }
    );
}

#[test]
fn a_write_of_fields_changes_one_register() {
    let mut machine = busy_machine();
    let op = Operation::WriteFields {
        register: Register::HcrEl2,
        fields: FieldValue { mask: 0x1001, bits: 0 },
    };
    machine.perform(op);
    assert_eq!(machine.registers.hcr_el2, 0x8000_0000);
    assert_eq!(machine.registers.sctlr_el2, 0x30C5_183F);
    assert_eq!(machine.trace, vec![op]);
}

#[test]
fn delays_and_barriers_change_only_the_trace() {
    let mut machine = busy_machine();
    let before = machine.registers;
    for op in [
        Operation::Nop,
        Operation::DataSynchronizationBarrier,
        Operation::InstructionSynchronizationBarrier,
        Operation::StoreBarrier,
        Operation::InvalidateTlb,
    ] {
        machine.perform(op);
    }
    assert_eq!(machine.registers, before);
    assert!(machine.tables.ttlb_lvl1.iter().all(|d| *d == 0));
    assert_eq!(machine.trace.len(), 5);
}

#[test]
fn disable_clears_translation_and_caches() {
    let mut machine = busy_machine();
    machine.run(&mut disable_mmu());
    assert_eq!(machine.registers.sctlr_el2, 0x30C5_083A);
    assert_eq!(machine.registers.mair_el2, 0x1122_3344_5566_7788);
    assert_eq!(machine.registers.ttbr0_el2, 0xFFFF_0000_0000_0000);
    assert_eq!(machine.registers.tcr_el2, 0x8000_0000);
    assert_eq!(machine.registers.hcr_el2, 0x8000_1001);
    assert!(machine.tables.ttlb_lvl0.iter().all(|d| *d == 0));
}

#[test]
fn disable_before_any_initialize() {
    let mut machine = Machine::new();
    machine.run(&mut disable_mmu());
    assert_eq!(
        machine.registers,
        Registers { sctlr_el2: 0, mair_el2: 0, ttbr0_el2: 0, tcr_el2: 0, hcr_el2: 0 }
    );
    assert_eq!(machine.trace.len(), 5);
}

#[test]
fn disable_twice_is_disable_once() {
    let mut once = busy_machine();
    once.run(&mut disable_mmu());
    let mut twice = busy_machine();
    twice.run(&mut disable_mmu());
    twice.run(&mut disable_mmu());
    assert_eq!(twice.registers, once.registers);
    assert_eq!(twice.tables.ttlb_lvl0, once.tables.ttlb_lvl0);
    assert_eq!(twice.tables.ttlb_lvl1, once.tables.ttlb_lvl1);
}

#[test]
fn initialize_programs_every_register() {
    let mut machine = busy_machine();
    machine.run(&mut initialize_mmu(0, ADDRESSES));
    assert_eq!(
        machine.registers,
        Registers {
            sctlr_el2: 0x30C5_0835,
            mair_el2: 0x1122_33FF_440C_0400,
            ttbr0_el2: 0xFFFF_0000_0008_0000,
            tcr_el2: 0x8010_3519,
            hcr_el2: 0x8000_0000,
        }
    );
}

#[test]
fn initialize_from_reset() {
    let mut machine = Machine::new();
    machine.run(&mut initialize_mmu(0, ADDRESSES));
    assert_eq!(
        machine.registers,
        Registers {
            sctlr_el2: 0x5,
            mair_el2: 0xFF_440C_0400,
            ttbr0_el2: 0x8_0000,
            tcr_el2: 0x10_3519,
            hcr_el2: 0,
        }
    );
    assert_eq!(machine.trace.len(), 15);
}

#[test]
fn designated_core_builds_the_tables() {
    let mut machine = Machine::new();
    machine.run(&mut initialize_mmu(0, ADDRESSES));
    assert_eq!(machine.tables.ttlb_lvl0[0], table_descriptor(0x8_1000));
    assert_eq!(machine.tables.ttlb_lvl0[1], table_descriptor(0x8_2000));
    assert_eq!(machine.tables.ttlb_lvl0[2], 0);
    for i in 0..513usize {
        assert_eq!(machine.tables.ttlb_lvl1[i], block_descriptor(i));
    }
}

#[test]
fn other_cores_leave_the_tables_alone() {
    let mut machine = Machine::new();
    machine.run(&mut initialize_mmu(1, ADDRESSES));
    assert!(machine.tables.ttlb_lvl0.iter().all(|d| *d == 0));
    assert!(machine.tables.ttlb_lvl1.iter().all(|d| *d == 0));
    assert_eq!(machine.registers.sctlr_el2, 0x5);
    assert_eq!(machine.trace.len(), 12);
}

#[test]
fn other_cores_share_the_tables_of_the_designated_core() {
    let mut machine = Machine::new();
    machine.run(&mut initialize_mmu(0, ADDRESSES));
    let level0 = machine.tables.ttlb_lvl0;
    let level1 = machine.tables.ttlb_lvl1;
    machine.run(&mut initialize_mmu(1, ADDRESSES));
    machine.run(&mut initialize_mmu(2, ADDRESSES));
    assert_eq!(machine.tables.ttlb_lvl0, level0);
    assert_eq!(machine.tables.ttlb_lvl1, level1);
}

#[test]
fn initialize_disable_initialize_keeps_the_tables() {
    let mut machine = Machine::new();
    machine.run(&mut initialize_mmu(0, ADDRESSES));
    let level0 = machine.tables.ttlb_lvl0;
    let level1 = machine.tables.ttlb_lvl1;
    let registers = machine.registers;
    machine.run(&mut disable_mmu());
    assert_eq!(machine.registers.sctlr_el2 & 1, 0);
    machine.run(&mut initialize_mmu(0, ADDRESSES));
    assert_eq!(machine.tables.ttlb_lvl0, level0);
    assert_eq!(machine.tables.ttlb_lvl1, level1);
    assert_eq!(machine.registers, registers);
}

#[test]
fn trace_holds_the_operations_in_order() {
    let mut machine = Machine::new();
    machine.run(&mut disable_mmu());
    let mut expected = Vec::new();
    let mut sequencer = disable_mmu();
    while let Some(op) = sequencer.step() {
        expected.push(op);
    }
    assert_eq!(machine.trace, expected);
    machine.run(&mut initialize_mmu(1, ADDRESSES));
    let mut sequencer = initialize_mmu(1, ADDRESSES);
    while let Some(op) = sequencer.step() {
        expected.push(op);
    }
    assert_eq!(machine.trace, expected);
}

#[test]
fn attributes_and_control_are_written_before_translation_is_on() {
    for core in [0u32, 1, 2, 3] {
        let mut machine = busy_machine();
        machine.run(&mut initialize_mmu(core, ADDRESSES));
        let mut mair_written = false;
        let mut tcr_written = false;
        let mut switched_on = 0;
        for op in machine.trace.iter() {
            if let Operation::WriteFields { register, fields } = op {
                match register {
                    Register::MairEl2 => mair_written = true,
                    Register::TcrEl2 => tcr_written = true,
                    Register::SctlrEl2 if fields.bits & 1 == 1 => {
                        assert!(mair_written);
                        assert!(tcr_written);
                        switched_on += 1;
                    }
                    _ => {}
                }
            }
        }
        assert_eq!(switched_on, 1);
    }
}

#[test]
fn a_run_takes_up_where_the_sequence_stands() {
    let mut machine = busy_machine();
    let mut sequencer = disable_mmu();
    assert!(sequencer.step().is_some());
    machine.run(&mut sequencer);
    assert_eq!(machine.registers.sctlr_el2, 0x30C5_183F);
    assert_eq!(machine.trace.len(), 4);
    assert_eq!(sequencer.step(), None);
}

#[test]
fn walk_leads_through_the_tables() {
    let mut machine = busy_machine();
    machine.run(&mut initialize_mmu(0, ADDRESSES));
    assert_eq!(machine.registers.ttbr0_el2 & 0xFFFF_FFFF_FFFF, ADDRESSES.level0);
    let first = machine.tables.ttlb_lvl0[0];
    let second = machine.tables.ttlb_lvl0[1];
    assert_eq!(kind(first), DescriptorKind::Table);
    assert_eq!(kind(second), DescriptorKind::Table);
    assert_eq!(table_address(first), ADDRESSES.level1_lower);
    assert_eq!(table_address(second), ADDRESSES.level1_upper);
    assert_eq!(ADDRESSES.level1_upper, ADDRESSES.level1_lower + 8 * 512);
    for i in 0..513usize {
        let d = machine.tables.ttlb_lvl1[i];
        assert_eq!(kind(d), DescriptorKind::Block);
        assert_eq!(block_address(d), i as u64 * BLOCK_SIZE);
    }
}

#[test]
fn blocks_get_their_profiles() {
    let mut machine = busy_machine();
    machine.run(&mut initialize_mmu(0, ADDRESSES));
    let mair = machine.registers.mair_el2;
    for i in 0..513usize {
        let index = attribute_index(machine.tables.ttlb_lvl1[i]);
        let encoding = (mair >> (8 * index)) & 0xFF;
        assert_eq!(encoding, if i < 504 { 0xFF } else { 0x00 });
    }
}
