use el2_mmu::mmu::{disable_mmu, initialize_mmu, Operation, Sequencer, TableAddresses, DESIGNATED_CORE};
use el2_mmu::registers::{FieldValue, Register};

const ADDRESSES: TableAddresses =
    TableAddresses { level0: 0x8_0000, level1_lower: 0x8_1000, level1_upper: 0x8_2000 };

fn operations(mut sequencer: Sequencer) -> Vec<Operation> {
    let mut all = Vec::new();
    while let Some(op) = sequencer.step() {
        all.push(op);
    }
    all
}

fn disable_operations() -> Vec<Operation> {
    vec![
        Operation::WriteFields {
            register: Register::SctlrEl2,
            fields: FieldValue { mask: 0x1005, bits: 0 },
        },
        Operation::Nop,
        Operation::Nop,
        Operation::DataSynchronizationBarrier,
        Operation::InstructionSynchronizationBarrier,
    ]
}

fn build_operations() -> Vec<Operation> {
    vec![
        Operation::BuildTables { level1_lower: 0x8_1000, level1_upper: 0x8_2000 },
        Operation::StoreBarrier,
        Operation::InvalidateTlb,
    ]
}

fn enable_operations() -> Vec<Operation> {
    vec![
        Operation::WriteFields {
            register: Register::MairEl2,
            fields: FieldValue { mask: 0xFF_FFFF_FFFF, bits: 0xFF_440C_0400 },
        },
        Operation::WriteFields {
            register: Register::Ttbr0El2,
            fields: FieldValue { mask: 0xFFFF_FFFF_FFFF, bits: 0x8_0000 },
        },
        Operation::WriteFields {
            register: Register::TcrEl2,
            fields: FieldValue { mask: 0x17_FF3F, bits: 0x10_3519 },
        },
        Operation::WriteFields {
            register: Register::HcrEl2,
            fields: FieldValue { mask: 0x1001, bits: 0 },
        },
        Operation::WriteFields {
            register: Register::SctlrEl2,
            fields: FieldValue { mask: 0x100F, bits: 0x5 },
        },
        Operation::Nop,
        Operation::Nop,
    ]
}

#[test]
fn designated_core_is_core_zero() {
    assert_eq!(DESIGNATED_CORE, 0);
}

#[test]
fn disable_sequence() {
    assert_eq!(operations(disable_mmu()), disable_operations());
}

#[test]
fn initialize_sequence_on_the_designated_core() {
    let mut expected = disable_operations();
    expected.extend(build_operations());
    expected.extend(enable_operations());
    assert_eq!(operations(initialize_mmu(0, ADDRESSES)), expected);
}

#[test]
fn initialize_sequence_on_another_core() {
    let mut expected = disable_operations();
    expected.extend(enable_operations());
    assert_eq!(operations(initialize_mmu(1, ADDRESSES)), expected);
    assert_eq!(operations(initialize_mmu(3, ADDRESSES)), expected);
    assert_eq!(operations(initialize_mmu(u32::MAX, ADDRESSES)), expected);
}

#[test]
fn only_the_designated_core_builds_the_tables() {
    for core in 0..4u32 {
        let builds = operations(initialize_mmu(core, ADDRESSES))
            .iter()
            .filter(|op| matches!(op, Operation::BuildTables { .. }))
            .count();
        assert_eq!(builds, if core == 0 { 1 } else { 0 });
    }
}

#[test]
fn a_finished_sequence_stays_finished() {
    let mut sequencer = disable_mmu();
    for _ in 0..5 {
        assert!(sequencer.step().is_some());
    }
    assert_eq!(sequencer.step(), None);
    assert_eq!(sequencer.step(), None);
}

#[test]
fn first_step_of_every_sequence_switches_translation_off() {
    let off = Some(Operation::WriteFields {
        register: Register::SctlrEl2,
        fields: FieldValue { mask: 0x1005, bits: 0 },
    });
    assert_eq!(disable_mmu().step(), off);
    assert_eq!(initialize_mmu(0, ADDRESSES).step(), off);
    assert_eq!(initialize_mmu(2, ADDRESSES).step(), off);
}

#[test]
fn table_base_follows_the_level0_address() {
    let addresses =
        TableAddresses { level0: 0x1234_5000, level1_lower: 0x1234_6000, level1_upper: 0x1234_7000 };
    let ops = operations(initialize_mmu(1, addresses));
    assert_eq!(
        ops[6],
        Operation::WriteFields {
            register: Register::Ttbr0El2,
            fields: FieldValue { mask: 0xFFFF_FFFF_FFFF, bits: 0x1234_5000 },
        }
    );
}

#[test]
fn translation_is_switched_on_after_the_configuration() {
    for core in [0u32, 1] {
        let ops = operations(initialize_mmu(core, ADDRESSES));
        let position = |register: Register| {
            ops.iter()
                .position(|op| matches!(op, Operation::WriteFields { register: r, .. } if *r == register))
                .unwrap()
        };
        let enable = ops
            .iter()
            .position(|op| {
                matches!(op, Operation::WriteFields { register: Register::SctlrEl2, fields }
                    if fields.bits & 1 == 1)
            })
            .unwrap();
        assert!(position(Register::MairEl2) < enable);
        assert!(position(Register::Ttbr0El2) < enable);
        assert!(position(Register::TcrEl2) < enable);
        assert!(position(Register::HcrEl2) < enable);
        assert_eq!(enable, ops.len() - 3);
        assert_eq!(position(Register::SctlrEl2), 0);
    }
}
