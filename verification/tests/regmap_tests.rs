use iris_gdb::regmap::{slot_for_name, Register};

#[test]
fn all_seventeen_names_map_to_their_slots() {
    let table: [(&str, usize); 17] = [
        ("R0", 0),
        ("R1", 1),
        ("R2", 2),
        ("R3", 3),
        ("R4", 4),
        ("R5", 5),
        ("R6", 6),
        ("R7", 7),
        ("R8", 8),
        ("R9", 9),
        ("R10", 10),
        ("R11", 11),
        ("R12", 12),
        ("R13", 13),
        ("R14", 14),
        ("R15", 15),
        ("XPSR", 25),
    ];
    for (name, slot) in table {
        assert_eq!(slot_for_name(name), Some(slot), "{name}");
    }
}

#[test]
fn unrecognized_names_are_unmapped() {
    for name in ["FPSCR", "", "r0", "PC", "SP", "R16", "R0 ", "CPSR"] {
        assert_eq!(slot_for_name(name), None, "{name}");
    }
}

#[test]
fn raw_ids_0_to_15_and_25_name_registers() {
    let expected = [
        Register::R0,
        Register::R1,
        Register::R2,
        Register::R3,
        Register::R4,
        Register::R5,
        Register::R6,
        Register::R7,
        Register::R8,
        Register::R9,
        Register::R10,
        Register::R11,
        Register::R12,
        Register::SP,
        Register::LR,
        Register::PC,
    ];
    for (id, reg) in expected.into_iter().enumerate() {
        assert_eq!(Register::from_raw_id(id), Some((reg, 0)));
    }
    assert_eq!(Register::from_raw_id(25), Some((Register::XPSR, 0)));
}

#[test]
fn other_raw_ids_name_no_register() {
    for id in (16..25).chain([26, 100, usize::MAX]) {
        assert_eq!(Register::from_raw_id(id), None, "{id}");
    }
}
