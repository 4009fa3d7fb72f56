use debugger::register::{Register, RegisterError, RegisterSnapshot};

const NAMES: [(&str, Register); 27] = [
    ("rax", Register::rax),
    ("rbx", Register::rbx),
    ("rcx", Register::rcx),
    ("rdx", Register::rdx),
    ("rdi", Register::rdi),
    ("rsi", Register::rsi),
    ("rbp", Register::rbp),
    ("rsp", Register::rsp),
    ("r8", Register::r8),
    ("r9", Register::r9),
    ("r10", Register::r10),
    ("r11", Register::r11),
    ("r12", Register::r12),
    ("r13", Register::r13),
    ("r14", Register::r14),
    ("r15", Register::r15),
    ("rip", Register::rip),
    ("rflags", Register::rflags),
    ("cs", Register::cs),
    ("orig_rax", Register::orig_rax),
    ("fs_base", Register::fs_base),
    ("gs_base", Register::gs_base),
    ("fs", Register::fs),
    ("gs", Register::gs),
    ("ss", Register::ss),
    ("ds", Register::ds),
    ("es", Register::es),
];

#[test]
fn every_register_is_found_by_its_name() {
    for (name, register) in NAMES {
        assert_eq!(Register::from_str(name), Ok(register));
        assert_eq!(register.name(), name);
    }
}

#[test]
fn all_lists_each_register_once() {
    let all = Register::all();
    assert_eq!(all.len(), 27);
    for (i, (_, register)) in NAMES.iter().enumerate() {
        assert_eq!(all[i], *register);
    }
    for i in 0..all.len() {
        for j in 0..i {
            assert_ne!(all[i], all[j]);
            assert_ne!(all[i].name(), all[j].name());
        }
    }
}

#[test]
fn names_are_matched_exactly() {
    for name in ["", "RAX", "Rax", "rax ", " rax", "ra", "raxx", "eflags", "r16", "r0", "fs-base", "notareg"] {
        assert_eq!(Register::from_str(name), Err(RegisterError::UnrecognizedName));
    }
}

#[test]
fn a_written_register_reads_back() {
    let mut snapshot = RegisterSnapshot::zeroed();
    snapshot.set(Register::rbx, 42);
    assert_eq!(snapshot.get(Register::rbx), 42);
    assert_eq!(snapshot.rbx, 42);
}

#[test]
fn every_written_register_reads_back_and_leaves_the_others() {
    for (i, written) in Register::all().into_iter().enumerate() {
        let mut snapshot = RegisterSnapshot::zeroed();
        for (k, register) in Register::all().into_iter().enumerate() {
            snapshot.set(register, 1000 + k as u64);
        }
        let before = snapshot;
        snapshot.set(written, u64::MAX - i as u64);
        for register in Register::all() {
            if register == written {
                assert_eq!(snapshot.get(register), u64::MAX - i as u64);
            } else {
                assert_eq!(snapshot.get(register), before.get(register));
            }
        }
    }
}

#[test]
fn zeroed_snapshot_reads_zero_everywhere() {
    let snapshot = RegisterSnapshot::zeroed();
    for register in Register::all() {
        assert_eq!(snapshot.get(register), 0);
    }
}

#[test]
fn rflags_reads_and_writes_the_eflags_field() {
    let mut snapshot = RegisterSnapshot::zeroed();
    snapshot.eflags = 0x246;
    assert_eq!(snapshot.get(Register::rflags), 0x246);
    snapshot.set(Register::rflags, 0x202);
    assert_eq!(snapshot.eflags, 0x202);
}

#[test]
fn each_register_reads_the_field_of_its_name() {
    let mut s = RegisterSnapshot::zeroed();
    s.r15 = 1;
    s.r14 = 2;
    s.r13 = 3;
    s.r12 = 4;
    s.rbp = 5;
    s.rbx = 6;
    s.r11 = 7;
    s.r10 = 8;
    s.r9 = 9;
    s.r8 = 10;
    s.rax = 11;
    s.rcx = 12;
    s.rdx = 13;
    s.rsi = 14;
    s.rdi = 15;
    s.orig_rax = 16;
    s.rip = 17;
    s.cs = 18;
    s.eflags = 19;
    s.rsp = 20;
    s.ss = 21;
    s.fs_base = 22;
    s.gs_base = 23;
    s.ds = 24;
    s.es = 25;
    s.fs = 26;
    s.gs = 27;
    let expected = [
        (Register::r15, 1),
        (Register::r14, 2),
        (Register::r13, 3),
        (Register::r12, 4),
        (Register::rbp, 5),
        (Register::rbx, 6),
        (Register::r11, 7),
        (Register::r10, 8),
        (Register::r9, 9),
        (Register::r8, 10),
        (Register::rax, 11),
        (Register::rcx, 12),
        (Register::rdx, 13),
        (Register::rsi, 14),
        (Register::rdi, 15),
        (Register::orig_rax, 16),
        (Register::rip, 17),
        (Register::cs, 18),
        (Register::rflags, 19),
        (Register::rsp, 20),
        (Register::ss, 21),
        (Register::fs_base, 22),
        (Register::gs_base, 23),
        (Register::ds, 24),
        (Register::es, 25),
        (Register::fs, 26),
        (Register::gs, 27),
    ];
    for (register, value) in expected {
        assert_eq!(s.get(register), value);
    }
}
