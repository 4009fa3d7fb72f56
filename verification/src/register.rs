use crate::text::text_eq;
use vstd::prelude::*;

verus! {

/// One symbolic name for each CPU register that the debugger can address:
/// the general-purpose registers, the instruction pointer, the flags, the
/// segment selectors and bases, and the slot that keeps the number of the
/// system call being made.
#[allow(non_camel_case_types)]
#[derive(Clone, Copy, Debug, PartialEq, Eq, Structural)]
pub enum Register {
    rax,
    rbx,
    rcx,
    rdx,
    rdi,
    rsi,
    rbp,
    rsp,
    r8,
    r9,
    r10,
    r11,
    r12,
    r13,
    r14,
    r15,
    rip,
    rflags,
    cs,
    orig_rax,
    fs_base,
    gs_base,
    fs,
    gs,
    ss,
    ds,
    es,
}

/// The saved register state of a stopped process, field for field as the
/// operating system hands it out in one call.
#[derive(Clone, Copy, Debug, PartialEq, Eq, Structural)]
pub struct RegisterSnapshot {
    pub r15: u64,
    pub r14: u64,
    pub r13: u64,
    pub r12: u64,
    pub rbp: u64,
    pub rbx: u64,
    pub r11: u64,
    pub r10: u64,
    pub r9: u64,
    pub r8: u64,
    pub rax: u64,
    pub rcx: u64,
    pub rdx: u64,
    pub rsi: u64,
    pub rdi: u64,
    pub orig_rax: u64,
    pub rip: u64,
    pub cs: u64,
    pub eflags: u64,
    pub rsp: u64,
    pub ss: u64,
    pub fs_base: u64,
    pub gs_base: u64,
    pub ds: u64,
    pub es: u64,
    pub fs: u64,
    pub gs: u64,
}

impl RegisterSnapshot {
    /// The value that this snapshot holds for `register`. The flags register
    /// goes by the name `rflags`; the snapshot keeps it in `eflags`.
    pub open spec fn value(self, register: Register) -> u64 {
        match register {
            Register::rax => self.rax,
            Register::rbx => self.rbx,
            Register::rcx => self.rcx,
            Register::rdx => self.rdx,
            Register::rdi => self.rdi,
            Register::rsi => self.rsi,
            Register::rbp => self.rbp,
            Register::rsp => self.rsp,
            Register::r8 => self.r8,
            Register::r9 => self.r9,
            Register::r10 => self.r10,
            Register::r11 => self.r11,
            Register::r12 => self.r12,
            Register::r13 => self.r13,
            Register::r14 => self.r14,
            Register::r15 => self.r15,
            Register::rip => self.rip,
            Register::rflags => self.eflags,
            Register::cs => self.cs,
            Register::orig_rax => self.orig_rax,
            Register::fs_base => self.fs_base,
            Register::gs_base => self.gs_base,
            Register::fs => self.fs,
            Register::gs => self.gs,
            Register::ss => self.ss,
            Register::ds => self.ds,
            Register::es => self.es,
        }
    }

    /// This snapshot with `register` holding `value` and every other register
    /// as before.
    pub open spec fn with(self, register: Register, value: u64) -> RegisterSnapshot {
        match register {
            Register::rax => RegisterSnapshot { rax: value, ..self },
            Register::rbx => RegisterSnapshot { rbx: value, ..self },
            Register::rcx => RegisterSnapshot { rcx: value, ..self },
            Register::rdx => RegisterSnapshot { rdx: value, ..self },
            Register::rdi => RegisterSnapshot { rdi: value, ..self },
            Register::rsi => RegisterSnapshot { rsi: value, ..self },
            Register::rbp => RegisterSnapshot { rbp: value, ..self },
            Register::rsp => RegisterSnapshot { rsp: value, ..self },
            Register::r8 => RegisterSnapshot { r8: value, ..self },
            Register::r9 => RegisterSnapshot { r9: value, ..self },
            Register::r10 => RegisterSnapshot { r10: value, ..self },
            Register::r11 => RegisterSnapshot { r11: value, ..self },
            Register::r12 => RegisterSnapshot { r12: value, ..self },
            Register::r13 => RegisterSnapshot { r13: value, ..self },
            Register::r14 => RegisterSnapshot { r14: value, ..self },
            Register::r15 => RegisterSnapshot { r15: value, ..self },
            Register::rip => RegisterSnapshot { rip: value, ..self },
            Register::rflags => RegisterSnapshot { eflags: value, ..self },
            Register::cs => RegisterSnapshot { cs: value, ..self },
            Register::orig_rax => RegisterSnapshot { orig_rax: value, ..self },
            Register::fs_base => RegisterSnapshot { fs_base: value, ..self },
            Register::gs_base => RegisterSnapshot { gs_base: value, ..self },
            Register::fs => RegisterSnapshot { fs: value, ..self },
            Register::gs => RegisterSnapshot { gs: value, ..self },
            Register::ss => RegisterSnapshot { ss: value, ..self },
            Register::ds => RegisterSnapshot { ds: value, ..self },
            Register::es => RegisterSnapshot { es: value, ..self },
        }
    }

    /// A snapshot in which every register is zero.
    pub fn zeroed() -> (snapshot: RegisterSnapshot)
        ensures
            forall|register: Register| snapshot.value(register) == 0,
    {
        RegisterSnapshot {
            r15: 0,
            r14: 0,
            r13: 0,
            r12: 0,
            rbp: 0,
            rbx: 0,
            r11: 0,
            r10: 0,
            r9: 0,
            r8: 0,
            rax: 0,
            rcx: 0,
            rdx: 0,
            rsi: 0,
            rdi: 0,
            orig_rax: 0,
            rip: 0,
            cs: 0,
            eflags: 0,
            rsp: 0,
            ss: 0,
            fs_base: 0,
            gs_base: 0,
            ds: 0,
            es: 0,
            fs: 0,
            gs: 0,
        }
    }

    /// Reads one register out of the snapshot.
    pub fn get(&self, register: Register) -> (value: u64)
        ensures
            value == self.value(register),
    {
        match register {
            Register::rax => self.rax,
            Register::rbx => self.rbx,
            Register::rcx => self.rcx,
            Register::rdx => self.rdx,
            Register::rdi => self.rdi,
            Register::rsi => self.rsi,
            Register::rbp => self.rbp,
            Register::rsp => self.rsp,
            Register::r8 => self.r8,
            Register::r9 => self.r9,
            Register::r10 => self.r10,
            Register::r11 => self.r11,
            Register::r12 => self.r12,
            Register::r13 => self.r13,
            Register::r14 => self.r14,
            Register::r15 => self.r15,
            Register::rip => self.rip,
            Register::rflags => self.eflags,
            Register::cs => self.cs,
            Register::orig_rax => self.orig_rax,
            Register::fs_base => self.fs_base,
            Register::gs_base => self.gs_base,
            Register::fs => self.fs,
            Register::gs => self.gs,
            Register::ss => self.ss,
            Register::ds => self.ds,
            Register::es => self.es,
        }
    }

    /// Overwrites one register in the snapshot and leaves the others alone.
    pub fn set(&mut self, register: Register, value: u64)
        ensures
            *final(self) == old(self).with(register, value),
            final(self).value(register) == value,
            forall|other: Register|
                other != register ==> final(self).value(other) == old(self).value(other),
    {
        match register {
            Register::rax => self.rax = value,
            Register::rbx => self.rbx = value,
            Register::rcx => self.rcx = value,
            Register::rdx => self.rdx = value,
            Register::rdi => self.rdi = value,
            Register::rsi => self.rsi = value,
            Register::rbp => self.rbp = value,
            Register::rsp => self.rsp = value,
            Register::r8 => self.r8 = value,
            Register::r9 => self.r9 = value,
            Register::r10 => self.r10 = value,
            Register::r11 => self.r11 = value,
            Register::r12 => self.r12 = value,
            Register::r13 => self.r13 = value,
            Register::r14 => self.r14 = value,
            Register::r15 => self.r15 = value,
            Register::rip => self.rip = value,
            Register::rflags => self.eflags = value,
            Register::cs => self.cs = value,
            Register::orig_rax => self.orig_rax = value,
            Register::fs_base => self.fs_base = value,
            Register::gs_base => self.gs_base = value,
            Register::fs => self.fs = value,
            Register::gs => self.gs = value,
            Register::ss => self.ss = value,
            Register::ds => self.ds = value,
            Register::es => self.es = value,
        }
    }
}

/// A register that was written reads back as the value written.
pub proof fn lemma_write_then_read(snapshot: RegisterSnapshot, register: Register, value: u64)
    ensures
        snapshot.with(register, value).value(register) == value,
{
}

/// Writing one register changes no other register.
pub proof fn lemma_write_keeps_others(
    snapshot: RegisterSnapshot,
    written: Register,
    value: u64,
    other: Register,
)
    requires
        other != written,
    ensures
        snapshot.with(written, value).value(other) == snapshot.value(other),
{
}

/// Two snapshots that agree on every register are the same snapshot: the
/// register names cover the whole of the saved state.
pub proof fn lemma_registers_cover_snapshot(a: RegisterSnapshot, b: RegisterSnapshot)
    requires
        forall|register: Register| a.value(register) == b.value(register),
    ensures
        a == b,
{
    assert(a.value(Register::rax) == b.value(Register::rax));
    assert(a.value(Register::rbx) == b.value(Register::rbx));
    assert(a.value(Register::rcx) == b.value(Register::rcx));
    assert(a.value(Register::rdx) == b.value(Register::rdx));
    assert(a.value(Register::rdi) == b.value(Register::rdi));
    assert(a.value(Register::rsi) == b.value(Register::rsi));
    assert(a.value(Register::rbp) == b.value(Register::rbp));
    assert(a.value(Register::rsp) == b.value(Register::rsp));
    assert(a.value(Register::r8) == b.value(Register::r8));
    assert(a.value(Register::r9) == b.value(Register::r9));
    assert(a.value(Register::r10) == b.value(Register::r10));
    assert(a.value(Register::r11) == b.value(Register::r11));
    assert(a.value(Register::r12) == b.value(Register::r12));
    assert(a.value(Register::r13) == b.value(Register::r13));
    assert(a.value(Register::r14) == b.value(Register::r14));
    assert(a.value(Register::r15) == b.value(Register::r15));
    assert(a.value(Register::rip) == b.value(Register::rip));
    assert(a.value(Register::rflags) == b.value(Register::rflags));
    assert(a.value(Register::cs) == b.value(Register::cs));
    assert(a.value(Register::orig_rax) == b.value(Register::orig_rax));
    assert(a.value(Register::fs_base) == b.value(Register::fs_base));
    assert(a.value(Register::gs_base) == b.value(Register::gs_base));
    assert(a.value(Register::fs) == b.value(Register::fs));
    assert(a.value(Register::gs) == b.value(Register::gs));
    assert(a.value(Register::ss) == b.value(Register::ss));
    assert(a.value(Register::ds) == b.value(Register::ds));
    assert(a.value(Register::es) == b.value(Register::es));
}

/// The name `rflags` reads the field that the operating system calls `eflags`.
pub proof fn lemma_rflags_is_eflags(snapshot: RegisterSnapshot)
    ensures
        snapshot.value(Register::rflags) == snapshot.eflags,
{
}

/// Why a register could not be named, read or written.
#[derive(Clone, Copy, Debug, PartialEq, Eq, Structural)]
pub enum RegisterError {
    /// No register goes by the name that was given.
    UnrecognizedName,
    /// The saved state of the process could not be fetched or stored; the
    /// number is the error code that the operating system gave.
    ProcessStateUnavailable(i32),
}

impl Register {
    /// The name by which an operator addresses this register.
    pub open spec fn spec_name(self) -> Seq<char> {
        match self {
            Register::rax => "rax"@,
            Register::rbx => "rbx"@,
            Register::rcx => "rcx"@,
            Register::rdx => "rdx"@,
            Register::rdi => "rdi"@,
            Register::rsi => "rsi"@,
            Register::rbp => "rbp"@,
            Register::rsp => "rsp"@,
            Register::r8 => "r8"@,
            Register::r9 => "r9"@,
            Register::r10 => "r10"@,
            Register::r11 => "r11"@,
            Register::r12 => "r12"@,
            Register::r13 => "r13"@,
            Register::r14 => "r14"@,
            Register::r15 => "r15"@,
            Register::rip => "rip"@,
            Register::rflags => "rflags"@,
            Register::cs => "cs"@,
            Register::orig_rax => "orig_rax"@,
            Register::fs_base => "fs_base"@,
            Register::gs_base => "gs_base"@,
            Register::fs => "fs"@,
            Register::gs => "gs"@,
            Register::ss => "ss"@,
            Register::ds => "ds"@,
            Register::es => "es"@,
        }
    }

    /// The register that goes by exactly this name, upper and lower case
    /// told apart, if there is one.
    pub open spec fn named(name: Seq<char>) -> Option<Register> {
        if exists|register: Register| register.spec_name() == name {
            Some(choose|register: Register| register.spec_name() == name)
        } else {
            None
        }
    }

    /// The name by which an operator addresses this register.
    pub fn name(&self) -> (name: &'static str)
        ensures
            name@ == self.spec_name(),
    {
        match self {
            Register::rax => "rax",
            Register::rbx => "rbx",
            Register::rcx => "rcx",
            Register::rdx => "rdx",
            Register::rdi => "rdi",
            Register::rsi => "rsi",
            Register::rbp => "rbp",
            Register::rsp => "rsp",
            Register::r8 => "r8",
            Register::r9 => "r9",
            Register::r10 => "r10",
            Register::r11 => "r11",
            Register::r12 => "r12",
            Register::r13 => "r13",
            Register::r14 => "r14",
            Register::r15 => "r15",
            Register::rip => "rip",
            Register::rflags => "rflags",
            Register::cs => "cs",
            Register::orig_rax => "orig_rax",
            Register::fs_base => "fs_base",
            Register::gs_base => "gs_base",
            Register::fs => "fs",
            Register::gs => "gs",
            Register::ss => "ss",
            Register::ds => "ds",
            Register::es => "es",
        }
    }

    /// Resolves a name to its register. The match is exact: no other case,
    /// no surrounding blanks, no abbreviation.
    pub fn from_str(name: &str) -> (found: Result<Register, RegisterError>)
        ensures
            found == match Register::named(name@) {
                Some(register) => Ok::<Register, RegisterError>(register),
                None => Err(RegisterError::UnrecognizedName),
            },
    {
        let all = Register::all();
        let mut i: usize = 0;
        while i < all.len()
            invariant
                all@ == Register::every(),
                i <= all.len(),
                forall|k: int| 0 <= k < i ==> all@[k].spec_name() != name@,
            decreases all.len() - i,
        {
            let register = all[i];
            if text_eq(name, register.name()) {
                proof {
                    lemma_names_differ_from(register);
                }
                return Ok(register);
            }
            i += 1;
        }
        proof {
            assert forall|register: Register| register.spec_name() != name@ by {
                lemma_every_holds(register);
            }
        }
        Err(RegisterError::UnrecognizedName)
    }

    /// Every register, once, in the order of their declaration.
    pub open spec fn every() -> Seq<Register> {
        seq![
            Register::rax,
            Register::rbx,
            Register::rcx,
            Register::rdx,
            Register::rdi,
            Register::rsi,
            Register::rbp,
            Register::rsp,
            Register::r8,
            Register::r9,
            Register::r10,
            Register::r11,
            Register::r12,
            Register::r13,
            Register::r14,
            Register::r15,
            Register::rip,
            Register::rflags,
            Register::cs,
            Register::orig_rax,
            Register::fs_base,
            Register::gs_base,
            Register::fs,
            Register::gs,
            Register::ss,
            Register::ds,
            Register::es,
        ]
    }

    /// Every register, once, in the order of their declaration.
    pub fn all() -> (all: Vec<Register>)
        ensures
            all@ == Register::every(),
    {
        let all = vec![
            Register::rax,
            Register::rbx,
            Register::rcx,
            Register::rdx,
            Register::rdi,
            Register::rsi,
            Register::rbp,
            Register::rsp,
            Register::r8,
            Register::r9,
            Register::r10,
            Register::r11,
            Register::r12,
            Register::r13,
            Register::r14,
            Register::r15,
            Register::rip,
            Register::rflags,
            Register::cs,
            Register::orig_rax,
            Register::fs_base,
            Register::gs_base,
            Register::fs,
            Register::gs,
            Register::ss,
            Register::ds,
            Register::es,
        ];
        assert(all@ =~= Register::every());
        all
    }
}

/// Each register stands in the list of all of them.
pub proof fn lemma_every_holds(register: Register)
    ensures
        Register::every().contains(register),
{
    let every = Register::every();
    assert(every[0] == Register::rax);
    assert(every[1] == Register::rbx);
    assert(every[2] == Register::rcx);
    assert(every[3] == Register::rdx);
    assert(every[4] == Register::rdi);
    assert(every[5] == Register::rsi);
    assert(every[6] == Register::rbp);
    assert(every[7] == Register::rsp);
    assert(every[8] == Register::r8);
    assert(every[9] == Register::r9);
    assert(every[10] == Register::r10);
    assert(every[11] == Register::r11);
    assert(every[12] == Register::r12);
    assert(every[13] == Register::r13);
    assert(every[14] == Register::r14);
    assert(every[15] == Register::r15);
    assert(every[16] == Register::rip);
    assert(every[17] == Register::rflags);
    assert(every[18] == Register::cs);
    assert(every[19] == Register::orig_rax);
    assert(every[20] == Register::fs_base);
    assert(every[21] == Register::gs_base);
    assert(every[22] == Register::fs);
    assert(every[23] == Register::gs);
    assert(every[24] == Register::ss);
    assert(every[25] == Register::ds);
    assert(every[26] == Register::es);
}

/// No two registers share a name: a register is the only one that goes by
/// its name.
pub proof fn lemma_names_differ_from(register: Register)
    ensures
        forall|other: Register| other.spec_name() == register.spec_name() ==> other == register,
        Register::named(register.spec_name()) == Some(register),
{
    reveal_strlit("rax");
    reveal_strlit("rbx");
    reveal_strlit("rcx");
    reveal_strlit("rdx");
    reveal_strlit("rdi");
    reveal_strlit("rsi");
    reveal_strlit("rbp");
    reveal_strlit("rsp");
    reveal_strlit("r8");
    reveal_strlit("r9");
    reveal_strlit("r10");
    reveal_strlit("r11");
    reveal_strlit("r12");
    reveal_strlit("r13");
    reveal_strlit("r14");
    reveal_strlit("r15");
    reveal_strlit("rip");
    reveal_strlit("rflags");
    reveal_strlit("cs");
    reveal_strlit("orig_rax");
    reveal_strlit("fs_base");
    reveal_strlit("gs_base");
    reveal_strlit("fs");
    reveal_strlit("gs");
    reveal_strlit("ss");
    reveal_strlit("ds");
    reveal_strlit("es");
    assert forall|other: Register|
        other.spec_name() == register.spec_name() implies other == register by {
        if other != register {
            assert(other.spec_name().len() != register.spec_name().len()
                || other.spec_name()[0] != register.spec_name()[0]
                || other.spec_name()[1] != register.spec_name()[1]
                || other.spec_name()[2] != register.spec_name()[2]
                || other.spec_name()[3] != register.spec_name()[3]);
        }
    }
}

} // verus!
