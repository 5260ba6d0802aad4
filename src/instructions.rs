use vstd::prelude::*;

verus! {

/// Assembly mnemonics of the first opcodes, for tracing execution.
pub struct InstructionMap {
    assembly_map: Vec<(u8, &'static str)>,
}

impl InstructionMap {
    /// The opcodes that the map knows, in order.
    pub closed spec fn keys(&self) -> Seq<u8> {
        self.assembly_map@.map_values(|e: (u8, &'static str)| e.0)
    }

    /// The mnemonic listed for `op`, if any.
    pub closed spec fn name_of(&self, op: u8) -> Option<Seq<char>> {
        if exists|i: int| 0 <= i < self.assembly_map@.len() && self.assembly_map@[i].0 == op {
            let i = choose|i: int| 0 <= i < self.assembly_map@.len() && self.assembly_map@[i].0 == op;
            Some(self.assembly_map@[i].1@)
        } else {
            None
        }
    }

    /// No opcode is listed twice.
    pub closed spec fn wf(&self) -> bool {
        forall|i: int, j: int|
            0 <= i < j < self.assembly_map@.len() ==> self.assembly_map@[i].0 != self.assembly_map@[j].0
    }

    pub fn new() -> (r: InstructionMap)
        ensures
            r.wf(),
            r.keys() == seq![0x00u8, 0x01, 0x02, 0x03, 0x04],
            r.name_of(0x00) == Some("NOP"@),
            r.name_of(0x01) == Some("LD BC, u16"@),
            r.name_of(0x02) == Some("LD (BC), A"@),
            r.name_of(0x03) == Some("inC BC"@),
            r.name_of(0x04) == Some("INC B"@),
            forall|op: u8| op > 0x04 ==> #[trigger] r.name_of(op) is None,
    {
        let mut m: Vec<(u8, &'static str)> = Vec::new();
        m.push((0x00, "NOP"));
        m.push((0x01, "LD BC, u16"));
        m.push((0x02, "LD (BC), A"));
        m.push((0x03, "inC BC"));
        m.push((0x04, "INC B"));
        let r = InstructionMap { assembly_map: m };
        proof {
            assert(r.keys() =~= seq![0x00u8, 0x01, 0x02, 0x03, 0x04]);
            assert(r.assembly_map@[0].0 == 0x00);
            assert(r.assembly_map@[1].0 == 0x01);
            assert(r.assembly_map@[2].0 == 0x02);
            assert(r.assembly_map@[3].0 == 0x03);
            assert(r.assembly_map@[4].0 == 0x04);
        }
        r
    }

    /// The mnemonic listed for `op`, if any.
    pub fn get(&self, op: u8) -> (r: Option<&'static str>)
        requires
            self.wf(),
        ensures
            r matches Some(s) ==> self.name_of(op) == Some(s@),
            r is None ==> self.name_of(op) is None,
    {
        let mut i: usize = 0;
        while i < self.assembly_map.len()
            invariant
                self.wf(),
                i <= self.assembly_map@.len(),
                forall|j: int| 0 <= j < i ==> self.assembly_map@[j].0 != op,
            decreases self.assembly_map.len() - i,
        {
            if self.assembly_map[i].0 == op {
                let name = self.assembly_map[i].1;
                proof {
                    assert(0 <= i < self.assembly_map@.len() && self.assembly_map@[i as int].0 == op);
                    let k = choose|k: int|
                        0 <= k < self.assembly_map@.len() && self.assembly_map@[k].0 == op;
                    assert(k == i as int);
                }
                return Some(name);
            }
            i = i + 1;
        }
        None
    }
}

/// Instruction families of the processor, by mnemonic.
pub enum Instructions {
    ADD { op1: Operand, op2: Operand },
    ADC,
    SUB,
    SUBC,
    DEC { op: Operand },
    INC { op: Operand },
    OR,
    XOR,
    CP { op: Operand },
    LD { op1: Operand, op2: Operand },
}

/// The kinds of operand an instruction takes.
#[allow(non_camel_case_types)]
pub enum Operand {
    OP8,
    OP16,
    n8,
    n16,
}

/// The 8-bit registers that an instruction can name.
#[derive(Clone, Copy, PartialEq, Eq, Structural, Debug)]
pub enum OP8 {
    A,
    B,
    C,
    D,
    E,
    H,
    L,
}

/// The 16-bit registers and register pairs that an instruction can name.
#[derive(Clone, Copy, PartialEq, Eq, Structural, Debug)]
pub enum OP16 {
    BC,
    DE,
    HL,
    SP,
    PC,
}

} // verus!
