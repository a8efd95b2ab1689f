//! The instruction set: a 16-bit opcode is classified into one tagged
//! variant, from which both the execution step and the disassembler are
//! derived, so the two cannot diverge.

use vstd::prelude::*;
use vstd::string::StringExecFns;

verus! {

/// One decoded instruction. Operand fields are taken from the opcode:
/// `x` and `y` are 4-bit register indices, `n` a 4-bit immediate,
/// `kk` an 8-bit immediate, and `addr` a 12-bit address.
#[derive(Clone, Copy, Debug, PartialEq, Eq, Structural)]
pub enum Instr {
    /// `0nnn`: legacy machine-code escape; executes as a plain advance.
    Sys,
    /// `00E0`: clear the screen.
    Cls,
    /// `00EE`: return from a subroutine.
    Ret,
    /// `1nnn`: jump to `addr`.
    Jump { addr: u16 },
    /// `2nnn`: call the subroutine at `addr`.
    Call { addr: u16 },
    /// `3xkk`: skip the next instruction if `Vx == kk`.
    SkipEqByte { x: u8, kk: u8 },
    /// `4xkk`: skip the next instruction if `Vx != kk`.
    SkipNeByte { x: u8, kk: u8 },
    /// `5xy0`: skip the next instruction if `Vx == Vy`.
    SkipEqReg { x: u8, y: u8 },
    /// `6xkk`: `Vx = kk`.
    LoadByte { x: u8, kk: u8 },
    /// `7xkk`: `Vx = Vx + kk`, wrapping, no flag.
    AddByte { x: u8, kk: u8 },
    /// `8xy0`: `Vx = Vy`.
    LoadReg { x: u8, y: u8 },
    /// `8xy1`: `Vx = Vx | Vy`.
    OrReg { x: u8, y: u8 },
    /// `8xy2`: `Vx = Vx & Vy`.
    AndReg { x: u8, y: u8 },
    /// `8xy3`: `Vx = Vx ^ Vy`.
    XorReg { x: u8, y: u8 },
    /// `8xy4`: `Vx = Vx + Vy` with `VF` as the carry flag.
    AddReg { x: u8, y: u8 },
    /// `8xy5`: `Vx = Vx - Vy` with `VF` as the no-borrow flag.
    SubReg { x: u8, y: u8 },
    /// `8xy6`: `Vx = Vx >> 1` with `VF` holding the shifted-out low bit.
    ShiftRight { x: u8, y: u8 },
    /// `8xy7`: `Vx = Vy - Vx` with `VF` as the no-borrow flag.
    SubnReg { x: u8, y: u8 },
    /// `8xyE`: `Vx = Vx << 1` with `VF` holding the shifted-out high bit.
    ShiftLeft { x: u8, y: u8 },
    /// `9xy0`: skip the next instruction if `Vx != Vy`.
    SkipNeReg { x: u8, y: u8 },
    /// `Annn`: `I = addr`.
    LoadIndex { addr: u16 },
    /// `Bnnn`: jump to `V0 + addr`.
    JumpV0 { addr: u16 },
    /// `Cxkk`: `Vx = random byte & kk`.
    Random { x: u8, kk: u8 },
    /// `Dxyn`: XOR-blit an `n`-row sprite from memory at `I` onto the
    /// screen at `(Vx, Vy)`, with `VF` as the collision flag.
    Draw { x: u8, y: u8, n: u8 },
    /// `Ex9E`: skip the next instruction if key `Vx` is pressed.
    SkipKey { x: u8 },
    /// `ExA1`: skip the next instruction if key `Vx` is not pressed.
    SkipNoKey { x: u8 },
    /// `Fx07`: `Vx = delay timer`.
    LoadDelay { x: u8 },
    /// `Fx0A`: wait for a key press and store the key in `Vx`.
    WaitKey { x: u8 },
    /// `Fx15`: `delay timer = Vx`.
    SetDelay { x: u8 },
    /// `Fx18`: `sound timer = Vx`.
    SetSound { x: u8 },
    /// `Fx1E`: `I = I + Vx`.
    AddIndex { x: u8 },
    /// `Fx29`: `I = 5 * Vx`, the glyph of the hexadecimal digit `Vx`.
    LoadGlyph { x: u8 },
    /// `Fx33`: write the decimal digits of `Vx` to memory at `I`.
    StoreBcd { x: u8 },
    /// `Fx55`: write `V0..Vx` to memory starting at `I`.
    StoreRegs { x: u8 },
    /// `Fx65`: read `V0..Vx` from memory starting at `I`.
    LoadRegs { x: u8 },
    /// A bit pattern of a matched group that no recognized sub-case
    /// covers; executing or disassembling it is a fatal error.
    Unknown,
}

/// The `x` register operand: bits 8-11 of the opcode.
pub open spec fn op_x(op: u16) -> u8 {
    ((op / 0x100) % 0x10) as u8
}

/// The `y` register operand: bits 4-7 of the opcode.
pub open spec fn op_y(op: u16) -> u8 {
    ((op / 0x10) % 0x10) as u8
}

/// The 4-bit immediate: bits 0-3 of the opcode.
pub open spec fn op_n(op: u16) -> u8 {
    (op % 0x10) as u8
}

/// The 8-bit immediate: bits 0-7 of the opcode.
pub open spec fn op_kk(op: u16) -> u8 {
    (op % 0x100) as u8
}

/// The 12-bit address: bits 0-11 of the opcode.
pub open spec fn op_addr(op: u16) -> u16 {
    op % 0x1000
}

/// The canonical classification of the 16-bit opcode space: the top
/// nibble selects a primary group, and several groups dispatch further
/// on the low nibble or low byte. In group 0 only the exact encodings
/// 0x00E0 and 0x00EE are clear-screen and return; every other group-0
/// pattern is the benign machine-code escape. The skip groups 5 and 9
/// recognize only their zero sub-case.
pub open spec fn decode_op(op: u16) -> Instr {
    let group = op / 0x1000;
    if group == 0x0 {
        if op == 0x00E0 {
            Instr::Cls
        } else if op == 0x00EE {
            Instr::Ret
        } else {
            Instr::Sys
        }
    } else if group == 0x1 {
        Instr::Jump { addr: op_addr(op) }
    } else if group == 0x2 {
        Instr::Call { addr: op_addr(op) }
    } else if group == 0x3 {
        Instr::SkipEqByte { x: op_x(op), kk: op_kk(op) }
    } else if group == 0x4 {
        Instr::SkipNeByte { x: op_x(op), kk: op_kk(op) }
    } else if group == 0x5 {
        if op % 0x10 == 0x0 {
            Instr::SkipEqReg { x: op_x(op), y: op_y(op) }
        } else {
            Instr::Unknown
        }
    } else if group == 0x6 {
        Instr::LoadByte { x: op_x(op), kk: op_kk(op) }
    } else if group == 0x7 {
        Instr::AddByte { x: op_x(op), kk: op_kk(op) }
    } else if group == 0x8 {
        let sub = op % 0x10;
        if sub == 0x0 {
            Instr::LoadReg { x: op_x(op), y: op_y(op) }
        } else if sub == 0x1 {
            Instr::OrReg { x: op_x(op), y: op_y(op) }
        } else if sub == 0x2 {
            Instr::AndReg { x: op_x(op), y: op_y(op) }
        } else if sub == 0x3 {
            Instr::XorReg { x: op_x(op), y: op_y(op) }
        } else if sub == 0x4 {
            Instr::AddReg { x: op_x(op), y: op_y(op) }
        } else if sub == 0x5 {
            Instr::SubReg { x: op_x(op), y: op_y(op) }
        } else if sub == 0x6 {
            Instr::ShiftRight { x: op_x(op), y: op_y(op) }
        } else if sub == 0x7 {
            Instr::SubnReg { x: op_x(op), y: op_y(op) }
        } else if sub == 0xE {
            Instr::ShiftLeft { x: op_x(op), y: op_y(op) }
        } else {
            Instr::Unknown
        }
    } else if group == 0x9 {
        if op % 0x10 == 0x0 {
            Instr::SkipNeReg { x: op_x(op), y: op_y(op) }
        } else {
            Instr::Unknown
        }
    } else if group == 0xA {
        Instr::LoadIndex { addr: op_addr(op) }
    } else if group == 0xB {
        Instr::JumpV0 { addr: op_addr(op) }
    } else if group == 0xC {
        Instr::Random { x: op_x(op), kk: op_kk(op) }
    } else if group == 0xD {
        Instr::Draw { x: op_x(op), y: op_y(op), n: op_n(op) }
    } else if group == 0xE {
        let sub = op % 0x10;
        if sub == 0xE {
            Instr::SkipKey { x: op_x(op) }
        } else if sub == 0x1 {
            Instr::SkipNoKey { x: op_x(op) }
        } else {
            Instr::Unknown
        }
    } else if group == 0xF {
        let sub = op % 0x100;
        if sub == 0x07 {
            Instr::LoadDelay { x: op_x(op) }
        } else if sub == 0x0A {
            Instr::WaitKey { x: op_x(op) }
        } else if sub == 0x15 {
            Instr::SetDelay { x: op_x(op) }
        } else if sub == 0x18 {
            Instr::SetSound { x: op_x(op) }
        } else if sub == 0x1E {
            Instr::AddIndex { x: op_x(op) }
        } else if sub == 0x29 {
            Instr::LoadGlyph { x: op_x(op) }
        } else if sub == 0x33 {
            Instr::StoreBcd { x: op_x(op) }
        } else if sub == 0x55 {
            Instr::StoreRegs { x: op_x(op) }
        } else if sub == 0x65 {
            Instr::LoadRegs { x: op_x(op) }
        } else {
            Instr::Unknown
        }
    } else {
        Instr::Unknown
    }
}

/// Classifies an opcode, returning exactly what `decode_op` says of it.
pub fn decode(op: u16) -> (instr: Instr)
    ensures
        instr == decode_op(op),
{
    let group: u16 = op / 0x1000;
    let x: u8 = ((op / 0x100) % 0x10) as u8;
    let y: u8 = ((op / 0x10) % 0x10) as u8;
    let n: u8 = (op % 0x10) as u8;
    let kk: u8 = (op % 0x100) as u8;
    let addr: u16 = op % 0x1000;
    if group == 0x0 {
        if op == 0x00E0 {
            Instr::Cls
        } else if op == 0x00EE {
            Instr::Ret
        } else {
            Instr::Sys
        }
    } else if group == 0x1 {
        Instr::Jump { addr }
    } else if group == 0x2 {
        Instr::Call { addr }
    } else if group == 0x3 {
        Instr::SkipEqByte { x, kk }
    } else if group == 0x4 {
        Instr::SkipNeByte { x, kk }
    } else if group == 0x5 {
        if op % 0x10 == 0x0 {
            Instr::SkipEqReg { x, y }
        } else {
            Instr::Unknown
        }
    } else if group == 0x6 {
        Instr::LoadByte { x, kk }
    } else if group == 0x7 {
        Instr::AddByte { x, kk }
    } else if group == 0x8 {
        let sub: u16 = op % 0x10;
        if sub == 0x0 {
            Instr::LoadReg { x, y }
        } else if sub == 0x1 {
            Instr::OrReg { x, y }
        } else if sub == 0x2 {
            Instr::AndReg { x, y }
        } else if sub == 0x3 {
            Instr::XorReg { x, y }
        } else if sub == 0x4 {
            Instr::AddReg { x, y }
        } else if sub == 0x5 {
            Instr::SubReg { x, y }
        } else if sub == 0x6 {
            Instr::ShiftRight { x, y }
        } else if sub == 0x7 {
            Instr::SubnReg { x, y }
        } else if sub == 0xE {
            Instr::ShiftLeft { x, y }
        } else {
            Instr::Unknown
        }
    } else if group == 0x9 {
        if op % 0x10 == 0x0 {
            Instr::SkipNeReg { x, y }
        } else {
            Instr::Unknown
        }
    } else if group == 0xA {
        Instr::LoadIndex { addr }
    } else if group == 0xB {
        Instr::JumpV0 { addr }
    } else if group == 0xC {
        Instr::Random { x, kk }
    } else if group == 0xD {
        Instr::Draw { x, y, n }
    } else if group == 0xE {
        let sub: u16 = op % 0x10;
        if sub == 0xE {
            Instr::SkipKey { x }
        } else if sub == 0x1 {
            Instr::SkipNoKey { x }
        } else {
            Instr::Unknown
        }
    } else if group == 0xF {
        let sub: u16 = op % 0x100;
        if sub == 0x07 {
            Instr::LoadDelay { x }
        } else if sub == 0x0A {
            Instr::WaitKey { x }
        } else if sub == 0x15 {
            Instr::SetDelay { x }
        } else if sub == 0x18 {
            Instr::SetSound { x }
        } else if sub == 0x1E {
            Instr::AddIndex { x }
        } else if sub == 0x29 {
            Instr::LoadGlyph { x }
        } else if sub == 0x33 {
            Instr::StoreBcd { x }
        } else if sub == 0x55 {
            Instr::StoreRegs { x }
        } else if sub == 0x65 {
            Instr::LoadRegs { x }
        } else {
            Instr::Unknown
        }
    } else {
        Instr::Unknown
    }
}

/// The upper-case hexadecimal digit of a nibble, for register names.
pub open spec fn hex_upper(d: u8) -> char {
    if d == 0x0 {
        '0'
    } else if d == 0x1 {
        '1'
    } else if d == 0x2 {
        '2'
    } else if d == 0x3 {
        '3'
    } else if d == 0x4 {
        '4'
    } else if d == 0x5 {
        '5'
    } else if d == 0x6 {
        '6'
    } else if d == 0x7 {
        '7'
    } else if d == 0x8 {
        '8'
    } else if d == 0x9 {
        '9'
    } else if d == 0xA {
        'A'
    } else if d == 0xB {
        'B'
    } else if d == 0xC {
        'C'
    } else if d == 0xD {
        'D'
    } else if d == 0xE {
        'E'
    } else if d == 0xF {
        'F'
    } else {
        '0'
    }
}

/// The lower-case hexadecimal digit of a nibble, for immediates.
pub open spec fn hex_lower(d: u8) -> char {
    if d == 0xA {
        'a'
    } else if d == 0xB {
        'b'
    } else if d == 0xC {
        'c'
    } else if d == 0xD {
        'd'
    } else if d == 0xE {
        'e'
    } else if d == 0xF {
        'f'
    } else {
        hex_upper(d)
    }
}

/// A 12-bit address as three lower-case hexadecimal digits.
pub open spec fn addr3(a: u16) -> Seq<char> {
    seq![
        hex_lower(((a / 0x100) % 0x10) as u8),
        hex_lower(((a / 0x10) % 0x10) as u8),
        hex_lower((a % 0x10) as u8),
    ]
}

/// An 8-bit immediate as two lower-case hexadecimal digits.
pub open spec fn byte2(k: u8) -> Seq<char> {
    seq![hex_lower(k / 16), hex_lower(k % 16)]
}

/// The disassembled text of an instruction: the mnemonic padded to four
/// columns, then the operands. The legacy machine-code escape and the
/// unrecognized patterns render as the empty text.
pub open spec fn render(instr: Instr) -> Seq<char> {
    match instr {
        Instr::Sys => Seq::empty(),
        Instr::Cls => seq!['C', 'L', 'S'],
        Instr::Ret => seq!['R', 'E', 'T'],
        Instr::Jump { addr } => seq!['J', 'P', ' ', ' ', ' '] + addr3(addr),
        Instr::Call { addr } => seq!['C', 'A', 'L', 'L', ' '] + addr3(addr),
        Instr::SkipEqByte { x, kk } => seq!['S', 'E', ' ', ' ', ' ', 'V', hex_upper(x), ',', ' ']
            + byte2(kk),
        Instr::SkipNeByte { x, kk } => seq!['S', 'N', 'E', ' ', ' ', 'V', hex_upper(x), ',', ' ']
            + byte2(kk),
        Instr::SkipEqReg { x, y } => seq![
            'S', 'E', ' ', ' ', ' ', 'V', hex_upper(x), ',', ' ', 'V', hex_upper(y),
        ],
        Instr::LoadByte { x, kk } => seq!['L', 'D', ' ', ' ', ' ', 'V', hex_upper(x), ',', ' ']
            + byte2(kk),
        Instr::AddByte { x, kk } => seq!['A', 'D', 'D', ' ', ' ', 'V', hex_upper(x), ',', ' ']
            + byte2(kk),
        Instr::LoadReg { x, y } => seq![
            'L', 'D', ' ', ' ', ' ', 'V', hex_upper(x), ',', ' ', 'V', hex_upper(y),
        ],
        Instr::OrReg { x, y } => seq![
            'O', 'R', ' ', ' ', ' ', 'V', hex_upper(x), ',', ' ', 'V', hex_upper(y),
        ],
        Instr::AndReg { x, y } => seq![
            'A', 'N', 'D', ' ', ' ', 'V', hex_upper(x), ',', ' ', 'V', hex_upper(y),
        ],
        Instr::XorReg { x, y } => seq![
            'X', 'O', 'R', ' ', ' ', 'V', hex_upper(x), ',', ' ', 'V', hex_upper(y),
        ],
        Instr::AddReg { x, y } => seq![
            'A', 'D', 'D', ' ', ' ', 'V', hex_upper(x), ',', ' ', 'V', hex_upper(y),
        ],
        Instr::SubReg { x, y } => seq![
            'S', 'U', 'B', ' ', ' ', 'V', hex_upper(x), ',', ' ', 'V', hex_upper(y),
        ],
        Instr::ShiftRight { x, y } => seq![
            'S', 'H', 'R', ' ', ' ', 'V', hex_upper(x), ',', ' ', 'V', hex_upper(y),
        ],
        Instr::SubnReg { x, y } => seq![
            'S', 'U', 'B', 'N', ' ', 'V', hex_upper(x), ',', ' ', 'V', hex_upper(y),
        ],
        Instr::ShiftLeft { x, y } => seq![
            'S', 'H', 'L', ' ', ' ', 'V', hex_upper(x), ',', ' ', 'V', hex_upper(y),
        ],
        Instr::SkipNeReg { x, y } => seq![
            'S', 'N', 'E', ' ', ' ', 'V', hex_upper(x), ',', ' ', 'V', hex_upper(y),
        ],
        Instr::LoadIndex { addr } => seq!['L', 'D', ' ', ' ', ' ', 'I', ',', ' '] + addr3(addr),
        Instr::JumpV0 { addr } => seq!['J', 'P', ' ', ' ', ' ', 'V', '0', ',', ' '] + addr3(addr),
        Instr::Random { x, kk } => seq!['R', 'N', 'D', ' ', ' ', 'V', hex_upper(x), ',', ' ']
            + byte2(kk),
        Instr::Draw { x, y, n } => seq![
            'D', 'R', 'W', ' ', ' ', 'V', hex_upper(x), ',', ' ', 'V', hex_upper(y), ',', ' ',
            hex_lower(n),
        ],
        Instr::SkipKey { x } => seq!['S', 'K', 'P', ' ', ' ', 'V', hex_upper(x)],
        Instr::SkipNoKey { x } => seq!['S', 'K', 'N', 'P', ' ', 'V', hex_upper(x)],
        Instr::LoadDelay { x } => seq![
            'L', 'D', ' ', ' ', ' ', 'V', hex_upper(x), ',', ' ', 'D', 'T',
        ],
        Instr::WaitKey { x } => seq!['L', 'D', ' ', ' ', ' ', 'V', hex_upper(x), ',', ' ', 'K'],
        Instr::SetDelay { x } => seq![
            'L', 'D', ' ', ' ', ' ', 'D', 'T', ',', ' ', 'V', hex_upper(x),
        ],
        Instr::SetSound { x } => seq![
            'L', 'D', ' ', ' ', ' ', 'S', 'T', ',', ' ', 'V', hex_upper(x),
        ],
        Instr::AddIndex { x } => seq![
            'A', 'D', 'D', ' ', ' ', 'I', ',', ' ', 'V', hex_upper(x),
        ],
        Instr::LoadGlyph { x } => seq![
            'L', 'D', ' ', ' ', ' ', 'F', ',', ' ', 'V', hex_upper(x),
        ],
        Instr::StoreBcd { x } => seq![
            'L', 'D', ' ', ' ', ' ', 'B', ',', ' ', 'V', hex_upper(x),
        ],
        Instr::StoreRegs { x } => seq![
            'L', 'D', ' ', ' ', ' ', '[', 'I', ']', ',', ' ', 'V', hex_upper(x),
        ],
        Instr::LoadRegs { x } => seq![
            'L', 'D', ' ', ' ', ' ', 'V', hex_upper(x), ',', ' ', '[', 'I', ']',
        ],
        Instr::Unknown => Seq::empty(),
    }
}

/// The one-character text of a nibble's upper-case hexadecimal digit.
fn hex_upper_str(d: u8) -> (r: &'static str)
    ensures
        r@ == seq![hex_upper(d)],
{
    proof {
        reveal_strlit("0");
        reveal_strlit("1");
        reveal_strlit("2");
        reveal_strlit("3");
        reveal_strlit("4");
        reveal_strlit("5");
        reveal_strlit("6");
        reveal_strlit("7");
        reveal_strlit("8");
        reveal_strlit("9");
        reveal_strlit("A");
        reveal_strlit("B");
        reveal_strlit("C");
        reveal_strlit("D");
        reveal_strlit("E");
        reveal_strlit("F");
    }
    let r = if d == 0x0 {
        "0"
    } else if d == 0x1 {
        "1"
    } else if d == 0x2 {
        "2"
    } else if d == 0x3 {
        "3"
    } else if d == 0x4 {
        "4"
    } else if d == 0x5 {
        "5"
    } else if d == 0x6 {
        "6"
    } else if d == 0x7 {
        "7"
    } else if d == 0x8 {
        "8"
    } else if d == 0x9 {
        "9"
    } else if d == 0xA {
        "A"
    } else if d == 0xB {
        "B"
    } else if d == 0xC {
        "C"
    } else if d == 0xD {
        "D"
    } else if d == 0xE {
        "E"
    } else if d == 0xF {
        "F"
    } else {
        "0"
    };
    proof {
        assert(r@ =~= seq![hex_upper(d)]);
    }
    r
}

/// The one-character text of a nibble's lower-case hexadecimal digit.
fn hex_lower_str(d: u8) -> (r: &'static str)
    ensures
        r@ == seq![hex_lower(d)],
{
    proof {
        reveal_strlit("a");
        reveal_strlit("b");
        reveal_strlit("c");
        reveal_strlit("d");
        reveal_strlit("e");
        reveal_strlit("f");
    }
    let r = if d == 0xA {
        "a"
    } else if d == 0xB {
        "b"
    } else if d == 0xC {
        "c"
    } else if d == 0xD {
        "d"
    } else if d == 0xE {
        "e"
    } else if d == 0xF {
        "f"
    } else {
        return hex_upper_str(d);
    };
    proof {
        assert(r@ =~= seq![hex_lower(d)]);
    }
    r
}

/// Appends the upper-case register digit of `d` to the text.
fn push_hex_upper(s: &mut String, d: u8)
    ensures
        final(s)@ == old(s)@ + seq![hex_upper(d)],
{
    s.append(hex_upper_str(d));
}

/// Appends the two lower-case digits of a byte immediate to the text.
fn push_byte2(s: &mut String, k: u8)
    ensures
        final(s)@ == old(s)@ + byte2(k),
{
    s.append(hex_lower_str(k / 16));
    s.append(hex_lower_str(k % 16));
    proof {
        assert(s@ =~= old(s)@ + byte2(k));
    }
}

/// Appends the three lower-case digits of a 12-bit address to the text.
fn push_addr3(s: &mut String, a: u16)
    ensures
        final(s)@ == old(s)@ + addr3(a),
{
    s.append(hex_lower_str(((a / 0x100) % 0x10) as u8));
    s.append(hex_lower_str(((a / 0x10) % 0x10) as u8));
    s.append(hex_lower_str((a % 0x10) as u8));
    proof {
        assert(s@ =~= old(s)@ + addr3(a));
    }
}

/// Produces the disassembled text of a recognized instruction, exactly
/// as `render` states it.
pub fn render_instr(instr: Instr) -> (text: String)
    requires
        !(instr is Unknown),
    ensures
        text@ == render(instr),
{
    match instr {
        Instr::Sys => {
            let text = String::new();
            proof {
                assert(text@ =~= render(instr));
            }
            text
        },
        Instr::Cls => {
            let text = String::from_str("CLS");
            proof {
                reveal_strlit("CLS");
                assert(text@ =~= render(instr));
            }
            text
        },
        Instr::Ret => {
            let text = String::from_str("RET");
            proof {
                reveal_strlit("RET");
                assert(text@ =~= render(instr));
            }
            text
        },
        Instr::Jump { addr } => {
            let mut text = String::from_str("JP   ");
            push_addr3(&mut text, addr);
            proof {
                reveal_strlit("JP   ");
                assert(text@ =~= render(instr));
            }
            text
        },
        Instr::Call { addr } => {
            let mut text = String::from_str("CALL ");
            push_addr3(&mut text, addr);
            proof {
                reveal_strlit("CALL ");
                assert(text@ =~= render(instr));
            }
            text
        },
        Instr::SkipEqByte { x, kk } => {
            let mut text = String::from_str("SE   V");
            push_hex_upper(&mut text, x);
            text.append(", ");
            push_byte2(&mut text, kk);
            proof {
                reveal_strlit("SE   V");
                reveal_strlit(", ");
                assert(text@ =~= render(instr));
            }
            text
        },
        Instr::SkipNeByte { x, kk } => {
            let mut text = String::from_str("SNE  V");
            push_hex_upper(&mut text, x);
            text.append(", ");
            push_byte2(&mut text, kk);
            proof {
                reveal_strlit("SNE  V");
                reveal_strlit(", ");
                assert(text@ =~= render(instr));
            }
            text
        },
        Instr::SkipEqReg { x, y } => {
            let mut text = String::from_str("SE   V");
            push_hex_upper(&mut text, x);
            text.append(", V");
            push_hex_upper(&mut text, y);
            proof {
                reveal_strlit("SE   V");
                reveal_strlit(", V");
                assert(text@ =~= render(instr));
            }
            text
        },
        Instr::LoadByte { x, kk } => {
            let mut text = String::from_str("LD   V");
            push_hex_upper(&mut text, x);
            text.append(", ");
            push_byte2(&mut text, kk);
            proof {
                reveal_strlit("LD   V");
                reveal_strlit(", ");
                assert(text@ =~= render(instr));
            }
            text
        },
        Instr::AddByte { x, kk } => {
            let mut text = String::from_str("ADD  V");
            push_hex_upper(&mut text, x);
            text.append(", ");
            push_byte2(&mut text, kk);
            proof {
                reveal_strlit("ADD  V");
                reveal_strlit(", ");
                assert(text@ =~= render(instr));
            }
            text
        },
        Instr::LoadReg { x, y } => {
            let mut text = String::from_str("LD   V");
            push_hex_upper(&mut text, x);
            text.append(", V");
            push_hex_upper(&mut text, y);
            proof {
                reveal_strlit("LD   V");
                reveal_strlit(", V");
                assert(text@ =~= render(instr));
            }
            text
        },
        Instr::OrReg { x, y } => {
            let mut text = String::from_str("OR   V");
            push_hex_upper(&mut text, x);
            text.append(", V");
            push_hex_upper(&mut text, y);
            proof {
                reveal_strlit("OR   V");
                reveal_strlit(", V");
                assert(text@ =~= render(instr));
            }
            text
        },
        Instr::AndReg { x, y } => {
            let mut text = String::from_str("AND  V");
            push_hex_upper(&mut text, x);
            text.append(", V");
            push_hex_upper(&mut text, y);
            proof {
                reveal_strlit("AND  V");
                reveal_strlit(", V");
                assert(text@ =~= render(instr));
            }
            text
        },
        Instr::XorReg { x, y } => {
            let mut text = String::from_str("XOR  V");
            push_hex_upper(&mut text, x);
            text.append(", V");
            push_hex_upper(&mut text, y);
            proof {
                reveal_strlit("XOR  V");
                reveal_strlit(", V");
                assert(text@ =~= render(instr));
            }
            text
        },
        Instr::AddReg { x, y } => {
            let mut text = String::from_str("ADD  V");
            push_hex_upper(&mut text, x);
            text.append(", V");
            push_hex_upper(&mut text, y);
            proof {
                reveal_strlit("ADD  V");
                reveal_strlit(", V");
                assert(text@ =~= render(instr));
            }
            text
        },
        Instr::SubReg { x, y } => {
            let mut text = String::from_str("SUB  V");
            push_hex_upper(&mut text, x);
            text.append(", V");
            push_hex_upper(&mut text, y);
            proof {
                reveal_strlit("SUB  V");
                reveal_strlit(", V");
                assert(text@ =~= render(instr));
            }
            text
        },
        Instr::ShiftRight { x, y } => {
            let mut text = String::from_str("SHR  V");
            push_hex_upper(&mut text, x);
            text.append(", V");
            push_hex_upper(&mut text, y);
            proof {
                reveal_strlit("SHR  V");
                reveal_strlit(", V");
                assert(text@ =~= render(instr));
            }
            text
        },
        Instr::SubnReg { x, y } => {
            let mut text = String::from_str("SUBN V");
            push_hex_upper(&mut text, x);
            text.append(", V");
            push_hex_upper(&mut text, y);
            proof {
                reveal_strlit("SUBN V");
                reveal_strlit(", V");
                assert(text@ =~= render(instr));
            }
            text
        },
        Instr::ShiftLeft { x, y } => {
            let mut text = String::from_str("SHL  V");
            push_hex_upper(&mut text, x);
            text.append(", V");
            push_hex_upper(&mut text, y);
            proof {
                reveal_strlit("SHL  V");
                reveal_strlit(", V");
                assert(text@ =~= render(instr));
            }
            text
        },
        Instr::SkipNeReg { x, y } => {
            let mut text = String::from_str("SNE  V");
            push_hex_upper(&mut text, x);
            text.append(", V");
            push_hex_upper(&mut text, y);
            proof {
                reveal_strlit("SNE  V");
                reveal_strlit(", V");
                assert(text@ =~= render(instr));
            }
            text
        },
        Instr::LoadIndex { addr } => {
            let mut text = String::from_str("LD   I, ");
            push_addr3(&mut text, addr);
            proof {
                reveal_strlit("LD   I, ");
                assert(text@ =~= render(instr));
            }
            text
        },
        Instr::JumpV0 { addr } => {
            let mut text = String::from_str("JP   V0, ");
            push_addr3(&mut text, addr);
            proof {
                reveal_strlit("JP   V0, ");
                assert(text@ =~= render(instr));
            }
            text
        },
        Instr::Random { x, kk } => {
            let mut text = String::from_str("RND  V");
            push_hex_upper(&mut text, x);
            text.append(", ");
            push_byte2(&mut text, kk);
            proof {
                reveal_strlit("RND  V");
                reveal_strlit(", ");
                assert(text@ =~= render(instr));
            }
            text
        },
        Instr::Draw { x, y, n } => {
            let mut text = String::from_str("DRW  V");
            push_hex_upper(&mut text, x);
            text.append(", V");
            push_hex_upper(&mut text, y);
            text.append(", ");
            text.append(hex_lower_str(n));
            proof {
                reveal_strlit("DRW  V");
                reveal_strlit(", V");
                reveal_strlit(", ");
                assert(text@ =~= render(instr));
            }
            text
        },
        Instr::SkipKey { x } => {
            let mut text = String::from_str("SKP  V");
            push_hex_upper(&mut text, x);
            proof {
                reveal_strlit("SKP  V");
                assert(text@ =~= render(instr));
            }
            text
        },
        Instr::SkipNoKey { x } => {
            let mut text = String::from_str("SKNP V");
            push_hex_upper(&mut text, x);
            proof {
                reveal_strlit("SKNP V");
                assert(text@ =~= render(instr));
            }
            text
        },
        Instr::LoadDelay { x } => {
            let mut text = String::from_str("LD   V");
            push_hex_upper(&mut text, x);
            text.append(", DT");
            proof {
                reveal_strlit("LD   V");
                reveal_strlit(", DT");
                assert(text@ =~= render(instr));
            }
            text
        },
        Instr::WaitKey { x } => {
            let mut text = String::from_str("LD   V");
            push_hex_upper(&mut text, x);
            text.append(", K");
            proof {
                reveal_strlit("LD   V");
                reveal_strlit(", K");
                assert(text@ =~= render(instr));
            }
            text
        },
        Instr::SetDelay { x } => {
            let mut text = String::from_str("LD   DT, V");
            push_hex_upper(&mut text, x);
            proof {
                reveal_strlit("LD   DT, V");
                assert(text@ =~= render(instr));
            }
            text
        },
        Instr::SetSound { x } => {
            let mut text = String::from_str("LD   ST, V");
            push_hex_upper(&mut text, x);
            proof {
                reveal_strlit("LD   ST, V");
                assert(text@ =~= render(instr));
            }
            text
        },
        Instr::AddIndex { x } => {
            let mut text = String::from_str("ADD  I, V");
            push_hex_upper(&mut text, x);
            proof {
                reveal_strlit("ADD  I, V");
                assert(text@ =~= render(instr));
            }
            text
        },
        Instr::LoadGlyph { x } => {
            let mut text = String::from_str("LD   F, V");
            push_hex_upper(&mut text, x);
            proof {
                reveal_strlit("LD   F, V");
                assert(text@ =~= render(instr));
            }
            text
        },
        Instr::StoreBcd { x } => {
            let mut text = String::from_str("LD   B, V");
            push_hex_upper(&mut text, x);
            proof {
                reveal_strlit("LD   B, V");
                assert(text@ =~= render(instr));
            }
            text
        },
        Instr::StoreRegs { x } => {
            let mut text = String::from_str("LD   [I], V");
            push_hex_upper(&mut text, x);
            proof {
                reveal_strlit("LD   [I], V");
                assert(text@ =~= render(instr));
            }
            text
        },
        Instr::LoadRegs { x } => {
            let mut text = String::from_str("LD   V");
            push_hex_upper(&mut text, x);
            text.append(", [I]");
            proof {
                reveal_strlit("LD   V");
                reveal_strlit(", [I]");
                assert(text@ =~= render(instr));
            }
            text
        },
        Instr::Unknown => {
            proof {
                assert(false);
            }
            String::new()
        },
    }
}

} // verus!
