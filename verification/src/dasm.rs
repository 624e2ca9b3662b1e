//! The disassembler: one to three bytes at an address rendered as two hex
//! columns followed by the mnemonic with its symbolic operand. Unknown
//! opcodes give an empty string.

use vstd::prelude::*;
use vstd::string::StringExecFns;
use crate::hex::{hex2, push_hex2};
use crate::memory::{Bus, BusView};

verus! {

/// The text the disassembler yields for the instruction at an address.
#[verifier::opaque]
pub open spec fn dasm_seq(b: BusView, addr: u16) -> Seq<char> {
    let op = b.read8(addr);
    let n1 = b.read8(addr.wrapping_add(1));
    let n2 = b.read8(addr.wrapping_add(2));
    match op {

        0x00 => "00        NOP"@,
        0x01 => "01 "@ + hex2(n1) + hex2(n2) + "   LXI B,$"@ + hex2(n2) + hex2(n1),
        0x02 => "02        STAX B"@,
        0x03 => "03        INX B"@,
        0x04 => "04        INR B"@,
        0x05 => "05        DCR B"@,
        0x06 => "06 "@ + hex2(n1) + "     MVI B,$"@ + hex2(n1),
        0x07 => "07        RLC"@,
        0x09 => "09        DAD B"@,
        0x0a => "0A        LDAX B"@,
        0x0b => "0B        DCX B"@,
        0x0c => "0C        INR C"@,
        0x0d => "0D        DCR C"@,
        0x0e => "0E "@ + hex2(n1) + "     MVI C,$"@ + hex2(n1),
        0x0f => "0F        RRC"@,
        0x11 => "11 "@ + hex2(n1) + hex2(n2) + "   LXI D,$"@ + hex2(n2) + hex2(n1),
        0x12 => "12        STAX D"@,
        0x13 => "13        INX D"@,
        0x14 => "14        INR D"@,
        0x15 => "15        DCR D"@,
        0x16 => "16 "@ + hex2(n1) + "     MVI D,$"@ + hex2(n1),
        0x17 => "17        RAL"@,
        0x19 => "19        DAD D"@,
        0x1a => "1A        LDAX D"@,
        0x1b => "1B        DCX D"@,
        0x1c => "1C        INR E"@,
        0x1d => "1D        DCR E"@,
        0x1e => "1E "@ + hex2(n1) + "     MVI E,$"@ + hex2(n1),
        0x1f => "1F        RAR"@,
        0x21 => "21 "@ + hex2(n1) + hex2(n2) + "   LXI H,$"@ + hex2(n2) + hex2(n1),
        0x22 => "22 "@ + hex2(n1) + hex2(n2) + "   SHLD $"@ + hex2(n2) + hex2(n1),
        0x23 => "23        INX H"@,
        0x24 => "24        INR H"@,
        0x25 => "25        DCR H"@,
        0x26 => "26 "@ + hex2(n1) + "     MVI H,$"@ + hex2(n1),
        0x27 => "27        DAA"@,
        0x29 => "29        DAD H"@,
        0x2a => "2A "@ + hex2(n1) + hex2(n2) + "   LHLD $"@ + hex2(n2) + hex2(n1),
        0x2b => "2B        DCX H"@,
        0x2c => "2C        INR L"@,
        0x2d => "2D        DCR L"@,
        0x2e => "2E "@ + hex2(n1) + "     MVI L,$"@ + hex2(n1),
        0x2f => "2F        CMA"@,
        0x31 => "31 "@ + hex2(n1) + hex2(n2) + "   LXI SP,$"@ + hex2(n2) + hex2(n1),
        0x32 => "32 "@ + hex2(n1) + hex2(n2) + "   STA $"@ + hex2(n2) + hex2(n1),
        0x33 => "33        INX SP"@,
        0x34 => "34        INR (HL)"@,
        0x35 => "35        DCR (HL)"@,
        0x36 => "36 "@ + hex2(n1) + "     MVI (HL),$"@ + hex2(n1),
        0x37 => "37        STC"@,
        0x39 => "39        DAD SP"@,
        0x3a => "3A "@ + hex2(n1) + hex2(n2) + "   LDA $"@ + hex2(n2) + hex2(n1),
        0x3b => "3B        DCX SP"@,
        0x3c => "3C        INR A"@,
        0x3d => "3D        DCR A"@,
        0x3e => "3E "@ + hex2(n1) + "     MVI A,$"@ + hex2(n1),
        0x3f => "3F        CMC"@,
        0x40 => "40        MOV B,B"@,
        0x41 => "41        MOV B,C"@,
        0x42 => "42        MOV B,D"@,
        0x43 => "43        MOV B,E"@,
        0x44 => "44        MOV B,H"@,
        0x45 => "45        MOV B,L"@,
        0x46 => "46        MOV B,(HL)"@,
        0x47 => "47        MOV B,A"@,
        0x48 => "48        MOV C,B"@,
        0x49 => "49        MOV C,C"@,
        0x4a => "4A        MOV C,D"@,
        0x4b => "4B        MOV C,E"@,
        0x4c => "4C        MOV C,H"@,
        0x4d => "4D        MOV C,L"@,
        0x4e => "4E        MOV C,(HL)"@,
        0x4f => "4F        MOV C,A"@,
        0x50 => "50        MOV D,B"@,
        0x51 => "51        MOV D,C"@,
        0x52 => "52        MOV D,D"@,
        0x53 => "53        MOV D,E"@,
        0x54 => "54        MOV D,H"@,
        0x55 => "55        MOV D,L"@,
        0x56 => "56        MOV D,(HL)"@,
        0x57 => "57        MOV D,A"@,
        0x58 => "58        MOV E,B"@,
        0x59 => "59        MOV E,C"@,
        0x5a => "5A        MOV E,D"@,
        0x5b => "5B        MOV E,E"@,
        0x5c => "5C        MOV E,H"@,
        0x5d => "5D        MOV E,L"@,
        0x5e => "5E        MOV E,(HL)"@,
        0x5f => "5F        MOV E,A"@,
        0x60 => "60        MOV H,B"@,
        0x61 => "61        MOV H,C"@,
        0x62 => "62        MOV H,D"@,
        0x63 => "63        MOV H,E"@,
        0x64 => "64        MOV H,H"@,
        0x65 => "65        MOV H,L"@,
        0x66 => "66        MOV H,(HL)"@,
        0x67 => "67        MOV H,A"@,
        0x68 => "68        MOV L,B"@,
        0x69 => "69        MOV L,C"@,
        0x6a => "6A        MOV L,D"@,
        0x6b => "6B        MOV L,E"@,
        0x6c => "6C        MOV L,H"@,
        0x6d => "6D        MOV L,L"@,
        0x6e => "6E        MOV L,(HL)"@,
        0x6f => "6F        MOV L,A"@,
        0x70 => "70        MOV (HL),B"@,
        0x71 => "71        MOV (HL),C"@,
        0x72 => "72        MOV (HL),D"@,
        0x73 => "73        MOV (HL),E"@,
        0x74 => "74        MOV (HL),H"@,
        0x75 => "75        MOV (HL),L"@,
        0x76 => "76        HLT"@,
        0x77 => "77        MOV (HL),A"@,
        0x78 => "78        MOV A,B"@,
        0x79 => "79        MOV A,C"@,
        0x7a => "7A        MOV A,D"@,
        0x7b => "7B        MOV A,E"@,
        0x7c => "7C        MOV A,H"@,
        0x7d => "7D        MOV A,L"@,
        0x7e => "7E        MOV A,(HL)"@,
        0x7f => "7F        MOV A,A"@,
        0x80 => "80        ADD B"@,
        0x81 => "81        ADD C"@,
        0x82 => "82        ADD D"@,
        0x83 => "83        ADD E"@,
        0x84 => "84        ADD H"@,
        0x85 => "85        ADD L"@,
        0x86 => "86        ADD (HL)"@,
        0x87 => "87        ADD A"@,
        0x88 => "88        ADC B"@,
        0x89 => "89        ADC C"@,
        0x8a => "8A        ADC D"@,
        0x8b => "8B        ADC E"@,
        0x8c => "8C        ADC H"@,
        0x8d => "8D        ADC L"@,
        0x8e => "8E        ADC (HL)"@,
        0x8f => "8F        ADC A"@,
        0x90 => "90        SUB B"@,
        0x91 => "91        SUB C"@,
        0x92 => "92        SUB D"@,
        0x93 => "93        SUB E"@,
        0x94 => "94        SUB H"@,
        0x95 => "95        SUB L"@,
        0x96 => "96        SUB (HL)"@,
        0x97 => "97        SUB A"@,
        0x98 => "98        SBB B"@,
        0x99 => "99        SBB C"@,
        0x9a => "9A        SBB D"@,
        0x9b => "9B        SBB E"@,
        0x9c => "9C        SBB H"@,
        0x9d => "9D        SBB L"@,
        0x9e => "9E        SBB (HL)"@,
        0x9f => "9F        SBB A"@,
        0xa0 => "A0        ANA B"@,
        0xa1 => "A1        ANA C"@,
        0xa2 => "A2        ANA D"@,
        0xa3 => "A3        ANA E"@,
        0xa4 => "A4        ANA H"@,
        0xa5 => "A5        ANA L"@,
        0xa6 => "A6        ANA (HL)"@,
        0xa7 => "A7        ANA A"@,
        0xa8 => "A8        XRA B"@,
        0xa9 => "A9        XRA C"@,
        0xaa => "AA        XRA D"@,
        0xab => "AB        XRA E"@,
        0xac => "AC        XRA H"@,
        0xad => "AD        XRA L"@,
        0xae => "AE        XRA (HL)"@,
        0xaf => "AF        XRA A"@,
        0xb0 => "B0        ORA B"@,
        0xb1 => "B1        ORA C"@,
        0xb2 => "B2        ORA D"@,
        0xb3 => "B3        ORA E"@,
        0xb4 => "B4        ORA H"@,
        0xb5 => "B5        ORA L"@,
        0xb6 => "B6        ORA (HL)"@,
        0xb7 => "B7        ORA A"@,
        0xb8 => "B8        CMP B"@,
        0xb9 => "B9        CMP C"@,
        0xba => "BA        CMP D"@,
        0xbb => "BB        CMP E"@,
        0xbc => "BC        CMP H"@,
        0xbd => "BD        CMP L"@,
        0xbe => "BE        CMP (HL)"@,
        0xbf => "BF        CMP A"@,
        0xc0 => "C0        RNZ"@,
        0xc1 => "C1        POP B"@,
        0xc2 => "C2 "@ + hex2(n1) + hex2(n2) + "   JNZ $"@ + hex2(n2) + hex2(n1),
        0xc3 => "C3 "@ + hex2(n1) + hex2(n2) + "   JMP $"@ + hex2(n2) + hex2(n1),
        0xc4 => "C4 "@ + hex2(n1) + hex2(n2) + "   CNZ $"@ + hex2(n2) + hex2(n1),
        0xc5 => "C5        PUSH B"@,
        0xc6 => "C6 "@ + hex2(n1) + "     ADI $"@ + hex2(n1),
        0xc7 => "C7        RST 0"@,
        0xc8 => "C8        RZ"@,
        0xc9 => "C9        RET"@,
        0xca => "CA "@ + hex2(n1) + hex2(n2) + "   JZ $"@ + hex2(n2) + hex2(n1),
        0xcc => "CC "@ + hex2(n1) + hex2(n2) + "   CZ $"@ + hex2(n2) + hex2(n1),
        0xcd => "CD "@ + hex2(n1) + hex2(n2) + "   CALL $"@ + hex2(n2) + hex2(n1),
        0xce => "CE "@ + hex2(n1) + "     ACI $"@ + hex2(n1),
        0xcf => "CF        RST 1"@,
        0xd0 => "D0        RNC"@,
        0xd1 => "D1        POP D"@,
        0xd2 => "D2 "@ + hex2(n1) + hex2(n2) + "   JNC $"@ + hex2(n2) + hex2(n1),
        0xd3 => "D3 "@ + hex2(n1) + "     OUT $"@ + hex2(n1),
        0xd4 => "D4 "@ + hex2(n1) + hex2(n2) + "   CNC $"@ + hex2(n2) + hex2(n1),
        0xd5 => "D5        PUSH D"@,
        0xd6 => "D6 "@ + hex2(n1) + "     SUI $"@ + hex2(n1),
        0xd7 => "D7        RST 2"@,
        0xd8 => "D8        RC"@,
        0xda => "DA "@ + hex2(n1) + hex2(n2) + "   JC $"@ + hex2(n2) + hex2(n1),
        0xdb => "DB "@ + hex2(n1) + "     IN $"@ + hex2(n1),
        0xdc => "DC "@ + hex2(n1) + hex2(n2) + "   CC $"@ + hex2(n2) + hex2(n1),
        0xde => "DE "@ + hex2(n1) + "     SBI $"@ + hex2(n1),
        0xdf => "DF        RST 3"@,
        0xe0 => "E0        RPO"@,
        0xe1 => "E1        POP H"@,
        0xe2 => "E2 "@ + hex2(n1) + hex2(n2) + "   JPO $"@ + hex2(n2) + hex2(n1),
        0xe3 => "E3        XTHL"@,
        0xe4 => "E4 "@ + hex2(n1) + hex2(n2) + "   CPO $"@ + hex2(n2) + hex2(n1),
        0xe5 => "E5        PUSH H"@,
        0xe6 => "E6 "@ + hex2(n1) + "     ANI $"@ + hex2(n1),
        0xe7 => "E7        RST 4"@,
        0xe8 => "E8        RPE"@,
        0xe9 => "addressHL"@,
        0xea => "EA "@ + hex2(n1) + hex2(n2) + "   JPE $"@ + hex2(n2) + hex2(n1),
        0xeb => "EB        XCHG"@,
        0xec => "EC "@ + hex2(n1) + hex2(n2) + "   CPE $"@ + hex2(n2) + hex2(n1),
        0xee => "EE "@ + hex2(n1) + "     XRI $"@ + hex2(n1),
        0xef => "EF        RST 5"@,
        0xf0 => "F0        RP"@,
        0xf1 => "F1        POP PSW"@,
        0xf2 => "F2 "@ + hex2(n1) + hex2(n2) + "   JP $"@ + hex2(n2) + hex2(n1),
        0xf3 => "F3        DI"@,
        0xf4 => "F4 "@ + hex2(n1) + hex2(n2) + "   CP $"@ + hex2(n2) + hex2(n1),
        0xf5 => "F5        PUSH PSW"@,
        0xf6 => "F6 "@ + hex2(n1) + "     ORI $"@ + hex2(n1),
        0xf7 => "F7        RST 6"@,
        0xf8 => "F8        RM"@,
        0xf9 => "F9        SPHL"@,
        0xfa => "FA "@ + hex2(n1) + hex2(n2) + "   JM $"@ + hex2(n2) + hex2(n1),
        0xfb => "FB        EI"@,
        0xfc => "FC "@ + hex2(n1) + hex2(n2) + "   CM $"@ + hex2(n2) + hex2(n1),
        0xfe => "FE "@ + hex2(n1) + "     CPI $"@ + hex2(n1),
        0xff => "FF        RST 7"@,
        _ => Seq::<char>::empty(),
    }
}

/// Disassembles the instruction stored at an address.
#[verifier::rlimit(60)]
pub fn disassemble(bus: &Bus, address: u16) -> (r: String)
    requires
        bus@.wf(),
    ensures
        r@ == dasm_seq(bus@, address),
{
    proof {
        reveal(dasm_seq);
    }
    let opcode = bus.read_byte(address);
    match opcode {
        0x00 => String::from_str("00        NOP"),
        0x01 => {
            let b1 = bus.read_byte(address.wrapping_add(1));
            let b2 = bus.read_byte(address.wrapping_add(2));
            let mut s = String::from_str("01 ");
            push_hex2(&mut s, b1);
            push_hex2(&mut s, b2);
            s.append("   LXI B,$");
            push_hex2(&mut s, b2);
            push_hex2(&mut s, b1);
            s
        },
        0x02 => String::from_str("02        STAX B"),
        0x03 => String::from_str("03        INX B"),
        0x04 => String::from_str("04        INR B"),
        0x05 => String::from_str("05        DCR B"),
        0x06 => {
            let d8 = bus.read_byte(address.wrapping_add(1));
            let mut s = String::from_str("06 ");
            push_hex2(&mut s, d8);
            s.append("     MVI B,$");
            push_hex2(&mut s, d8);
            s
        },
        0x07 => String::from_str("07        RLC"),
        0x09 => String::from_str("09        DAD B"),
        0x0a => String::from_str("0A        LDAX B"),
        0x0b => String::from_str("0B        DCX B"),
        0x0c => String::from_str("0C        INR C"),
        0x0d => String::from_str("0D        DCR C"),
        0x0e => {
            let d8 = bus.read_byte(address.wrapping_add(1));
            let mut s = String::from_str("0E ");
            push_hex2(&mut s, d8);
            s.append("     MVI C,$");
            push_hex2(&mut s, d8);
            s
        },
        0x0f => String::from_str("0F        RRC"),
        0x11 => {
            let b1 = bus.read_byte(address.wrapping_add(1));
            let b2 = bus.read_byte(address.wrapping_add(2));
            let mut s = String::from_str("11 ");
            push_hex2(&mut s, b1);
            push_hex2(&mut s, b2);
            s.append("   LXI D,$");
            push_hex2(&mut s, b2);
            push_hex2(&mut s, b1);
            s
        },
        0x12 => String::from_str("12        STAX D"),
        0x13 => String::from_str("13        INX D"),
        0x14 => String::from_str("14        INR D"),
        0x15 => String::from_str("15        DCR D"),
        0x16 => {
            let d8 = bus.read_byte(address.wrapping_add(1));
            let mut s = String::from_str("16 ");
            push_hex2(&mut s, d8);
            s.append("     MVI D,$");
            push_hex2(&mut s, d8);
            s
        },
        0x17 => String::from_str("17        RAL"),
        0x19 => String::from_str("19        DAD D"),
        0x1a => String::from_str("1A        LDAX D"),
        0x1b => String::from_str("1B        DCX D"),
        0x1c => String::from_str("1C        INR E"),
        0x1d => String::from_str("1D        DCR E"),
        0x1e => {
            let d8 = bus.read_byte(address.wrapping_add(1));
            let mut s = String::from_str("1E ");
            push_hex2(&mut s, d8);
            s.append("     MVI E,$");
            push_hex2(&mut s, d8);
            s
        },
        0x1f => String::from_str("1F        RAR"),
        0x21 => {
            let b1 = bus.read_byte(address.wrapping_add(1));
            let b2 = bus.read_byte(address.wrapping_add(2));
            let mut s = String::from_str("21 ");
            push_hex2(&mut s, b1);
            push_hex2(&mut s, b2);
            s.append("   LXI H,$");
            push_hex2(&mut s, b2);
            push_hex2(&mut s, b1);
            s
        },
        0x22 => {
            let b1 = bus.read_byte(address.wrapping_add(1));
            let b2 = bus.read_byte(address.wrapping_add(2));
            let mut s = String::from_str("22 ");
            push_hex2(&mut s, b1);
            push_hex2(&mut s, b2);
            s.append("   SHLD $");
            push_hex2(&mut s, b2);
            push_hex2(&mut s, b1);
            s
        },
        0x23 => String::from_str("23        INX H"),
        0x24 => String::from_str("24        INR H"),
        0x25 => String::from_str("25        DCR H"),
        0x26 => {
            let d8 = bus.read_byte(address.wrapping_add(1));
            let mut s = String::from_str("26 ");
            push_hex2(&mut s, d8);
            s.append("     MVI H,$");
            push_hex2(&mut s, d8);
            s
        },
        0x27 => String::from_str("27        DAA"),
        0x29 => String::from_str("29        DAD H"),
        0x2a => {
            let b1 = bus.read_byte(address.wrapping_add(1));
            let b2 = bus.read_byte(address.wrapping_add(2));
            let mut s = String::from_str("2A ");
            push_hex2(&mut s, b1);
            push_hex2(&mut s, b2);
            s.append("   LHLD $");
            push_hex2(&mut s, b2);
            push_hex2(&mut s, b1);
            s
        },
        0x2b => String::from_str("2B        DCX H"),
        0x2c => String::from_str("2C        INR L"),
        0x2d => String::from_str("2D        DCR L"),
        0x2e => {
            let d8 = bus.read_byte(address.wrapping_add(1));
            let mut s = String::from_str("2E ");
            push_hex2(&mut s, d8);
            s.append("     MVI L,$");
            push_hex2(&mut s, d8);
            s
        },
        0x2f => String::from_str("2F        CMA"),
        0x31 => {
            let b1 = bus.read_byte(address.wrapping_add(1));
            let b2 = bus.read_byte(address.wrapping_add(2));
            let mut s = String::from_str("31 ");
            push_hex2(&mut s, b1);
            push_hex2(&mut s, b2);
            s.append("   LXI SP,$");
            push_hex2(&mut s, b2);
            push_hex2(&mut s, b1);
            s
        },
        0x32 => {
            let b1 = bus.read_byte(address.wrapping_add(1));
            let b2 = bus.read_byte(address.wrapping_add(2));
            let mut s = String::from_str("32 ");
            push_hex2(&mut s, b1);
            push_hex2(&mut s, b2);
            s.append("   STA $");
            push_hex2(&mut s, b2);
            push_hex2(&mut s, b1);
            s
        },
        0x33 => String::from_str("33        INX SP"),
        0x34 => String::from_str("34        INR (HL)"),
        0x35 => String::from_str("35        DCR (HL)"),
        0x36 => {
            let d8 = bus.read_byte(address.wrapping_add(1));
            let mut s = String::from_str("36 ");
            push_hex2(&mut s, d8);
            s.append("     MVI (HL),$");
            push_hex2(&mut s, d8);
            s
        },
        0x37 => String::from_str("37        STC"),
        0x39 => String::from_str("39        DAD SP"),
        0x3a => {
            let b1 = bus.read_byte(address.wrapping_add(1));
            let b2 = bus.read_byte(address.wrapping_add(2));
            let mut s = String::from_str("3A ");
            push_hex2(&mut s, b1);
            push_hex2(&mut s, b2);
            s.append("   LDA $");
            push_hex2(&mut s, b2);
            push_hex2(&mut s, b1);
            s
        },
        0x3b => String::from_str("3B        DCX SP"),
        0x3c => String::from_str("3C        INR A"),
        0x3d => String::from_str("3D        DCR A"),
        0x3e => {
            let d8 = bus.read_byte(address.wrapping_add(1));
            let mut s = String::from_str("3E ");
            push_hex2(&mut s, d8);
            s.append("     MVI A,$");
            push_hex2(&mut s, d8);
            s
        },
        0x3f => String::from_str("3F        CMC"),
        0x40 => String::from_str("40        MOV B,B"),
        0x41 => String::from_str("41        MOV B,C"),
        0x42 => String::from_str("42        MOV B,D"),
        0x43 => String::from_str("43        MOV B,E"),
        0x44 => String::from_str("44        MOV B,H"),
        0x45 => String::from_str("45        MOV B,L"),
        0x46 => String::from_str("46        MOV B,(HL)"),
        0x47 => String::from_str("47        MOV B,A"),
        0x48 => String::from_str("48        MOV C,B"),
        0x49 => String::from_str("49        MOV C,C"),
        0x4a => String::from_str("4A        MOV C,D"),
        0x4b => String::from_str("4B        MOV C,E"),
        0x4c => String::from_str("4C        MOV C,H"),
        0x4d => String::from_str("4D        MOV C,L"),
        0x4e => String::from_str("4E        MOV C,(HL)"),
        0x4f => String::from_str("4F        MOV C,A"),
        0x50 => String::from_str("50        MOV D,B"),
        0x51 => String::from_str("51        MOV D,C"),
        0x52 => String::from_str("52        MOV D,D"),
        0x53 => String::from_str("53        MOV D,E"),
        0x54 => String::from_str("54        MOV D,H"),
        0x55 => String::from_str("55        MOV D,L"),
        0x56 => String::from_str("56        MOV D,(HL)"),
        0x57 => String::from_str("57        MOV D,A"),
        0x58 => String::from_str("58        MOV E,B"),
        0x59 => String::from_str("59        MOV E,C"),
        0x5a => String::from_str("5A        MOV E,D"),
        0x5b => String::from_str("5B        MOV E,E"),
        0x5c => String::from_str("5C        MOV E,H"),
        0x5d => String::from_str("5D        MOV E,L"),
        0x5e => String::from_str("5E        MOV E,(HL)"),
        0x5f => String::from_str("5F        MOV E,A"),
        0x60 => String::from_str("60        MOV H,B"),
        0x61 => String::from_str("61        MOV H,C"),
        0x62 => String::from_str("62        MOV H,D"),
        0x63 => String::from_str("63        MOV H,E"),
        0x64 => String::from_str("64        MOV H,H"),
        0x65 => String::from_str("65        MOV H,L"),
        0x66 => String::from_str("66        MOV H,(HL)"),
        0x67 => String::from_str("67        MOV H,A"),
        0x68 => String::from_str("68        MOV L,B"),
        0x69 => String::from_str("69        MOV L,C"),
        0x6a => String::from_str("6A        MOV L,D"),
        0x6b => String::from_str("6B        MOV L,E"),
        0x6c => String::from_str("6C        MOV L,H"),
        0x6d => String::from_str("6D        MOV L,L"),
        0x6e => String::from_str("6E        MOV L,(HL)"),
        0x6f => String::from_str("6F        MOV L,A"),
        0x70 => String::from_str("70        MOV (HL),B"),
        0x71 => String::from_str("71        MOV (HL),C"),
        0x72 => String::from_str("72        MOV (HL),D"),
        0x73 => String::from_str("73        MOV (HL),E"),
        0x74 => String::from_str("74        MOV (HL),H"),
        0x75 => String::from_str("75        MOV (HL),L"),
        0x76 => String::from_str("76        HLT"),
        0x77 => String::from_str("77        MOV (HL),A"),
        0x78 => String::from_str("78        MOV A,B"),
        0x79 => String::from_str("79        MOV A,C"),
        0x7a => String::from_str("7A        MOV A,D"),
        0x7b => String::from_str("7B        MOV A,E"),
        0x7c => String::from_str("7C        MOV A,H"),
        0x7d => String::from_str("7D        MOV A,L"),
        0x7e => String::from_str("7E        MOV A,(HL)"),
        0x7f => String::from_str("7F        MOV A,A"),
        0x80 => String::from_str("80        ADD B"),
        0x81 => String::from_str("81        ADD C"),
        0x82 => String::from_str("82        ADD D"),
        0x83 => String::from_str("83        ADD E"),
        0x84 => String::from_str("84        ADD H"),
        0x85 => String::from_str("85        ADD L"),
        0x86 => String::from_str("86        ADD (HL)"),
        0x87 => String::from_str("87        ADD A"),
        0x88 => String::from_str("88        ADC B"),
        0x89 => String::from_str("89        ADC C"),
        0x8a => String::from_str("8A        ADC D"),
        0x8b => String::from_str("8B        ADC E"),
        0x8c => String::from_str("8C        ADC H"),
        0x8d => String::from_str("8D        ADC L"),
        0x8e => String::from_str("8E        ADC (HL)"),
        0x8f => String::from_str("8F        ADC A"),
        0x90 => String::from_str("90        SUB B"),
        0x91 => String::from_str("91        SUB C"),
        0x92 => String::from_str("92        SUB D"),
        0x93 => String::from_str("93        SUB E"),
        0x94 => String::from_str("94        SUB H"),
        0x95 => String::from_str("95        SUB L"),
        0x96 => String::from_str("96        SUB (HL)"),
        0x97 => String::from_str("97        SUB A"),
        0x98 => String::from_str("98        SBB B"),
        0x99 => String::from_str("99        SBB C"),
        0x9a => String::from_str("9A        SBB D"),
        0x9b => String::from_str("9B        SBB E"),
        0x9c => String::from_str("9C        SBB H"),
        0x9d => String::from_str("9D        SBB L"),
        0x9e => String::from_str("9E        SBB (HL)"),
        0x9f => String::from_str("9F        SBB A"),
        0xa0 => String::from_str("A0        ANA B"),
        0xa1 => String::from_str("A1        ANA C"),
        0xa2 => String::from_str("A2        ANA D"),
        0xa3 => String::from_str("A3        ANA E"),
        0xa4 => String::from_str("A4        ANA H"),
        0xa5 => String::from_str("A5        ANA L"),
        0xa6 => String::from_str("A6        ANA (HL)"),
        0xa7 => String::from_str("A7        ANA A"),
        0xa8 => String::from_str("A8        XRA B"),
        0xa9 => String::from_str("A9        XRA C"),
        0xaa => String::from_str("AA        XRA D"),
        0xab => String::from_str("AB        XRA E"),
        0xac => String::from_str("AC        XRA H"),
        0xad => String::from_str("AD        XRA L"),
        0xae => String::from_str("AE        XRA (HL)"),
        0xaf => String::from_str("AF        XRA A"),
        0xb0 => String::from_str("B0        ORA B"),
        0xb1 => String::from_str("B1        ORA C"),
        0xb2 => String::from_str("B2        ORA D"),
        0xb3 => String::from_str("B3        ORA E"),
        0xb4 => String::from_str("B4        ORA H"),
        0xb5 => String::from_str("B5        ORA L"),
        0xb6 => String::from_str("B6        ORA (HL)"),
        0xb7 => String::from_str("B7        ORA A"),
        0xb8 => String::from_str("B8        CMP B"),
        0xb9 => String::from_str("B9        CMP C"),
        0xba => String::from_str("BA        CMP D"),
        0xbb => String::from_str("BB        CMP E"),
        0xbc => String::from_str("BC        CMP H"),
        0xbd => String::from_str("BD        CMP L"),
        0xbe => String::from_str("BE        CMP (HL)"),
        0xbf => String::from_str("BF        CMP A"),
        0xc0 => String::from_str("C0        RNZ"),
        0xc1 => String::from_str("C1        POP B"),
        0xc2 => {
            let b1 = bus.read_byte(address.wrapping_add(1));
            let b2 = bus.read_byte(address.wrapping_add(2));
            let mut s = String::from_str("C2 ");
            push_hex2(&mut s, b1);
            push_hex2(&mut s, b2);
            s.append("   JNZ $");
            push_hex2(&mut s, b2);
            push_hex2(&mut s, b1);
            s
        },
        0xc3 => {
            let b1 = bus.read_byte(address.wrapping_add(1));
            let b2 = bus.read_byte(address.wrapping_add(2));
            let mut s = String::from_str("C3 ");
            push_hex2(&mut s, b1);
            push_hex2(&mut s, b2);
            s.append("   JMP $");
            push_hex2(&mut s, b2);
            push_hex2(&mut s, b1);
            s
        },
        0xc4 => {
            let b1 = bus.read_byte(address.wrapping_add(1));
            let b2 = bus.read_byte(address.wrapping_add(2));
            let mut s = String::from_str("C4 ");
            push_hex2(&mut s, b1);
            push_hex2(&mut s, b2);
            s.append("   CNZ $");
            push_hex2(&mut s, b2);
            push_hex2(&mut s, b1);
            s
        },
        0xc5 => String::from_str("C5        PUSH B"),
        0xc6 => {
            let d8 = bus.read_byte(address.wrapping_add(1));
            let mut s = String::from_str("C6 ");
            push_hex2(&mut s, d8);
            s.append("     ADI $");
            push_hex2(&mut s, d8);
            s
        },
        0xc7 => String::from_str("C7        RST 0"),
        0xc8 => String::from_str("C8        RZ"),
        0xc9 => String::from_str("C9        RET"),
        0xca => {
            let b1 = bus.read_byte(address.wrapping_add(1));
            let b2 = bus.read_byte(address.wrapping_add(2));
            let mut s = String::from_str("CA ");
            push_hex2(&mut s, b1);
            push_hex2(&mut s, b2);
            s.append("   JZ $");
            push_hex2(&mut s, b2);
            push_hex2(&mut s, b1);
            s
        },
        0xcc => {
            let b1 = bus.read_byte(address.wrapping_add(1));
            let b2 = bus.read_byte(address.wrapping_add(2));
            let mut s = String::from_str("CC ");
            push_hex2(&mut s, b1);
            push_hex2(&mut s, b2);
            s.append("   CZ $");
            push_hex2(&mut s, b2);
            push_hex2(&mut s, b1);
            s
        },
        0xcd => {
            let b1 = bus.read_byte(address.wrapping_add(1));
            let b2 = bus.read_byte(address.wrapping_add(2));
            let mut s = String::from_str("CD ");
            push_hex2(&mut s, b1);
            push_hex2(&mut s, b2);
            s.append("   CALL $");
            push_hex2(&mut s, b2);
            push_hex2(&mut s, b1);
            s
        },
        0xce => {
            let d8 = bus.read_byte(address.wrapping_add(1));
            let mut s = String::from_str("CE ");
            push_hex2(&mut s, d8);
            s.append("     ACI $");
            push_hex2(&mut s, d8);
            s
        },
        0xcf => String::from_str("CF        RST 1"),
        0xd0 => String::from_str("D0        RNC"),
        0xd1 => String::from_str("D1        POP D"),
        0xd2 => {
            let b1 = bus.read_byte(address.wrapping_add(1));
            let b2 = bus.read_byte(address.wrapping_add(2));
            let mut s = String::from_str("D2 ");
            push_hex2(&mut s, b1);
            push_hex2(&mut s, b2);
            s.append("   JNC $");
            push_hex2(&mut s, b2);
            push_hex2(&mut s, b1);
            s
        },
        0xd3 => {
            let d8 = bus.read_byte(address.wrapping_add(1));
            let mut s = String::from_str("D3 ");
            push_hex2(&mut s, d8);
            s.append("     OUT $");
            push_hex2(&mut s, d8);
            s
        },
        0xd4 => {
            let b1 = bus.read_byte(address.wrapping_add(1));
            let b2 = bus.read_byte(address.wrapping_add(2));
            let mut s = String::from_str("D4 ");
            push_hex2(&mut s, b1);
            push_hex2(&mut s, b2);
            s.append("   CNC $");
            push_hex2(&mut s, b2);
            push_hex2(&mut s, b1);
            s
        },
        0xd5 => String::from_str("D5        PUSH D"),
        0xd6 => {
            let d8 = bus.read_byte(address.wrapping_add(1));
            let mut s = String::from_str("D6 ");
            push_hex2(&mut s, d8);
            s.append("     SUI $");
            push_hex2(&mut s, d8);
            s
        },
        0xd7 => String::from_str("D7        RST 2"),
        0xd8 => String::from_str("D8        RC"),
        0xda => {
            let b1 = bus.read_byte(address.wrapping_add(1));
            let b2 = bus.read_byte(address.wrapping_add(2));
            let mut s = String::from_str("DA ");
            push_hex2(&mut s, b1);
            push_hex2(&mut s, b2);
            s.append("   JC $");
            push_hex2(&mut s, b2);
            push_hex2(&mut s, b1);
            s
        },
        0xdb => {
            let d8 = bus.read_byte(address.wrapping_add(1));
            let mut s = String::from_str("DB ");
            push_hex2(&mut s, d8);
            s.append("     IN $");
            push_hex2(&mut s, d8);
            s
        },
        0xdc => {
            let b1 = bus.read_byte(address.wrapping_add(1));
            let b2 = bus.read_byte(address.wrapping_add(2));
            let mut s = String::from_str("DC ");
            push_hex2(&mut s, b1);
            push_hex2(&mut s, b2);
            s.append("   CC $");
            push_hex2(&mut s, b2);
            push_hex2(&mut s, b1);
            s
        },
        0xde => {
            let d8 = bus.read_byte(address.wrapping_add(1));
            let mut s = String::from_str("DE ");
            push_hex2(&mut s, d8);
            s.append("     SBI $");
            push_hex2(&mut s, d8);
            s
        },
        0xdf => String::from_str("DF        RST 3"),
        0xe0 => String::from_str("E0        RPO"),
        0xe1 => String::from_str("E1        POP H"),
        0xe2 => {
            let b1 = bus.read_byte(address.wrapping_add(1));
            let b2 = bus.read_byte(address.wrapping_add(2));
            let mut s = String::from_str("E2 ");
            push_hex2(&mut s, b1);
            push_hex2(&mut s, b2);
            s.append("   JPO $");
            push_hex2(&mut s, b2);
            push_hex2(&mut s, b1);
            s
        },
        0xe3 => String::from_str("E3        XTHL"),
        0xe4 => {
            let b1 = bus.read_byte(address.wrapping_add(1));
            let b2 = bus.read_byte(address.wrapping_add(2));
            let mut s = String::from_str("E4 ");
            push_hex2(&mut s, b1);
            push_hex2(&mut s, b2);
            s.append("   CPO $");
            push_hex2(&mut s, b2);
            push_hex2(&mut s, b1);
            s
        },
        0xe5 => String::from_str("E5        PUSH H"),
        0xe6 => {
            let d8 = bus.read_byte(address.wrapping_add(1));
            let mut s = String::from_str("E6 ");
            push_hex2(&mut s, d8);
            s.append("     ANI $");
            push_hex2(&mut s, d8);
            s
        },
        0xe7 => String::from_str("E7        RST 4"),
        0xe8 => String::from_str("E8        RPE"),
        0xe9 => String::from_str("addressHL"),
        0xea => {
            let b1 = bus.read_byte(address.wrapping_add(1));
            let b2 = bus.read_byte(address.wrapping_add(2));
            let mut s = String::from_str("EA ");
            push_hex2(&mut s, b1);
            push_hex2(&mut s, b2);
            s.append("   JPE $");
            push_hex2(&mut s, b2);
            push_hex2(&mut s, b1);
            s
        },
        0xeb => String::from_str("EB        XCHG"),
        0xec => {
            let b1 = bus.read_byte(address.wrapping_add(1));
            let b2 = bus.read_byte(address.wrapping_add(2));
            let mut s = String::from_str("EC ");
            push_hex2(&mut s, b1);
            push_hex2(&mut s, b2);
            s.append("   CPE $");
            push_hex2(&mut s, b2);
            push_hex2(&mut s, b1);
            s
        },
        0xee => {
            let d8 = bus.read_byte(address.wrapping_add(1));
            let mut s = String::from_str("EE ");
            push_hex2(&mut s, d8);
            s.append("     XRI $");
            push_hex2(&mut s, d8);
            s
        },
        0xef => String::from_str("EF        RST 5"),
        0xf0 => String::from_str("F0        RP"),
        0xf1 => String::from_str("F1        POP PSW"),
        0xf2 => {
            let b1 = bus.read_byte(address.wrapping_add(1));
            let b2 = bus.read_byte(address.wrapping_add(2));
            let mut s = String::from_str("F2 ");
            push_hex2(&mut s, b1);
            push_hex2(&mut s, b2);
            s.append("   JP $");
            push_hex2(&mut s, b2);
            push_hex2(&mut s, b1);
            s
        },
        0xf3 => String::from_str("F3        DI"),
        0xf4 => {
            let b1 = bus.read_byte(address.wrapping_add(1));
            let b2 = bus.read_byte(address.wrapping_add(2));
            let mut s = String::from_str("F4 ");
            push_hex2(&mut s, b1);
            push_hex2(&mut s, b2);
            s.append("   CP $");
            push_hex2(&mut s, b2);
            push_hex2(&mut s, b1);
            s
        },
        0xf5 => String::from_str("F5        PUSH PSW"),
        0xf6 => {
            let d8 = bus.read_byte(address.wrapping_add(1));
            let mut s = String::from_str("F6 ");
            push_hex2(&mut s, d8);
            s.append("     ORI $");
            push_hex2(&mut s, d8);
            s
        },
        0xf7 => String::from_str("F7        RST 6"),
        0xf8 => String::from_str("F8        RM"),
        0xf9 => String::from_str("F9        SPHL"),
        0xfa => {
            let b1 = bus.read_byte(address.wrapping_add(1));
            let b2 = bus.read_byte(address.wrapping_add(2));
            let mut s = String::from_str("FA ");
            push_hex2(&mut s, b1);
            push_hex2(&mut s, b2);
            s.append("   JM $");
            push_hex2(&mut s, b2);
            push_hex2(&mut s, b1);
            s
        },
        0xfb => String::from_str("FB        EI"),
        0xfc => {
            let b1 = bus.read_byte(address.wrapping_add(1));
            let b2 = bus.read_byte(address.wrapping_add(2));
            let mut s = String::from_str("FC ");
            push_hex2(&mut s, b1);
            push_hex2(&mut s, b2);
            s.append("   CM $");
            push_hex2(&mut s, b2);
            push_hex2(&mut s, b1);
            s
        },
        0xfe => {
            let d8 = bus.read_byte(address.wrapping_add(1));
            let mut s = String::from_str("FE ");
            push_hex2(&mut s, d8);
            s.append("     CPI $");
            push_hex2(&mut s, d8);
            s
        },
        0xff => String::from_str("FF        RST 7"),
        _ => String::new(),
    }
}

} // verus!
