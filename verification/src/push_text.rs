//! Laws of the assembler on the text of a push: the line `PUSHk 0x...`,
//! written out character by character, assembles to the opcode and the `k`
//! bytes of the operand.

use vstd::prelude::*;
use vstd::arithmetic::power2::pow2;
use crate::primitives::{be_nat, hex_digit, hex_nat};
use crate::semantics::is_opcode;
use crate::opcode_table::spec_mnemonic;
use crate::opcode::{PUSH0, PUSH1, PUSH32};
use crate::assembler::{
    is_space, skip_spaces, skip_word, line_end, line_at, is_blank, first_opcode_named, strip_0x,
    spec_asm_opcode, spec_asm_from, spec_asm, lemma_push_line_round_trip,
};

verus! {

/// The character of a decimal digit.
pub open spec fn decimal_char(d: int) -> char {
    seq!['0', '1', '2', '3', '4', '5', '6', '7', '8', '9'][d]
}

/// The mnemonic of the push of `k` bytes: `PUSH` and `k` in decimal.
pub open spec fn push_name(k: int) -> Seq<char> {
    if k < 10 {
        seq!['P', 'U', 'S', 'H', decimal_char(k)]
    } else {
        seq!['P', 'U', 'S', 'H', decimal_char(k / 10), decimal_char(k % 10)]
    }
}

/// Whether a mnemonic begins with `PUSH` and goes on.
pub open spec fn starts_with_push(name: Seq<char>) -> bool {
    name.len() >= 5 && name[0] == 'P' && name[1] == 'U' && name[2] == 'S' && name[3] == 'H'
}

/// Whether every character is a hexadecimal digit.
pub open spec fn is_hex_text(digits: Seq<char>) -> bool {
    forall|i: int| 0 <= i < digits.len() ==> (#[trigger] hex_digit(digits[i])) is Some
}

/// The line that holds the mnemonic of `op`, a space and the digits, with
/// `0x` in front of the digits if `prefixed`.
pub open spec fn push_line(op: u8, prefixed: bool, digits: Seq<char>) -> Seq<char> {
    if prefixed {
        spec_mnemonic(op) + seq![' ', '0', 'x'] + digits
    } else {
        spec_mnemonic(op) + seq![' '] + digits
    }
}

/// The mnemonics of the pushes are `PUSH0` to `PUSH32`.
pub proof fn lemma_push_names(op: u8)
    requires
        PUSH0 <= op <= PUSH32,
    ensures
        spec_mnemonic(op) == push_name(op - PUSH0),
{
    reveal_strlit("PUSH0");
    reveal_strlit("PUSH1");
    reveal_strlit("PUSH2");
    reveal_strlit("PUSH3");
    reveal_strlit("PUSH4");
    reveal_strlit("PUSH5");
    reveal_strlit("PUSH6");
    reveal_strlit("PUSH7");
    reveal_strlit("PUSH8");
    reveal_strlit("PUSH9");
    reveal_strlit("PUSH10");
    reveal_strlit("PUSH11");
    reveal_strlit("PUSH12");
    reveal_strlit("PUSH13");
    reveal_strlit("PUSH14");
    reveal_strlit("PUSH15");
    reveal_strlit("PUSH16");
    reveal_strlit("PUSH17");
    reveal_strlit("PUSH18");
    reveal_strlit("PUSH19");
    reveal_strlit("PUSH20");
    reveal_strlit("PUSH21");
    reveal_strlit("PUSH22");
    reveal_strlit("PUSH23");
    reveal_strlit("PUSH24");
    reveal_strlit("PUSH25");
    reveal_strlit("PUSH26");
    reveal_strlit("PUSH27");
    reveal_strlit("PUSH28");
    reveal_strlit("PUSH29");
    reveal_strlit("PUSH30");
    reveal_strlit("PUSH31");
    reveal_strlit("PUSH32");
    if op == 0x5f {
        assert("PUSH0"@ =~= push_name(0));
    }
    if op == 0x60 {
        assert("PUSH1"@ =~= push_name(1));
    }
    if op == 0x61 {
        assert("PUSH2"@ =~= push_name(2));
    }
    if op == 0x62 {
        assert("PUSH3"@ =~= push_name(3));
    }
    if op == 0x63 {
        assert("PUSH4"@ =~= push_name(4));
    }
    if op == 0x64 {
        assert("PUSH5"@ =~= push_name(5));
    }
    if op == 0x65 {
        assert("PUSH6"@ =~= push_name(6));
    }
    if op == 0x66 {
        assert("PUSH7"@ =~= push_name(7));
    }
    if op == 0x67 {
        assert("PUSH8"@ =~= push_name(8));
    }
    if op == 0x68 {
        assert("PUSH9"@ =~= push_name(9));
    }
    if op == 0x69 {
        assert("PUSH10"@ =~= push_name(10));
    }
    if op == 0x6a {
        assert("PUSH11"@ =~= push_name(11));
    }
    if op == 0x6b {
        assert("PUSH12"@ =~= push_name(12));
    }
    if op == 0x6c {
        assert("PUSH13"@ =~= push_name(13));
    }
    if op == 0x6d {
        assert("PUSH14"@ =~= push_name(14));
    }
    if op == 0x6e {
        assert("PUSH15"@ =~= push_name(15));
    }
    if op == 0x6f {
        assert("PUSH16"@ =~= push_name(16));
    }
    if op == 0x70 {
        assert("PUSH17"@ =~= push_name(17));
    }
    if op == 0x71 {
        assert("PUSH18"@ =~= push_name(18));
    }
    if op == 0x72 {
        assert("PUSH19"@ =~= push_name(19));
    }
    if op == 0x73 {
        assert("PUSH20"@ =~= push_name(20));
    }
    if op == 0x74 {
        assert("PUSH21"@ =~= push_name(21));
    }
    if op == 0x75 {
        assert("PUSH22"@ =~= push_name(22));
    }
    if op == 0x76 {
        assert("PUSH23"@ =~= push_name(23));
    }
    if op == 0x77 {
        assert("PUSH24"@ =~= push_name(24));
    }
    if op == 0x78 {
        assert("PUSH25"@ =~= push_name(25));
    }
    if op == 0x79 {
        assert("PUSH26"@ =~= push_name(26));
    }
    if op == 0x7a {
        assert("PUSH27"@ =~= push_name(27));
    }
    if op == 0x7b {
        assert("PUSH28"@ =~= push_name(28));
    }
    if op == 0x7c {
        assert("PUSH29"@ =~= push_name(29));
    }
    if op == 0x7d {
        assert("PUSH30"@ =~= push_name(30));
    }
    if op == 0x7e {
        assert("PUSH31"@ =~= push_name(31));
    }
    if op == 0x7f {
        assert("PUSH32"@ =~= push_name(32));
    }
}

/// No mnemonic of an opcode before the pushes begins with `PUSH`.
pub proof fn lemma_names_before_the_pushes(op: u8)
    requires
        op < PUSH0,
        is_opcode(op),
    ensures
        !starts_with_push(spec_mnemonic(op)),
{
    reveal_strlit("STOP");
    reveal_strlit("ADD");
    reveal_strlit("MUL");
    reveal_strlit("SUB");
    reveal_strlit("DIV");
    reveal_strlit("SDIV");
    reveal_strlit("MOD");
    reveal_strlit("SMOD");
    reveal_strlit("ADDMOD");
    reveal_strlit("MULMOD");
    reveal_strlit("EXP");
    reveal_strlit("SIGNEXTEND");
    reveal_strlit("LT");
    reveal_strlit("GT");
    reveal_strlit("SLT");
    reveal_strlit("SGT");
    reveal_strlit("EQ");
    reveal_strlit("ISZERO");
    reveal_strlit("AND");
    reveal_strlit("OR");
    reveal_strlit("XOR");
    reveal_strlit("NOT");
    reveal_strlit("BYTE");
    reveal_strlit("SHL");
    reveal_strlit("SHR");
    reveal_strlit("SAR");
    reveal_strlit("KECCAK256");
    reveal_strlit("ADDRESS");
    reveal_strlit("BALANCE");
    reveal_strlit("ORIGIN");
    reveal_strlit("CALLER");
    reveal_strlit("CALLVALUE");
    reveal_strlit("CALLDATALOAD");
    reveal_strlit("CALLDATASIZE");
    reveal_strlit("CALLDATACOPY");
    reveal_strlit("CODESIZE");
    reveal_strlit("CODECOPY");
    reveal_strlit("GASPRICE");
    reveal_strlit("EXTCODESIZE");
    reveal_strlit("EXTCODECOPY");
    reveal_strlit("RETURNDATASIZE");
    reveal_strlit("RETURNDATACOPY");
    reveal_strlit("EXTCODEHASH");
    reveal_strlit("BLOCKHASH");
    reveal_strlit("COINBASE");
    reveal_strlit("TIMESTAMP");
    reveal_strlit("NUMBER");
    reveal_strlit("DIFFICULTY");
    reveal_strlit("GASLIMIT");
    reveal_strlit("CHAINID");
    reveal_strlit("SELFBALANCE");
    reveal_strlit("BASEFEE");
    reveal_strlit("BLOBHASH");
    reveal_strlit("BLOBHASHFEE");
    reveal_strlit("POP");
    reveal_strlit("MLOAD");
    reveal_strlit("MSTORE");
    reveal_strlit("MSTORE8");
    reveal_strlit("SLOAD");
    reveal_strlit("SSTORE");
    reveal_strlit("JUMP");
    reveal_strlit("JUMPI");
    reveal_strlit("PC");
    reveal_strlit("MSIZE");
    reveal_strlit("GAS");
    reveal_strlit("JUMPDEST");
    reveal_strlit("TLOAD");
    reveal_strlit("TSTORE");
    reveal_strlit("MCOPY");
}

/// Two pushes of different widths have different mnemonics.
pub proof fn lemma_push_names_differ(j: int, k: int)
    requires
        0 <= j < k <= 32,
    ensures
        push_name(j) != push_name(k),
{
    if j < 10 && k < 10 {
        assert(push_name(j)[4] != push_name(k)[4]);
    } else if j < 10 {
        assert(push_name(j).len() != push_name(k).len());
    } else if j / 10 != k / 10 {
        assert(push_name(j)[4] != push_name(k)[4]);
    } else {
        assert(push_name(j)[5] != push_name(k)[5]);
    }
}

/// The first opcode with a name is the opcode that has the name, if no
/// opcode before it has it.
proof fn lemma_first_named(name: Seq<char>, from: int, op: u8)
    requires
        0 <= from <= op,
        is_opcode(op),
        spec_mnemonic(op) == name,
        forall|j: u8| from <= j < op ==> !(#[trigger] is_opcode(j) && spec_mnemonic(j) == name),
    ensures
        first_opcode_named(name, from) == Some(op),
    decreases op - from,
{
    if from < op {
        assert(!(is_opcode(from as u8) && spec_mnemonic(from as u8) == name));
        lemma_first_named(name, from + 1, op);
    }
}

/// The mnemonic of a push is found as the opcode of that push.
pub proof fn lemma_push_is_found(op: u8)
    requires
        PUSH1 <= op <= PUSH32,
    ensures
        first_opcode_named(spec_mnemonic(op), 0) == Some(op),
{
    let name = spec_mnemonic(op);
    lemma_push_names(op);
    assert forall|j: u8| 0 <= j < op implies !(#[trigger] is_opcode(j) && spec_mnemonic(j)
        == name) by {
        if is_opcode(j) {
            if j < PUSH0 {
                lemma_names_before_the_pushes(j);
            } else {
                lemma_push_names(j);
                lemma_push_names_differ(j - PUSH0, op - PUSH0);
            }
        }
    }
    lemma_first_named(name, 0, op);
}

/// A run of characters that are no white space, up to white space or the
/// end, is one word.
proof fn lemma_word_run(s: Seq<char>, i: int, e: int)
    requires
        0 <= i <= e <= s.len(),
        forall|j: int| i <= j < e ==> !is_space(#[trigger] s[j]),
        e == s.len() || is_space(s[e]),
    ensures
        skip_word(s, i) == e,
    decreases e - i,
{
    if i < e {
        lemma_word_run(s, i + 1, e);
    }
}

/// A run of characters that are no line feed, up to the end, is one line.
proof fn lemma_line_run(s: Seq<char>, i: int)
    requires
        0 <= i <= s.len(),
        forall|j: int| i <= j < s.len() ==> #[trigger] s[j] != '\n',
    ensures
        line_end(s, i) == s.len(),
    decreases s.len() - i,
{
    if i < s.len() {
        lemma_line_run(s, i + 1);
    }
}

/// The mnemonic of a push is one word.
proof fn lemma_push_name_is_a_word(op: u8)
    requires
        PUSH1 <= op <= PUSH32,
    ensures
        5 <= spec_mnemonic(op).len() <= 6,
        forall|i: int| 0 <= i < spec_mnemonic(op).len() ==> !is_space(#[trigger] spec_mnemonic(op)[i]),
{
    lemma_push_names(op);
    let k = op - PUSH0;
    assert(1 <= k <= 32);
    assert(forall|d: int| 0 <= d < 10 ==> !is_space(#[trigger] decimal_char(d)));
}

/// The words of the line of a push: the mnemonic from the start of the
/// line, and the operand from behind the space to the end of the line.
proof fn lemma_push_line_words(op: u8, prefixed: bool, digits: Seq<char>)
    requires
        PUSH1 <= op <= PUSH32,
        is_hex_text(digits),
        prefixed || digits.len() > 0,
    ensures
        ({
            let line = push_line(op, prefixed, digits);
            let n = spec_mnemonic(op).len() as int;
            &&& n + 1 < line.len()
            &&& skip_spaces(line, 0) == 0
            &&& skip_word(line, 0) == n
            &&& line.subrange(0, n) == spec_mnemonic(op)
            &&& skip_spaces(line, n) == n + 1
            &&& skip_word(line, n + 1) == line.len()
            &&& strip_0x(line.subrange(n + 1, line.len() as int)) == digits
            &&& forall|j: int| 0 <= j < line.len() ==> #[trigger] line[j] != '\n'
        }),
{
    let name = spec_mnemonic(op);
    let line = push_line(op, prefixed, digits);
    let n = name.len() as int;
    lemma_push_name_is_a_word(op);
    let operand = line.subrange(n + 1, line.len() as int);
    assert forall|j: int| 0 <= j < line.len() && j != n implies !is_space(#[trigger] line[j]) by {
        if j < n {
            assert(line[j] == name[j]);
        } else if prefixed && j < n + 3 {
        } else {
            let d = if prefixed {
                digits[j - n - 3]
            } else {
                digits[j - n - 1]
            };
            assert(line[j] == d);
            assert(hex_digit(d) is Some);
        }
    }
    assert(line[n] == ' ');
    assert(is_space(line[n]));
    assert(!is_space(line[0]));
    assert(skip_spaces(line, 0) == 0);
    lemma_word_run(line, 0, n);
    assert(line.subrange(0, n) =~= name);
    assert(!is_space(line[n + 1]));
    assert(skip_spaces(line, n + 1) == n + 1);
    assert(skip_spaces(line, n) == n + 1);
    lemma_word_run(line, n + 1, line.len() as int);
    if prefixed {
        assert(operand =~= seq!['0', 'x'] + digits);
        assert(operand.skip(2) =~= digits);
    } else {
        assert(operand =~= digits);
        if digits.len() >= 2 {
            assert(hex_digit(digits[1]) is Some);
        }
    }
    assert forall|j: int| 0 <= j < line.len() implies #[trigger] line[j] != '\n' by {
        if j != n {
            assert(!is_space(line[j]));
        }
    }
}

/// The text of a push round-trips.  For every `k` from 1 to 32 and every
/// number below 2^(8 k), written in hexadecimal digits with or without `0x`
/// in front: the line `PUSHk`, a space and the number assembles to `k + 1`
/// bytes, the opcode of `PUSHk` and `k` bytes that spell the number out,
/// most significant byte first.
pub proof fn lemma_push_text_round_trip(op: u8, prefixed: bool, digits: Seq<char>, x: nat)
    requires
        PUSH1 <= op <= PUSH32,
        is_hex_text(digits),
        prefixed || digits.len() > 0,
        hex_nat(digits) == Some(x),
        x < pow2((8 * (op - PUSH1 + 1)) as nat),
    ensures
        spec_asm_opcode(push_line(op, prefixed, digits)) is Some,
        spec_asm_opcode(push_line(op, prefixed, digits))->0.len() == op - PUSH1 + 2,
        spec_asm_opcode(push_line(op, prefixed, digits))->0[0] == op,
        be_nat(spec_asm_opcode(push_line(op, prefixed, digits))->0.skip(1)) == x,
{
    let line = push_line(op, prefixed, digits);
    lemma_push_line_words(op, prefixed, digits);
    lemma_push_is_found(op);
    lemma_push_line_round_trip(line, op, x);
}

/// The listing that holds the line of a push alone assembles to the bytes
/// of that line.
pub proof fn lemma_push_listing_round_trip(op: u8, prefixed: bool, digits: Seq<char>, x: nat)
    requires
        PUSH1 <= op <= PUSH32,
        is_hex_text(digits),
        prefixed || digits.len() > 0,
        hex_nat(digits) == Some(x),
        x < pow2((8 * (op - PUSH1 + 1)) as nat),
    ensures
        spec_asm(push_line(op, prefixed, digits)) == Ok::<Seq<u8>, Seq<char>>(
            spec_asm_opcode(push_line(op, prefixed, digits))->0,
        ),
{
    let line = push_line(op, prefixed, digits);
    lemma_push_line_words(op, prefixed, digits);
    lemma_push_text_round_trip(op, prefixed, digits, x);
    lemma_line_run(line, 0);
    assert(line_at(line, 0, line.len() as int) =~= line);
    assert(!is_blank(line));
    let bytes = spec_asm_opcode(line)->0;
    assert(bytes + Seq::<u8>::empty() =~= bytes);
    assert(spec_asm_from(line, line.len() as int + 1) == Ok::<Seq<u8>, Seq<char>>(Seq::empty()));
}

} // verus!
