//! The assembler: from a listing of mnemonics, one instruction to a line,
//! to the bytes of the code.
//!
//! A line holds a mnemonic and, for `PUSH1` to `PUSH32`, one operand in
//! hexadecimal, with or without `0x` in front.  Lines are separated by line
//! feeds; white space separates the words of a line; empty lines are
//! passed over.

use vstd::prelude::*;
use vstd::std_specs::iter::IteratorSpec;
use vstd::arithmetic::power2::{
    pow2, lemma_pow2_pos, lemma_pow2_adds, lemma_pow2_strictly_increases, lemma2_to64,
};
use vstd::arithmetic::div_mod::{
    lemma_fundamental_div_mod, lemma_fundamental_div_mod_converse, lemma_div_denominator,
    lemma_mod_bound,
};
use crate::word::{Word, modulus};
use crate::arith::lemma_pow2_256;
use crate::primitives::{be_nat, hex_nat, u256_from_hex, u256_to_be_bytes};
use crate::mem::{word_bytes, lemma_word_bytes};
use crate::error::EVMError;
use crate::semantics::is_opcode;
use crate::opcode_table::{opcode_name, spec_mnemonic};
use crate::opcode::{PUSH1, PUSH32};

verus! {

/// Whether a character is white space.
pub open spec fn is_space(c: char) -> bool {
    let u = c as u32;
    ||| 0x09 <= u <= 0x0d
    ||| u == 0x20
    ||| u == 0x85
    ||| u == 0xa0
    ||| u == 0x1680
    ||| 0x2000 <= u <= 0x200a
    ||| u == 0x2028
    ||| u == 0x2029
    ||| u == 0x202f
    ||| u == 0x205f
    ||| u == 0x3000
}

/// The first place from `i` on that holds no white space, or the end.
pub open spec fn skip_spaces(s: Seq<char>, i: int) -> int
    decreases s.len() - i,
{
    if 0 <= i < s.len() && is_space(s[i]) {
        skip_spaces(s, i + 1)
    } else {
        i
    }
}

/// The first place from `i` on that holds white space, or the end.
pub open spec fn skip_word(s: Seq<char>, i: int) -> int
    decreases s.len() - i,
{
    if 0 <= i < s.len() && !is_space(s[i]) {
        skip_word(s, i + 1)
    } else {
        i
    }
}

/// The first place from `i` on that holds a line feed, or the end.
pub open spec fn line_end(s: Seq<char>, i: int) -> int
    decreases s.len() - i,
{
    if 0 <= i < s.len() && s[i] != '\n' {
        line_end(s, i + 1)
    } else {
        i
    }
}

/// Whether a line holds nothing but white space.
pub open spec fn is_blank(line: Seq<char>) -> bool {
    skip_spaces(line, 0) >= line.len()
}

/// The first opcode from `from` on that has the mnemonic `name`.
pub open spec fn first_opcode_named(name: Seq<char>, from: int) -> Option<u8>
    decreases 256 - from,
{
    if from < 0 || from >= 256 {
        None
    } else if is_opcode(from as u8) && spec_mnemonic(from as u8) == name {
        Some(from as u8)
    } else {
        first_opcode_named(name, from + 1)
    }
}

/// An operand without the `0x` that may stand in front of it.
pub open spec fn strip_0x(s: Seq<char>) -> Seq<char> {
    if s.len() >= 2 && s[0] == '0' && s[1] == 'x' {
        s.skip(2)
    } else {
        s
    }
}

/// Whether a word fits in `k` bytes: the bytes before its last `k` bytes
/// are all 0.
pub open spec fn fits(w: Word, k: int) -> bool {
    forall|i: int| 0 <= i < 32 - k ==> word_bytes(w)[i] == 0
}

/// The last `k` bytes of a word.
pub open spec fn immediate_bytes(w: Word, k: int) -> Seq<u8> {
    word_bytes(w).subrange(32 - k, 32)
}

/// The bytes of a `PUSHk` instruction with the operand `operand`, or `None`
/// where the operand is no hexadecimal number or does not fit in `k` bytes.
pub open spec fn spec_push_bytes(op: u8, operand: Seq<char>) -> Option<Seq<u8>> {
    let k = op - PUSH1 + 1;
    match hex_nat(strip_0x(operand)) {
        None => None,
        Some(v) => if v < modulus() && fits(crate::word::word_of(v), k) {
            Some(seq![op] + immediate_bytes(crate::word::word_of(v), k))
        } else {
            None
        },
    }
}

/// The bytes of the instruction on a line, or `None` where the line cannot
/// be assembled: it is blank, its first word is no mnemonic, or it is a
/// push without an operand or with an operand that is not a hexadecimal
/// number of at most `k` bytes.
pub open spec fn spec_asm_opcode(line: Seq<char>) -> Option<Seq<u8>> {
    let a = skip_spaces(line, 0);
    let b = skip_word(line, a);
    if a >= line.len() {
        None
    } else {
        match first_opcode_named(line.subrange(a, b), 0) {
            None => None,
            Some(op) => if PUSH1 <= op <= PUSH32 {
                let c = skip_spaces(line, b);
                let d = skip_word(line, c);
                if c >= line.len() {
                    None
                } else {
                    spec_push_bytes(op, line.subrange(c, d))
                }
            } else {
                Some(seq![op])
            },
        }
    }
}

/// The line that starts at `i` and ends before `e`, without the carriage
/// return that may stand before the line feed.
pub open spec fn line_at(s: Seq<char>, i: int, e: int) -> Seq<char> {
    if e < s.len() && i < e && s[e - 1] == '\r' {
        s.subrange(i, e - 1)
    } else {
        s.subrange(i, e)
    }
}

/// The bytes of the listing from place `i` on, or the first line that
/// cannot be assembled.
pub open spec fn spec_asm_from(s: Seq<char>, i: int) -> Result<Seq<u8>, Seq<char>>
    decreases s.len() + 1 - i,
{
    if i < 0 || i >= s.len() {
        Ok(Seq::empty())
    } else {
        let e = line_end(s, i);
        let line = line_at(s, i, e);
        if e < i || e > s.len() {
            Ok(Seq::empty())
        } else if is_blank(line) {
            spec_asm_from(s, e + 1)
        } else {
            match spec_asm_opcode(line) {
                None => Err(line),
                Some(bytes) => match spec_asm_from(s, e + 1) {
                    Ok(rest) => Ok(bytes + rest),
                    Err(bad) => Err(bad),
                },
            }
        }
    }
}

/// The bytes of a listing, or the first line that cannot be assembled.
pub open spec fn spec_asm(s: Seq<char>) -> Result<Seq<u8>, Seq<char>> {
    spec_asm_from(s, 0)
}

/// Whether a character is white space.
pub fn is_space_char(c: char) -> (r: bool)
    ensures
        r == is_space(c),
{
    let u: u32 = c as u32;
    (0x09 <= u && u <= 0x0d) || u == 0x20 || u == 0x85 || u == 0xa0 || u == 0x1680 || (0x2000 <= u
        && u <= 0x200a) || u == 0x2028 || u == 0x2029 || u == 0x202f || u == 0x205f || u == 0x3000
}

/// The characters of a string.
pub fn chars_of(text: &str) -> (r: Vec<char>)
    ensures
        r@ == text@,
{
    let mut out: Vec<char> = Vec::new();
    let mut it = text.chars();
    let ghost total = text@;
    proof {
        vstd::string::axiom_spec_iter(text);
    }
    loop
        invariant
            it.obeys_prophetic_iter_laws(),
            it.decrease() is Some,
            out@ + it.remaining() == total,
        ensures
            out@ == total,
        decreases it.decrease()->0,
    {
        let ghost before = it;
        match it.next() {
            Some(c) => {
                proof {
                    vstd::string::next_postcondition(&before, &it, Some(c));
                    assert(out@.push(c) + it.remaining() =~= out@ + before.remaining());
                }
                out.push(c);
            },
            None => {
                proof {
                    vstd::string::next_postcondition(&before, &it, None);
                    assert(out@ + it.remaining() =~= out@);
                }
                break ;
            },
        }
    }
    out
}

/// The first place from `i` on that holds no white space, or the end.
fn scan_spaces(line: &[char], i: usize) -> (r: usize)
    requires
        i <= line@.len(),
    ensures
        r == skip_spaces(line@, i as int),
        i <= r <= line@.len(),
{
    let mut j: usize = i;
    while j < line.len() && is_space_char(line[j])
        invariant
            i <= j <= line@.len(),
            skip_spaces(line@, i as int) == skip_spaces(line@, j as int),
        decreases line@.len() - j,
    {
        j = j + 1;
    }
    j
}

/// The first place from `i` on that holds white space, or the end.
fn scan_word(line: &[char], i: usize) -> (r: usize)
    requires
        i <= line@.len(),
    ensures
        r == skip_word(line@, i as int),
        i <= r <= line@.len(),
{
    let mut j: usize = i;
    while j < line.len() && !is_space_char(line[j])
        invariant
            i <= j <= line@.len(),
            skip_word(line@, i as int) == skip_word(line@, j as int),
        decreases line@.len() - j,
    {
        j = j + 1;
    }
    j
}

/// The first place from `i` on that holds a line feed, or the end.
fn scan_line(text: &[char], i: usize) -> (r: usize)
    requires
        i <= text@.len(),
    ensures
        r == line_end(text@, i as int),
        i <= r <= text@.len(),
{
    let mut j: usize = i;
    while j < text.len() && text[j] != '\n'
        invariant
            i <= j <= text@.len(),
            line_end(text@, i as int) == line_end(text@, j as int),
        decreases text@.len() - j,
    {
        j = j + 1;
    }
    j
}

/// Whether two strings of characters are the same.
fn same_chars(a: &[char], b: &[char]) -> (r: bool)
    ensures
        r == (a@ == b@),
{
    if a.len() != b.len() {
        return false;
    }
    let mut i: usize = 0;
    while i < a.len()
        invariant
            i <= a@.len(),
            a@.len() == b@.len(),
            forall|j: int| 0 <= j < i ==> a@[j] == b@[j],
        decreases a@.len() - i,
    {
        if a[i] != b[i] {
            return false;
        }
        i = i + 1;
    }
    assert(a@ =~= b@);
    true
}

/// The bytes of a `PUSHk` instruction that pushes `value`, or `None` where
/// the value does not fit in `k` bytes.
pub fn push_instruction(op: u8, value: Word) -> (r: Option<Vec<u8>>)
    requires
        PUSH1 <= op <= PUSH32,
    ensures
        r is Some <==> fits(value, op - PUSH1 + 1),
        r matches Some(bytes) ==> bytes@ == seq![op] + immediate_bytes(value, op - PUSH1 + 1),
{
    let k: usize = (op - PUSH1) as usize + 1;
    let full = u256_to_be_bytes(value);
    proof {
        lemma_word_bytes(value, full@);
    }
    let mut i: usize = 0;
    while i < 32 - k
        invariant
            i <= 32 - k,
            1 <= k <= 32,
            k == op - PUSH1 + 1,
            full@ == word_bytes(value),
            forall|j: int| 0 <= j < i ==> full@[j] == 0,
        decreases 32 - k - i,
    {
        if full[i] != 0 {
            assert(word_bytes(value)[i as int] != 0);
            return None;
        }
        i = i + 1;
    }
    let mut bytes: Vec<u8> = Vec::new();
    bytes.push(op);
    let mut j: usize = 32 - k;
    while j < 32
        invariant
            32 - k <= j <= 32,
            1 <= k <= 32,
            full@.len() == 32,
            bytes@ == seq![op] + full@.subrange(32 - k, j as int),
        decreases 32 - j,
    {
        bytes.push(full[j]);
        assert(bytes@ =~= seq![op] + full@.subrange(32 - k, j + 1));
        j = j + 1;
    }
    Some(bytes)
}

/// The assembler.  It holds the mnemonic of every opcode.
pub struct Assembler {
    names: Vec<Option<Vec<char>>>,
}

impl Assembler {
    /// The table holds, for every byte, the mnemonic of that opcode.
    #[verifier::type_invariant]
    spec fn inv(self) -> bool {
        &&& self.names@.len() == 256
        &&& forall|op: int|
            0 <= op < 256 ==> (#[trigger] self.names@[op] is Some <==> is_opcode(op as u8))
        &&& forall|op: int|
            0 <= op < 256 && self.names@[op] is Some ==> (#[trigger] self.names@[op])->0@
                == spec_mnemonic(op as u8)
    }

    /// An assembler for the opcodes of the opcode table.
    pub fn new() -> (r: Self) {
        let mut names: Vec<Option<Vec<char>>> = Vec::new();
        let mut op: usize = 0;
        while op < 256
            invariant
                op <= 256,
                names@.len() == op,
                forall|i: int| 0 <= i < op ==> (#[trigger] names@[i] is Some <==> is_opcode(i as u8)),
                forall|i: int|
                    0 <= i < op && names@[i] is Some ==> (#[trigger] names@[i])->0@ == spec_mnemonic(
                        i as u8,
                    ),
            decreases 256 - op,
        {
            let entry: Option<Vec<char>> = match opcode_name(op as u8) {
                Some(name) => Some(chars_of(name)),
                None => None,
            };
            names.push(entry);
            op = op + 1;
        }
        Assembler { names }
    }

    /// The opcode with the mnemonic `name`.
    fn opcode_named(&self, name: &[char]) -> (r: Option<u8>)
        ensures
            r == first_opcode_named(name@, 0),
    {
        proof {
            use_type_invariant(self);
        }
        let mut op: usize = 0;
        while op < 256
            invariant
                op <= 256,
                self.inv(),
                first_opcode_named(name@, 0) == first_opcode_named(name@, op as int),
            decreases 256 - op,
        {
            match &self.names[op] {
                Some(known) => {
                    if same_chars(known.as_slice(), name) {
                        return Some(op as u8);
                    }
                },
                None => {},
            }
            op = op + 1;
        }
        None
    }

    /// Assembles the instruction on one line.
    fn asm_chars(&self, line: &[char]) -> (r: Option<Vec<u8>>)
        ensures
            r is Some <==> spec_asm_opcode(line@) is Some,
            r matches Some(bytes) ==> spec_asm_opcode(line@) == Some(bytes@),
    {
        let a: usize = scan_spaces(line, 0);
        if a >= line.len() {
            return None;
        }
        let b: usize = scan_word(line, a);
        let op: u8 = match self.opcode_named(vstd::slice::slice_subrange(line, a, b)) {
            Some(op) => op,
            None => {
                return None;
            },
        };
        if op >= PUSH1 && op <= PUSH32 {
            let c: usize = scan_spaces(line, b);
            if c >= line.len() {
                return None;
            }
            let d: usize = scan_word(line, c);
            let operand = vstd::slice::slice_subrange(line, c, d);
            let digits = if operand.len() >= 2 && operand[0] == '0' && operand[1] == 'x' {
                let rest = vstd::slice::slice_subrange(operand, 2, operand.len());
                rest
            } else {
                operand
            };
            match u256_from_hex(digits) {
                Ok(value) => {
                    proof {
                        crate::word::lemma_word_of_view(value);
                    }
                    push_instruction(op, value)
                },
                Err(_) => None,
            }
        } else {
            let mut bytes: Vec<u8> = Vec::new();
            bytes.push(op);
            assert(bytes@ =~= seq![op]);
            Some(bytes)
        }
    }

    /// Assembles the instruction on one line.  The error holds the line.
    pub fn asm_opcode(&self, opcode: &str) -> (r: Result<Vec<u8>, EVMError>)
        ensures
            r is Ok <==> spec_asm_opcode(opcode@) is Some,
            r matches Ok(bytes) ==> spec_asm_opcode(opcode@) == Some(bytes@),
            r matches Err(e) ==> e matches EVMError::InvalidAsmToken(line) && line@ == opcode@,
    {
        let chars = chars_of(opcode);
        match self.asm_chars(chars.as_slice()) {
            Some(bytes) => Ok(bytes),
            None => Err(EVMError::InvalidAsmToken(opcode.to_owned())),
        }
    }

    /// Assembles a listing.  The error holds the first line that cannot be
    /// assembled.
    pub fn assemble(&self, opcode: &str) -> (r: Result<Vec<u8>, EVMError>)
        ensures
            r is Ok <==> spec_asm(opcode@) is Ok,
            r matches Ok(bytes) ==> spec_asm(opcode@) == Ok::<Seq<u8>, Seq<char>>(bytes@),
            r matches Err(e) ==> e matches EVMError::InvalidAsmToken(line) && spec_asm(opcode@) == Err::<
                Seq<u8>,
                Seq<char>,
            >(line@),
    {
        let chars = chars_of(opcode);
        let text = chars.as_slice();
        let mut bytes: Vec<u8> = Vec::new();
        let mut i: usize = 0;
        assert(Seq::<u8>::empty() + Seq::<u8>::empty() =~= Seq::<u8>::empty());
        while i < text.len()
            invariant
                i <= text@.len(),
                text@ == opcode@,
                spec_asm(opcode@) == (match spec_asm_from(text@, i as int) {
                    Ok(rest) => Ok::<Seq<u8>, Seq<char>>(bytes@ + rest),
                    Err(bad) => Err::<Seq<u8>, Seq<char>>(bad),
                }),
            decreases text@.len() - i,
        {
            let e: usize = scan_line(text, i);
            let end: usize = if e < text.len() && i < e && text[e - 1] == '\r' {
                e - 1
            } else {
                e
            };
            let line = vstd::slice::slice_subrange(text, i, end);
            let ghost before = bytes@;
            if scan_spaces(line, 0) < line.len() {
                match self.asm_chars(line) {
                    Some(code) => {
                        let mut j: usize = 0;
                        while j < code.len()
                            invariant
                                j <= code@.len(),
                                bytes@ == before + code@.subrange(0, j as int),
                            decreases code@.len() - j,
                        {
                            bytes.push(code[j]);
                            assert(bytes@ =~= before + code@.subrange(0, j + 1));
                            j = j + 1;
                        }
                        assert(code@.subrange(0, code@.len() as int) =~= code@);
                        proof {
                            match spec_asm_from(text@, e + 1) {
                                Ok(rest) => {
                                    assert((before + code@) + rest =~= before + (code@ + rest));
                                },
                                Err(_) => {},
                            }
                        }
                    },
                    None => {
                        let bad = opcode.substring_char(i, end);
                        return Err(EVMError::InvalidAsmToken(bad.to_owned()));
                    },
                }
            }
            i = if e < text.len() {
                e + 1
            } else {
                e
            };
        }
        proof {
            assert(bytes@ + Seq::<u8>::empty() =~= bytes@);
        }
        Ok(bytes)
    }
}

/// Before the `j`-th byte of a word stands the number made of the bits
/// above that byte.
proof fn lemma_word_bytes_prefix(w: Word, j: int)
    requires
        0 <= j <= 32,
    ensures
        be_nat(word_bytes(w).take(j)) == w@ / pow2((8 * (32 - j)) as nat),
    decreases j,
{
    let s = word_bytes(w).take(j);
    lemma_pow2_256();
    if j == 0 {
        lemma_fundamental_div_mod_converse(w@ as int, modulus() as int, 0, w@ as int);
    } else {
        lemma_word_bytes_prefix(w, j - 1);
        assert(s.drop_last() =~= word_bytes(w).take(j - 1));
        let low = pow2((8 * (32 - j)) as nat);
        let high = pow2((8 * (32 - (j - 1))) as nat);
        lemma2_to64();
        lemma_pow2_pos((8 * (32 - j)) as nat);
        lemma_pow2_adds((8 * (32 - j)) as nat, 8);
        assert(high == low * 256);
        let y = w@ / low;
        lemma_div_denominator(w@ as int, low as int, 256);
        assert(y / 256 == w@ / high);
        lemma_fundamental_div_mod(y as int, 256);
        assert(s.last() == ((w@ / low) % 256) as u8);
        lemma_mod_bound(y as int, 256);
    }
}

/// The bytes of a word spell the word out.
pub proof fn lemma_be_nat_word_bytes(w: Word)
    ensures
        be_nat(word_bytes(w)) == w@,
{
    lemma_word_bytes_prefix(w, 32);
    assert(word_bytes(w).take(32) =~= word_bytes(w));
    lemma2_to64();
    assert(pow2(0) == 1);
    assert(w@ / 1 == w@);
}

/// Zero bytes in front do not change the number that bytes spell out.
pub proof fn lemma_be_nat_leading_zeros(s: Seq<u8>, n: int)
    requires
        0 <= n <= s.len(),
        forall|i: int| 0 <= i < n ==> s[i] == 0,
    ensures
        be_nat(s) == be_nat(s.subrange(n, s.len() as int)),
    decreases s.len(),
{
    let t = s.subrange(n, s.len() as int);
    if s.len() == n {
        assert(t =~= Seq::<u8>::empty());
        if n > 0 {
            lemma_be_nat_leading_zeros(s.drop_last(), n - 1);
            assert(s.drop_last().subrange(n - 1, n - 1) =~= Seq::<u8>::empty());
        }
    } else {
        lemma_be_nat_leading_zeros(s.drop_last(), n);
        assert(t.drop_last() =~= s.drop_last().subrange(n, s.len() - 1));
        assert(t.last() == s.last());
    }
}

/// A word below 2^(8 k) fits in `k` bytes.
pub proof fn lemma_small_word_fits(w: Word, k: int)
    requires
        1 <= k <= 32,
        w@ < pow2((8 * k) as nat),
    ensures
        fits(w, k),
{
    assert forall|i: int| 0 <= i < 32 - k implies word_bytes(w)[i] == 0 by {
        let e = (8 * (31 - i)) as nat;
        if e > 8 * k {
            lemma_pow2_strictly_increases((8 * k) as nat, e);
        }
        lemma_pow2_pos(e);
        lemma_fundamental_div_mod_converse(w@ as int, pow2(e) as int, 0, w@ as int);
    }
}

/// A push instruction round-trips: for an operand that spells a number
/// below 2^(8 k), the line `PUSHk operand` gives the opcode followed by `k`
/// bytes that spell the same number.
pub proof fn lemma_push_round_trip(op: u8, operand: Seq<char>, x: nat)
    requires
        PUSH1 <= op <= PUSH32,
        hex_nat(strip_0x(operand)) == Some(x),
        x < pow2((8 * (op - PUSH1 + 1)) as nat),
    ensures
        spec_push_bytes(op, operand) is Some,
        spec_push_bytes(op, operand)->0.len() == op - PUSH1 + 2,
        spec_push_bytes(op, operand)->0[0] == op,
        be_nat(spec_push_bytes(op, operand)->0.skip(1)) == x,
{
    let k = op - PUSH1 + 1;
    lemma_pow2_256();
    if 8 * k < 256 {
        lemma_pow2_strictly_increases((8 * k) as nat, 256);
    }
    let w = crate::word::word_of(x);
    crate::word::lemma_view_word_of(x);
    lemma_small_word_fits(w, k);
    lemma_be_nat_word_bytes(w);
    lemma_be_nat_leading_zeros(word_bytes(w), 32 - k);
    let bytes = spec_push_bytes(op, operand)->0;
    assert(bytes.skip(1) =~= immediate_bytes(w, k));
}

/// A line with a push round-trips: where the first word of a line is the
/// mnemonic of `PUSHk` and the second word spells a number below 2^(8 k),
/// the line gives the opcode followed by `k` bytes that spell the same
/// number.
pub proof fn lemma_push_line_round_trip(line: Seq<char>, op: u8, x: nat)
    requires
        PUSH1 <= op <= PUSH32,
        !is_blank(line),
        first_opcode_named(
            line.subrange(skip_spaces(line, 0), skip_word(line, skip_spaces(line, 0))),
            0,
        ) == Some(op),
        skip_spaces(line, skip_word(line, skip_spaces(line, 0))) < line.len(),
        hex_nat(
            strip_0x(
                line.subrange(
                    skip_spaces(line, skip_word(line, skip_spaces(line, 0))),
                    skip_word(line, skip_spaces(line, skip_word(line, skip_spaces(line, 0)))),
                ),
            ),
        ) == Some(x),
        x < pow2((8 * (op - PUSH1 + 1)) as nat),
    ensures
        spec_asm_opcode(line) is Some,
        spec_asm_opcode(line)->0.len() == op - PUSH1 + 2,
        spec_asm_opcode(line)->0[0] == op,
        be_nat(spec_asm_opcode(line)->0.skip(1)) == x,
{
    let b = skip_word(line, skip_spaces(line, 0));
    let c = skip_spaces(line, b);
    let d = skip_word(line, c);
    lemma_push_round_trip(op, line.subrange(c, d), x);
}

} // verus!
