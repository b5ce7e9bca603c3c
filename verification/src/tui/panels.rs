//! The text of the panels: the registers, the stack window, and the listing
//! of instructions.

use vstd::prelude::*;
use vstd::slice::slice_subrange;
use vstd::string::StringExecFns;
use iced_x86::{Decoder, DecoderOptions, Formatter, NasmFormatter};
use crate::debugger::subordinate::Subordinate;
use crate::debugger::Registers;
use crate::tui::push_char;

verus! {

/// The lower-case hexadecimal digit of a value below sixteen.
pub open spec fn hex_char(value: nat) -> char {
    if value < 10 {
        ('0' as nat + value) as char
    } else {
        ('a' as nat + value - 10) as char
    }
}

/// The hexadecimal digits of a number, without leading zeros; one zero for
/// the number zero.
pub open spec fn hex_digits(value: nat) -> Seq<char>
    decreases value,
{
    if value < 16 {
        seq![hex_char(value)]
    } else {
        hex_digits(value / 16).push(hex_char(value % 16))
    }
}

/// A number in lower-case hexadecimal digits, with zeros in front wherever
/// the digits are fewer than `width`.
pub open spec fn lower_hex_text(value: u64, width: nat) -> Seq<char> {
    let digits = hex_digits(value as nat);
    if digits.len() >= width {
        digits
    } else {
        Seq::new((width - digits.len()) as nat, |i: int| '0') + digits
    }
}

/// The lower-case hexadecimal digit of a value below sixteen.
pub fn digit_char(value: u8) -> (r: char)
    requires
        value < 16,
    ensures
        r == hex_char(value as nat),
{
    if value < 10 {
        (0x30 + value) as char
    } else {
        (0x61 + (value - 10)) as char
    }
}

/// Writes a number in lower-case hexadecimal digits, with zeros in front
/// wherever the digits are fewer than `width`.
pub fn lower_hex(value: u64, width: usize) -> (r: String)
    ensures
        r@ == lower_hex_text(value, width as nat),
{
    let mut lowest_first: Vec<char> = Vec::new();
    let mut rest: u64 = value;
    while rest >= 16
        invariant
            hex_digits(value as nat) == hex_digits(rest as nat) + lowest_first@.reverse(),
        decreases rest,
    {
        let digit = digit_char((rest % 16) as u8);
        proof {
            assert(lowest_first@.push(digit).reverse() =~= seq![digit] + lowest_first@.reverse());
            assert(hex_digits(rest as nat) =~= hex_digits((rest / 16) as nat) + seq![digit]);
        }
        lowest_first.push(digit);
        rest = rest / 16;
    }
    let digit = digit_char(rest as u8);
    proof {
        assert(lowest_first@.push(digit).reverse() =~= seq![digit] + lowest_first@.reverse());
        assert(hex_digits(rest as nat) =~= seq![digit]);
    }
    lowest_first.push(digit);
    let ghost digits = lowest_first@.reverse();
    assert(digits =~= hex_digits(value as nat));
    let mut text = String::new();
    let mut length: usize = lowest_first.len();
    while length < width
        invariant
            lowest_first@.len() <= length,
            length == lowest_first@.len() || length <= width,
            text@ == Seq::new((length - lowest_first@.len()) as nat, |i: int| '0'),
        decreases width - length,
    {
        push_char(&mut text, '0');
        length += 1;
        assert(text@ =~= Seq::new((length - lowest_first@.len()) as nat, |i: int| '0'));
    }
    let ghost zeros = text@;
    let mut index: usize = lowest_first.len();
    while index > 0
        invariant
            index <= lowest_first@.len(),
            digits == lowest_first@.reverse(),
            text@ == zeros + digits.take(lowest_first@.len() - index),
        decreases index,
    {
        index -= 1;
        push_char(&mut text, lowest_first[index]);
        assert(text@ =~= zeros + digits.take(lowest_first@.len() - index));
    }
    assert(digits.take(lowest_first@.len() as int) =~= digits);
    assert(digits.len() == lowest_first@.len());
    assert(text@ =~= lower_hex_text(value, width as nat));
    text
}

/// A line of a panel: a name, the value in hexadecimal digits, a line feed.
pub open spec fn value_line(name: Seq<char>, value: u64) -> Seq<char> {
    name + ": 0x"@ + lower_hex_text(value, 0) + "\n"@
}

/// The text of the registers panel.
pub open spec fn registers_text(registers: Registers) -> Seq<char> {
    value_line("rip"@, registers.rip) + value_line("rsp"@, registers.rsp) + value_line(
        "rbp"@,
        registers.rbp,
    ) + value_line("rax"@, registers.rax) + value_line("rbx"@, registers.rbx) + value_line(
        "rcx"@,
        registers.rcx,
    ) + value_line("rdx"@, registers.rdx) + value_line("rdi"@, registers.rdi) + value_line(
        "rsi"@,
        registers.rsi,
    )
}

/// Appends a line of a panel.
fn push_value_line(panel: &mut String, name: &str, value: u64)
    ensures
        final(panel)@ == old(panel)@ + value_line(name@, value),
{
    let digits = lower_hex(value, 0);
    panel.append(name);
    panel.append(": 0x");
    panel.append(digits.as_str());
    panel.append("\n");
    assert(panel@ =~= old(panel)@ + value_line(name@, value));
}

/// The text of the registers panel: the program counter, the stack pointer,
/// the frame pointer and six more registers, one to a line.
pub fn registers(subordinate: &Subordinate) -> (r: String)
    ensures
        r@ == registers_text(subordinate@.registers),
{
    let registers = subordinate.registers();
    let mut panel = String::new();
    push_value_line(&mut panel, "rip", registers.rip);
    push_value_line(&mut panel, "rsp", registers.rsp);
    push_value_line(&mut panel, "rbp", registers.rbp);
    push_value_line(&mut panel, "rax", registers.rax);
    push_value_line(&mut panel, "rbx", registers.rbx);
    push_value_line(&mut panel, "rcx", registers.rcx);
    push_value_line(&mut panel, "rdx", registers.rdx);
    push_value_line(&mut panel, "rdi", registers.rdi);
    push_value_line(&mut panel, "rsi", registers.rsi);
    assert(panel@ =~= registers_text(subordinate@.registers));
    panel
}

/// The address of the word `index` words above the stack pointer, within
/// the address space.
pub open spec fn stack_address(rsp: u64, index: int) -> u64 {
    rsp.wrapping_add((8 * index) as u64)
}

/// The text of the stack panel for the first `count` words of the window.
pub open spec fn stack_text(rsp: u64, words: Seq<u64>, count: nat) -> Seq<char>
    decreases count,
{
    if count == 0 {
        Seq::empty()
    } else {
        stack_text(rsp, words, (count - 1) as nat) + "0x"@ + value_line(
            lower_hex_text(stack_address(rsp, count - 1), 0),
            words[count - 1],
        )
    }
}

/// The text of the stack panel: each word of the window with its address,
/// one to a line.
pub fn stack(subordinate: &Subordinate) -> (r: String)
    requires
        subordinate@.wf(),
    ensures
        r@ == stack_text(
            subordinate@.registers.rsp,
            subordinate@.stack,
            subordinate@.stack.len(),
        ),
{
    let rsp: u64 = subordinate.registers().rsp;
    let words = subordinate.stack();
    let mut panel = String::new();
    let mut index: usize = 0;
    while index < words.len()
        invariant
            index <= words@.len(),
            words@.len() <= 16,
            panel@ == stack_text(rsp, words@, index as nat),
        decreases words@.len() - index,
    {
        let address = lower_hex(rsp.wrapping_add(8 * (index as u64)), 0);
        panel.append("0x");
        push_value_line(&mut panel, address.as_str(), words[index]);
        index += 1;
        assert(panel@ =~= stack_text(rsp, words@, index as nat));
    }
    panel
}

/// The number of bytes that the first instruction of `code` takes when it is
/// decoded in 64-bit mode at the address `ip`.
pub uninterp spec fn decoded_length(code: Seq<u8>, ip: u64) -> nat;

/// The text of the first instruction of `code`, decoded in 64-bit mode at the
/// address `ip`, in the syntax of nasm.
pub uninterp spec fn decoded_text(code: Seq<u8>, ip: u64) -> Seq<char>;

/// `iced_x86::Decoder::decode` on a decoder made by `Decoder::with_ip` for
/// 64-bit code, and `NasmFormatter::format` on what it decoded. Returned are
/// the instruction's length and its text. The decoder takes at least one byte
/// wherever there is one, and never more bytes than there are. It refuses
/// only code that ends within fifteen bytes of the end of the address space,
/// where no memory of a process lies.
#[verifier::external_body]
fn decode_first(code: &[u8], ip: u64) -> (r: (usize, String))
    requires
        code@.len() > 0,
    ensures
        r.0 == decoded_length(code@, ip),
        1 <= r.0 <= code@.len(),
        r.1@ == decoded_text(code@, ip),
{
    let mut decoder = Decoder::with_ip(64, code, ip, DecoderOptions::NONE);
    let instruction = decoder.decode();
    let mut text = String::new();
    NasmFormatter::new().format(&instruction, &mut text);
    (instruction.len(), text)
}

/// The bytes in hexadecimal digits, two for each.
pub open spec fn hex_bytes(bytes: Seq<u8>) -> Seq<char>
    decreases bytes.len(),
{
    if bytes.len() == 0 {
        Seq::empty()
    } else {
        hex_bytes(bytes.drop_last()) + lower_hex_text(bytes.last() as u64, 2)
    }
}

/// The blanks that fill the column of the bytes up to ten bytes.
pub open spec fn byte_padding(length: nat) -> Seq<char> {
    if length < 10 {
        Seq::new((2 * (10 - length)) as nat, |i: int| ' ')
    } else {
        Seq::empty()
    }
}

/// A line of the listing: the address in sixteen digits, the bytes of the
/// instruction, blanks up to the width of ten bytes, and the instruction's
/// text.
pub open spec fn line_text(address: u64, bytes: Seq<u8>, text: Seq<char>) -> Seq<char> {
    lower_hex_text(address, 16) + " "@ + hex_bytes(bytes) + byte_padding(bytes.len()) + " "@ + text
        + "\n"@
}

/// The listing of `code`, which lies at `ip`: a line for each instruction,
/// in the order of the addresses.
pub open spec fn listing_text(code: Seq<u8>, ip: u64) -> Seq<char>
    decreases code.len(),
{
    let length = decoded_length(code, ip);
    if code.len() == 0 || length < 1 || length > code.len() {
        Seq::empty()
    } else {
        line_text(ip, code.take(length as int), decoded_text(code, ip)) + listing_text(
            code.skip(length as int),
            ip.wrapping_add(length as u64),
        )
    }
}

/// Makes a line of the listing for an instruction that was decoded: `bytes`
/// are its bytes, `address` is where it lies, and `text` is how it reads.
pub fn listing_line(address: u64, bytes: &[u8], text: &str) -> (r: String)
    ensures
        r@ == line_text(address, bytes@, text@),
{
    let mut line = lower_hex(address, 16);
    line.append(" ");
    let ghost head = line@;
    let mut index: usize = 0;
    while index < bytes.len()
        invariant
            index <= bytes@.len(),
            line@ == head + hex_bytes(bytes@.take(index as int)),
        decreases bytes@.len() - index,
    {
        let digits = lower_hex(bytes[index] as u64, 2);
        line.append(digits.as_str());
        index += 1;
        proof {
            assert(bytes@.take(index as int).drop_last() =~= bytes@.take(index - 1));
            assert(line@ =~= head + hex_bytes(bytes@.take(index as int)));
        }
    }
    proof {
        assert(bytes@.take(bytes@.len() as int) =~= bytes@);
    }
    let ghost body = line@;
    let mut blanks: usize = 0;
    if bytes.len() < 10 {
        let missing: usize = 10 - bytes.len();
        while blanks < missing
            invariant
                blanks <= missing,
                missing == 10 - bytes@.len(),
                line@ == body + Seq::new((2 * blanks) as nat, |i: int| ' '),
            decreases missing - blanks,
        {
            line.append("  ");
            blanks += 1;
            proof {
                reveal_strlit("  ");
                assert(line@ =~= body + Seq::new((2 * blanks) as nat, |i: int| ' '));
            }
        }
    } else {
        assert(line@ =~= body + Seq::<char>::empty());
    }
    line.append(" ");
    line.append(text);
    line.append("\n");
    assert(line@ =~= line_text(address, bytes@, text@));
    line
}

/// The listing of the instructions that `code` holds, for code that lies at
/// the address `ip`.
pub fn disassemble(code: &[u8], ip: u64) -> (r: String)
    ensures
        r@ == listing_text(code@, ip),
{
    let mut listing = String::new();
    let mut offset: usize = 0;
    let mut address: u64 = ip;
    proof {
        assert(code@.skip(0) =~= code@);
        assert(listing@ + listing_text(code@, ip) =~= listing_text(code@, ip));
    }
    while offset < code.len()
        invariant
            offset <= code@.len(),
            listing_text(code@, ip) == listing@ + listing_text(code@.skip(offset as int), address),
        decreases code@.len() - offset,
    {
        let rest = slice_subrange(code, offset, code.len());
        let (length, text) = decode_first(rest, address);
        let line = listing_line(address, slice_subrange(rest, 0, length), text.as_str());
        listing.append(line.as_str());
        proof {
            assert(rest@ =~= code@.skip(offset as int));
            assert(rest@.subrange(0, length as int) =~= rest@.take(length as int));
            assert(rest@.skip(length as int) =~= code@.skip(offset + length));
        }
        offset += length;
        address = address.wrapping_add(length as u64);
    }
    proof {
        assert(code@.skip(offset as int).len() == 0);
        assert(listing@ + Seq::<char>::empty() =~= listing@);
    }
    listing
}

} // verus!
