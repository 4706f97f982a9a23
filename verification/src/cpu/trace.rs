use vstd::prelude::*;
use vstd::string::StringExecFns;

verus! {

/// The hexadecimal digit for `n`, in capitals.
pub open spec fn hex_digit(n: int) -> char
    recommends
        0 <= n < 16,
{
    "0123456789ABCDEF"@[n]
}

/// A byte as two hexadecimal digits.
pub open spec fn hex2(byte: u8) -> Seq<char> {
    seq![hex_digit(byte as int / 16), hex_digit(byte as int % 16)]
}

/// A word as four hexadecimal digits.
pub open spec fn hex4(word: u16) -> Seq<char> {
    hex2((word / 256) as u8) + hex2((word % 256) as u8)
}

/// The bytes of an instruction, each as a blank and two hexadecimal digits.
pub open spec fn hex_bytes(bytes: Seq<u8>) -> Seq<char>
    decreases bytes.len(),
{
    if bytes.len() == 0 {
        Seq::empty()
    } else {
        hex_bytes(bytes.drop_last()) + seq![' '] + hex2(bytes.last())
    }
}

/// `n` blanks.
pub open spec fn blanks(n: int) -> Seq<char> {
    Seq::new(
        if n > 0 {
            n as nat
        } else {
            0
        },
        |i: int| ' ',
    )
}

/// The column of instruction bytes: filled with blanks to eight characters
/// where it is shorter.
pub open spec fn bytes_column(bytes: Seq<u8>) -> Seq<char> {
    hex_bytes(bytes) + blanks(8 - 3 * bytes.len())
}

/// One line of an execution trace: the address of the instruction, its
/// bytes, its mnemonic, and the registers as they were before it ran.
pub open spec fn spec_trace_line(
    pc: u16,
    bytes: Seq<u8>,
    mnemonic: Seq<char>,
    a: u8,
    x: u8,
    y: u8,
    p: u8,
    sp: u8,
) -> Seq<char> {
    hex4(pc) + "  "@ + bytes_column(bytes) + " \t"@ + mnemonic + " \tA:"@ + hex2(a) + " X:"@ + hex2(
        x,
    ) + " Y:"@ + hex2(y) + " P:"@ + hex2(p) + " SP:"@ + hex2(sp)
}

/// Appends one character to a string, as `String::push` does.
#[verifier::external_body]
fn push_char(text: &mut String, ch: char)
    ensures
        final(text)@ == old(text)@.push(ch),
{
    text.push(ch)
}

/// The hexadecimal digit for `n`.
fn hex_char(n: u8) -> (ch: char)
    requires
        n < 16,
    ensures
        ch == hex_digit(n as int),
{
    proof {
        reveal_strlit("0123456789ABCDEF");
    }
    match n {
        0 => '0',
        1 => '1',
        2 => '2',
        3 => '3',
        4 => '4',
        5 => '5',
        6 => '6',
        7 => '7',
        8 => '8',
        9 => '9',
        10 => 'A',
        11 => 'B',
        12 => 'C',
        13 => 'D',
        14 => 'E',
        _ => 'F',
    }
}

/// Appends a byte as two hexadecimal digits.
fn push_hex2(text: &mut String, byte: u8)
    ensures
        final(text)@ == old(text)@ + hex2(byte),
{
    push_char(text, hex_char(byte / 16));
    push_char(text, hex_char(byte % 16));
    assert(text@ =~= old(text)@ + hex2(byte));
}

/// Appends a word as four hexadecimal digits.
fn push_hex4(text: &mut String, word: u16)
    ensures
        final(text)@ == old(text)@ + hex4(word),
{
    push_hex2(text, (word / 256) as u8);
    push_hex2(text, (word % 256) as u8);
    assert(text@ =~= old(text)@ + hex4(word));
}

/// Appends the column of instruction bytes.
fn push_bytes_column(text: &mut String, bytes: &Vec<u8>)
    requires
        bytes@.len() <= 3,
    ensures
        final(text)@ == old(text)@ + bytes_column(bytes@),
{
    let mut i: usize = 0;
    while i < bytes.len()
        invariant
            i <= bytes@.len() <= 3,
            text@ == old(text)@ + hex_bytes(bytes@.subrange(0, i as int)),
        decreases bytes@.len() - i,
    {
        let ghost before = text@;
        push_char(text, ' ');
        push_hex2(text, bytes[i]);
        proof {
            let upto = bytes@.subrange(0, i + 1);
            assert(upto.drop_last() =~= bytes@.subrange(0, i as int));
            assert(upto.last() == bytes@[i as int]);
            assert(text@ =~= old(text)@ + hex_bytes(upto));
        }
        i = i + 1;
    }
    assert(bytes@.subrange(0, i as int) =~= bytes@);
    let ghost filled = text@;
    let mut width: usize = 3 * bytes.len();
    let ghost start = width;
    while width < 8
        invariant
            start <= width,
            start == 3 * bytes@.len(),
            width <= 8 || width == start,
            start <= 9,
            text@ == filled + blanks(width - start),
        decreases 8 - width,
    {
        push_char(text, ' ');
        width = width + 1;
        assert(text@ =~= filled + blanks(width - start));
    }
    assert(text@ =~= old(text)@ + bytes_column(bytes@)) by {
        assert(blanks(width - start) =~= blanks(8 - 3 * bytes@.len()));
        assert(filled == old(text)@ + hex_bytes(bytes@));
    }
}

/// Writes one line of an execution trace.
pub fn trace_line(
    pc: u16,
    bytes: &Vec<u8>,
    mnemonic: &str,
    a: u8,
    x: u8,
    y: u8,
    p: u8,
    sp: u8,
) -> (text: String)
    requires
        bytes@.len() <= 3,
    ensures
        text@ == spec_trace_line(pc, bytes@, mnemonic@, a, x, y, p, sp),
{
    let mut text = String::new();
    push_hex4(&mut text, pc);
    assert(text@ =~= hex4(pc));
    text.append("  ");
    push_bytes_column(&mut text, bytes);
    text.append(" \t");
    text.append(mnemonic);
    text.append(" \tA:");
    push_hex2(&mut text, a);
    text.append(" X:");
    push_hex2(&mut text, x);
    text.append(" Y:");
    push_hex2(&mut text, y);
    text.append(" P:");
    push_hex2(&mut text, p);
    text.append(" SP:");
    push_hex2(&mut text, sp);
    text
}

} // verus!
