use vstd::prelude::*;
use vstd::string::StringSliceAdditionalSpecFns;
use crate::error::NesError;

verus! {

/// What can be asked of a running console on its command line.
#[derive(Clone, Copy, Debug, PartialEq, Eq, Structural)]
pub enum Command {
    /// `cpu`: show the processor's registers.
    CpuRegs,
    /// `dasm FROM TO`: disassemble the processor's memory.
    Disassemble(u16, u16),
    /// `cpumem FROM TO`: show memory as the processor sees it.
    CpuMemory(u16, u16),
    /// `ppumem FROM TO`: show memory as the picture unit sees it.
    PpuMemory(u16, u16),
    /// `oam`: show the sprite memory.
    PpuOam,
}

/// The byte of a blank.
pub const BLANK: u8 = 0x20;

/// The byte of a line feed.
pub const LINE_FEED: u8 = 0x0a;

/// The value of a hexadecimal digit in either case.
pub open spec fn digit_value(byte: u8) -> Option<u8> {
    if 0x30 <= byte <= 0x39 {
        Some((byte - 0x30) as u8)
    } else if 0x41 <= byte <= 0x46 {
        Some((byte - 0x41 + 10) as u8)
    } else if 0x61 <= byte <= 0x66 {
        Some((byte - 0x61 + 10) as u8)
    } else {
        None
    }
}

/// Whether every byte is a hexadecimal digit.
pub open spec fn all_digits(digits: Seq<u8>) -> bool {
    forall|i: int| 0 <= i < digits.len() ==> digit_value(#[trigger] digits[i]) is Some
}

/// The number that hexadecimal digits stand for, the first digit highest.
pub open spec fn digits_value(digits: Seq<u8>) -> int
    decreases digits.len(),
{
    if digits.len() == 0 {
        0
    } else {
        match digit_value(digits.last()) {
            Some(value) => digits_value(digits.drop_last()) * 16 + value,
            None => 0,
        }
    }
}

/// The address that a word of one to four hexadecimal digits stands for.
pub open spec fn parse_word(word: Seq<u8>) -> Option<u16> {
    if 1 <= word.len() <= 4 && all_digits(word) {
        Some(digits_value(word) as u16)
    } else {
        None
    }
}

/// Where the first blank of a text is; its length where it has none.
pub open spec fn first_blank(text: Seq<u8>) -> int
    decreases text.len(),
{
    if text.len() == 0 {
        0
    } else if text[0] == BLANK {
        0
    } else {
        1 + first_blank(text.subrange(1, text.len() as int))
    }
}

/// The two addresses that a text of two words with one blank between
/// them stands for.
pub open spec fn parse_range(text: Seq<u8>) -> Option<(u16, u16)> {
    let blank = first_blank(text);
    if blank < text.len() {
        match (
            parse_word(text.subrange(0, blank)),
            parse_word(text.subrange(blank + 1, text.len() as int)),
        ) {
            (Some(from), Some(to)) => Some((from, to)),
            _ => None,
        }
    } else {
        None
    }
}

/// `cpu`
pub open spec fn word_cpu() -> Seq<u8> {
    seq![0x63u8, 0x70u8, 0x75u8]
}

/// `oam`
pub open spec fn word_oam() -> Seq<u8> {
    seq![0x6fu8, 0x61u8, 0x6du8]
}

/// `dasm` and a blank
pub open spec fn word_dasm() -> Seq<u8> {
    seq![0x64u8, 0x61u8, 0x73u8, 0x6du8, BLANK]
}

/// `cpumem` and a blank
pub open spec fn word_cpumem() -> Seq<u8> {
    seq![0x63u8, 0x70u8, 0x75u8, 0x6du8, 0x65u8, 0x6du8, BLANK]
}

/// `ppumem` and a blank
pub open spec fn word_ppumem() -> Seq<u8> {
    seq![0x70u8, 0x70u8, 0x75u8, 0x6du8, 0x65u8, 0x6du8, BLANK]
}

/// Whether a line is `word`, with or without a line feed after it.
pub open spec fn is_word(line: Seq<u8>, word: Seq<u8>) -> bool {
    line == word || line == word.push(LINE_FEED)
}

/// Whether a line begins with `word`.
pub open spec fn begins_with(line: Seq<u8>, word: Seq<u8>) -> bool {
    line.len() >= word.len() && line.subrange(0, word.len() as int) == word
}

/// What a line after `word` says, where it is two addresses.
pub open spec fn range_after(line: Seq<u8>, word: Seq<u8>) -> Option<(u16, u16)>
    recommends
        begins_with(line, word),
{
    parse_range(line.subrange(word.len() as int, line.len() as int))
}

/// The command that a line of bytes stands for. `cpu` and `oam` stand
/// alone and may end in a line feed. `dasm`, `cpumem` and `ppumem` are each
/// followed by a blank and two addresses with a blank between them; an
/// address is one to four hexadecimal digits. Every other line is no
/// command.
pub open spec fn parse_line(line: Seq<u8>) -> Result<Command, NesError> {
    if is_word(line, word_cpu()) {
        Ok(Command::CpuRegs)
    } else if is_word(line, word_oam()) {
        Ok(Command::PpuOam)
    } else if begins_with(line, word_dasm()) {
        match range_after(line, word_dasm()) {
            Some((from, to)) => Ok(Command::Disassemble(from, to)),
            None => Err(NesError::InvalidArgument),
        }
    } else if begins_with(line, word_cpumem()) {
        match range_after(line, word_cpumem()) {
            Some((from, to)) => Ok(Command::CpuMemory(from, to)),
            None => Err(NesError::InvalidArgument),
        }
    } else if begins_with(line, word_ppumem()) {
        match range_after(line, word_ppumem()) {
            Some((from, to)) => Ok(Command::PpuMemory(from, to)),
            None => Err(NesError::InvalidArgument),
        }
    } else {
        Err(NesError::InvalidArgument)
    }
}

/// The value of a hexadecimal digit.
fn digit_of(byte: u8) -> (value: Option<u8>)
    ensures
        value == digit_value(byte),
        value matches Some(v) ==> v < 16,
{
    if 0x30 <= byte && byte <= 0x39 {
        Some(byte - 0x30)
    } else if 0x41 <= byte && byte <= 0x46 {
        Some(byte - 0x41 + 10)
    } else if 0x61 <= byte && byte <= 0x66 {
        Some(byte - 0x61 + 10)
    } else {
        None
    }
}

/// One to four hexadecimal digits stand for a number below 0x10000.
proof fn lemma_digits_bound(digits: Seq<u8>)
    requires
        all_digits(digits),
    ensures
        0 <= digits_value(digits),
        digits.len() == 0 ==> digits_value(digits) == 0,
        digits.len() == 1 ==> digits_value(digits) < 0x10,
        digits.len() == 2 ==> digits_value(digits) < 0x100,
        digits.len() == 3 ==> digits_value(digits) < 0x1000,
        digits.len() == 4 ==> digits_value(digits) < 0x10000,
    decreases digits.len(),
{
    if digits.len() > 0 {
        assert(digit_value(digits.last()) is Some);
        assert(all_digits(digits.drop_last())) by {
            assert forall|i: int| 0 <= i < digits.drop_last().len() implies digit_value(
                #[trigger] digits.drop_last()[i],
            ) is Some by {
                assert(digits.drop_last()[i] == digits[i]);
            }
        }
        lemma_digits_bound(digits.drop_last());
    }
}

/// Reads the word that lies in `line` from `from` up to `to`.
fn read_word(line: &[u8], from: usize, to: usize) -> (res: Option<u16>)
    requires
        from <= to <= line@.len(),
    ensures
        res == parse_word(line@.subrange(from as int, to as int)),
{
    let ghost word = line@.subrange(from as int, to as int);
    if to - from < 1 || to - from > 4 {
        return None;
    }
    let mut value: u16 = 0;
    let mut i: usize = from;
    while i < to
        invariant
            from <= i <= to <= line@.len(),
            to - from <= 4,
            word == line@.subrange(from as int, to as int),
            all_digits(word.subrange(0, i - from)),
            value == digits_value(word.subrange(0, i - from)),
        decreases to - i,
    {
        let ghost sofar = word.subrange(0, i - from);
        let ghost next = word.subrange(0, i - from + 1);
        proof {
            lemma_digits_bound(sofar);
            assert(next.drop_last() =~= sofar);
            assert(next.last() == line@[i as int]);
        }
        match digit_of(line[i]) {
            Some(digit) => {
                value = value * 16 + digit as u16;
                proof {
                    assert forall|k: int| 0 <= k < next.len() implies digit_value(
                        #[trigger] next[k],
                    ) is Some by {
                        if k < sofar.len() {
                            assert(next[k] == sofar[k]);
                        }
                    }
                }
            },
            None => {
                proof {
                    assert(word[i - from] == line@[i as int]);
                    assert(!all_digits(word));
                }
                return None;
            },
        }
        i = i + 1;
    }
    assert(word.subrange(0, i - from) =~= word);
    Some(value)
}

/// A text without a blank in its first `n` bytes has its first blank where
/// the rest has it.
proof fn lemma_first_blank_skips(text: Seq<u8>, n: int)
    requires
        0 <= n <= text.len(),
        forall|i: int| 0 <= i < n ==> text[i] != BLANK,
    ensures
        first_blank(text) == n + first_blank(text.subrange(n, text.len() as int)),
    decreases n,
{
    if n > 0 {
        let rest = text.subrange(1, text.len() as int);
        assert(rest.subrange(n - 1, rest.len() as int) =~= text.subrange(n, text.len() as int));
        lemma_first_blank_skips(rest, n - 1);
    } else {
        assert(text.subrange(0, text.len() as int) =~= text);
    }
}

/// Finds the first blank of `line` from `from` on.
fn find_blank(line: &[u8], from: usize) -> (at: usize)
    requires
        from <= line@.len(),
    ensures
        at == from + first_blank(line@.subrange(from as int, line@.len() as int)),
        from <= at <= line@.len(),
{
    let ghost text = line@.subrange(from as int, line@.len() as int);
    let mut at: usize = from;
    while at < line.len() && line[at] != BLANK
        invariant
            from <= at <= line@.len(),
            text == line@.subrange(from as int, line@.len() as int),
            forall|i: int| 0 <= i < at - from ==> text[i] != BLANK,
        decreases line@.len() - at,
    {
        at = at + 1;
    }
    proof {
        lemma_first_blank_skips(text, at - from);
        let rest = text.subrange(at - from, text.len() as int);
        if at < line@.len() {
            assert(rest[0] == line@[at as int]);
        }
    }
    at
}

/// Reads two addresses with a blank between them from `from` on.
fn read_range(line: &[u8], from: usize) -> (res: Option<(u16, u16)>)
    requires
        from <= line@.len(),
    ensures
        res == parse_range(line@.subrange(from as int, line@.len() as int)),
{
    let ghost text = line@.subrange(from as int, line@.len() as int);
    let blank: usize = find_blank(line, from);
    if blank >= line.len() {
        return None;
    }
    assert(text.subrange(0, blank - from) =~= line@.subrange(from as int, blank as int));
    assert(text.subrange(blank - from + 1, text.len() as int) =~= line@.subrange(
        blank + 1,
        line@.len() as int,
    ));
    let first = read_word(line, from, blank);
    let second = read_word(line, blank + 1, line.len());
    match (first, second) {
        (Some(a), Some(b)) => Some((a, b)),
        _ => None,
    }
}

/// Whether `line` begins with `word`.
fn has_prefix(line: &[u8], word: &[u8]) -> (res: bool)
    ensures
        res == begins_with(line@, word@),
{
    if line.len() < word.len() {
        return false;
    }
    let mut i: usize = 0;
    while i < word.len()
        invariant
            i <= word@.len() <= line@.len(),
            line@.subrange(0, i as int) == word@.subrange(0, i as int),
        decreases word@.len() - i,
    {
        if line[i] != word[i] {
            assert(line@.subrange(0, word@.len() as int)[i as int] != word@[i as int]);
            return false;
        }
        assert(line@.subrange(0, i + 1) =~= line@.subrange(0, i as int).push(line@[i as int]));
        assert(word@.subrange(0, i + 1) =~= word@.subrange(0, i as int).push(word@[i as int]));
        i = i + 1;
    }
    assert(word@.subrange(0, i as int) =~= word@);
    true
}

/// Whether `line` is `word`, with or without a line feed after it.
fn has_word(line: &[u8], word: &[u8]) -> (res: bool)
    ensures
        res == is_word(line@, word@),
{
    if !has_prefix(line, word) {
        proof {
            if line@ == word@ {
                assert(line@.subrange(0, word@.len() as int) =~= word@);
            }
            if line@ == word@.push(LINE_FEED) {
                assert(line@.subrange(0, word@.len() as int) =~= word@);
            }
        }
        return false;
    }
    if line.len() == word.len() {
        assert(line@.subrange(0, word@.len() as int) =~= line@);
        true
    } else if line.len() == word.len() + 1 && line[word.len()] == LINE_FEED {
        assert(line@ =~= word@.push(LINE_FEED));
        true
    } else {
        assert(line@ != word@.push(LINE_FEED)) by {
            if line@.len() == word@.len() + 1 {
                assert(word@.push(LINE_FEED)[word@.len() as int] == LINE_FEED);
            }
        }
        false
    }
}

/// Reads a command from a line of bytes.
pub fn parse_bytes(line: &[u8]) -> (res: Result<Command, NesError>)
    ensures
        res == parse_line(line@),
{
    let cpu: [u8; 3] = [0x63, 0x70, 0x75];
    let oam: [u8; 3] = [0x6f, 0x61, 0x6d];
    let dasm: [u8; 5] = [0x64, 0x61, 0x73, 0x6d, BLANK];
    let cpumem: [u8; 7] = [0x63, 0x70, 0x75, 0x6d, 0x65, 0x6d, BLANK];
    let ppumem: [u8; 7] = [0x70, 0x70, 0x75, 0x6d, 0x65, 0x6d, BLANK];
    assert(cpu@ =~= word_cpu());
    assert(oam@ =~= word_oam());
    assert(dasm@ =~= word_dasm());
    assert(cpumem@ =~= word_cpumem());
    assert(ppumem@ =~= word_ppumem());
    if has_word(line, cpu.as_slice()) {
        Ok(Command::CpuRegs)
    } else if has_word(line, oam.as_slice()) {
        Ok(Command::PpuOam)
    } else if has_prefix(line, dasm.as_slice()) {
        match read_range(line, 5) {
            Some((from, to)) => Ok(Command::Disassemble(from, to)),
            None => Err(NesError::InvalidArgument),
        }
    } else if has_prefix(line, cpumem.as_slice()) {
        match read_range(line, 7) {
            Some((from, to)) => Ok(Command::CpuMemory(from, to)),
            None => Err(NesError::InvalidArgument),
        }
    } else if has_prefix(line, ppumem.as_slice()) {
        match read_range(line, 7) {
            Some((from, to)) => Ok(Command::PpuMemory(from, to)),
            None => Err(NesError::InvalidArgument),
        }
    } else {
        Err(NesError::InvalidArgument)
    }
}

/// Reads a command from a line of text.
pub fn parse(s: &str) -> (res: Result<Command, NesError>)
    ensures
        res == parse_line(s.spec_bytes()),
{
    parse_bytes(s.as_bytes())
}

} // verus!
