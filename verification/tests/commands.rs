use nes::commands::{parse, parse_bytes, Command};
use nes::error::NesError;
use regex::Regex;

/// The grammar written down as five patterns.
struct Patterns {
    cpu: Regex,
    dasm: Regex,
    cpumem: Regex,
    ppumem: Regex,
    oam: Regex,
}

impl Patterns {
    fn new() -> Patterns {
        Patterns {
            cpu: Regex::new(r"^cpu\n?$").unwrap(),
            dasm: Regex::new(r"^dasm [a-fA-F\d]{1,4} [a-fA-F\d]{1,4}\n?$").unwrap(),
            cpumem: Regex::new(r"^cpumem [a-fA-F\d]{1,4} [a-fA-F\d]{1,4}\n?$").unwrap(),
            ppumem: Regex::new(r"^ppumem [a-fA-F\d]{1,4} [a-fA-F\d]{1,4}\n?$").unwrap(),
            oam: Regex::new(r"^oam\n?$").unwrap(),
        }
    }

    fn parse(&self, s: &str) -> Option<Command> {
        let range = |s: &str| -> Option<(u16, u16)> {
            let args = s.split(' ').collect::<Vec<&str>>();
            let from = u16::from_str_radix(args.get(1)?, 16).ok()?;
            let to = u16::from_str_radix(args.get(2)?, 16).ok()?;
            Some((from, to))
        };
        if self.cpu.is_match(s) {
            Some(Command::CpuRegs)
        } else if self.dasm.is_match(s) {
            range(s).map(|(from, to)| Command::Disassemble(from, to))
        } else if self.cpumem.is_match(s) {
            range(s).map(|(from, to)| Command::CpuMemory(from, to))
        } else if self.ppumem.is_match(s) {
            range(s).map(|(from, to)| Command::PpuMemory(from, to))
        } else if self.oam.is_match(s) {
            Some(Command::PpuOam)
        } else {
            None
        }
    }
}

#[test]
fn commands_without_arguments() {
    assert_eq!(parse("cpu"), Ok(Command::CpuRegs));
    assert_eq!(parse("cpu\n"), Ok(Command::CpuRegs));
    assert_eq!(parse("oam"), Ok(Command::PpuOam));
    assert_eq!(parse("oam\n"), Ok(Command::PpuOam));
    for line in ["", "\n", "cp", "cpu ", " cpu", "cpu\n\n", "CPU", "oam\r\n", "cpuoam", "oamx"] {
        assert_eq!(parse(line), Err(NesError::InvalidArgument), "{:?}", line);
    }
}

#[test]
fn commands_with_two_addresses() {
    assert_eq!(parse("dasm 8000 8010"), Ok(Command::Disassemble(0x8000, 0x8010)));
    assert_eq!(parse("cpumem 0 ffff"), Ok(Command::CpuMemory(0, 0xffff)));
    assert_eq!(parse("ppumem 3F00 3f1F"), Ok(Command::PpuMemory(0x3f00, 0x3f1f)));
    assert_eq!(parse("dasm a B"), Ok(Command::Disassemble(0xa, 0xb)));
    assert_eq!(parse("cpumem 012 0001"), Ok(Command::CpuMemory(0x12, 1)));
    assert_eq!(parse("ppumem AbC dEf"), Ok(Command::PpuMemory(0xabc, 0xdef)));
    for line in [
        "dasm",
        "dasm ",
        "dasm 1",
        "dasm 1 ",
        "dasm  1 2",
        "dasm 1  2",
        "dasm 1 2 ",
        "dasm 1 2 3",
        "dasm 12345 2",
        "dasm 1 12345",
        "dasm g 1",
        "dasm 1 -2",
        "dasm 1 +2",
        "dasm 1 0x2",
        "dasm 1 2\n",
        "dasm1 2",
        "cpumem\t1 2",
        "ppumem 1,2",
        "mem 1 2",
        "Dasm 1 2",
    ] {
        assert_eq!(parse(line), Err(NesError::InvalidArgument), "{:?}", line);
    }
}

#[test]
fn bytes_that_are_no_text() {
    assert_eq!(parse_bytes(b"cpu"), Ok(Command::CpuRegs));
    assert_eq!(parse_bytes(b"dasm \xff 1"), Err(NesError::InvalidArgument));
    assert_eq!(parse_bytes(b"dasm 1 \x00"), Err(NesError::InvalidArgument));
    assert_eq!(parse_bytes(b"oam\x00"), Err(NesError::InvalidArgument));
}

#[test]
fn grammar_agrees_with_the_patterns() {
    let words = ["cpu", "oam", "dasm", "cpumem", "ppumem", "mem", ""];
    let numbers = [
        "0", "f", "F", "10", "ff", "abc", "0000", "ffff", "FFFF", "12345", "", "g", "1g", "-1",
        " 1", "1 ", "0x1", "1\n", "\u{e9}",
    ];
    let ends = ["", "\n", " ", "x"];
    let patterns = Patterns::new();
    let mut seen = 0;
    let mut accepted = 0;
    for word in words {
        for end in ends {
            let line = format!("{}{}", word, end);
            assert_eq!(parse(&line).ok(), patterns.parse(&line), "{:?}", line);
            seen += 1;
        }
        for first in numbers {
            for second in numbers {
                for end in ends {
                    for gap in [" ", "  ", ""] {
                        let line = format!("{} {}{}{}{}", word, first, gap, second, end);
                        let expected = patterns.parse(&line);
                        assert_eq!(parse(&line).ok(), expected, "{:?}", line);
                        seen += 1;
                        if expected.is_some() {
                            accepted += 1;
                        }
                    }
                }
            }
        }
    }
    assert!(seen > 30000);
    assert!(accepted > 200);
}
