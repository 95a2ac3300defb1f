//! Disassembly of decoded instructions into human-readable assembly text.
//!
//! [`format_arm`] and [`format_thumb`] render a single decoded instruction. They
//! take no program counter, so PC-relative operands (branch displacements, the
//! Thumb long-branch halves) are shown as displacements rather than resolved
//! target addresses; a PC-aware caller resolves those against an address.
//!
//! The syntax is classic ARM assembly: `mnemonic{cond}{flags}` then a tab then
//! the operands, lowercase, with r13/r14/r15 shown as `sp`/`lr`/`pc`.

use vstd::prelude::*;

mod arm;
pub mod mnemonics;
mod thumb;

pub use arm::format_arm;
pub use thumb::format_thumb;

use crate::arm::condition::Condition;
use crate::arm::register::Register;
use crate::text;

verus! {

impl Register {
    /// Assembly name of a register: `r0`..`r12`, then `sp`, `lr`, `pc`.
    pub open spec fn name(self) -> Seq<char> {
        match self.0 & 0xF {
            0 => "r0"@,
            1 => "r1"@,
            2 => "r2"@,
            3 => "r3"@,
            4 => "r4"@,
            5 => "r5"@,
            6 => "r6"@,
            7 => "r7"@,
            8 => "r8"@,
            9 => "r9"@,
            10 => "r10"@,
            11 => "r11"@,
            12 => "r12"@,
            13 => "sp"@,
            14 => "lr"@,
            _ => "pc"@,
        }
    }
}

/// Assembly name of a register: `r0`..`r12`, then `sp`, `lr`, `pc`.
pub(crate) fn reg(r: Register) -> (name: &'static str)
    ensures
        name@ == r.name(),
{
    match r.0 & 0xF {
        0 => "r0",
        1 => "r1",
        2 => "r2",
        3 => "r3",
        4 => "r4",
        5 => "r5",
        6 => "r6",
        7 => "r7",
        8 => "r8",
        9 => "r9",
        10 => "r10",
        11 => "r11",
        12 => "r12",
        13 => "sp",
        14 => "lr",
        _ => "pc",
    }
}

impl Condition {
    /// The lowercase condition-code suffix, empty for `AL`.
    pub open spec fn suffix(self) -> Seq<char> {
        match self {
            Condition::Eq => "eq"@,
            Condition::Ne => "ne"@,
            Condition::Cs => "cs"@,
            Condition::Cc => "cc"@,
            Condition::Mi => "mi"@,
            Condition::Pl => "pl"@,
            Condition::Vs => "vs"@,
            Condition::Vc => "vc"@,
            Condition::Hi => "hi"@,
            Condition::Ls => "ls"@,
            Condition::Ge => "ge"@,
            Condition::Lt => "lt"@,
            Condition::Gt => "gt"@,
            Condition::Le => "le"@,
            Condition::Al => ""@,
            Condition::Nv => "nv"@,
        }
    }
}

/// The lowercase condition-code suffix, empty for `AL`.
pub(crate) fn condition_suffix(condition: Condition) -> (suffix: &'static str)
    ensures
        suffix@ == condition.suffix(),
{
    match condition {
        Condition::Eq => "eq",
        Condition::Ne => "ne",
        Condition::Cs => "cs",
        Condition::Cc => "cc",
        Condition::Mi => "mi",
        Condition::Pl => "pl",
        Condition::Vs => "vs",
        Condition::Vc => "vc",
        Condition::Hi => "hi",
        Condition::Ls => "ls",
        Condition::Ge => "ge",
        Condition::Lt => "lt",
        Condition::Gt => "gt",
        Condition::Le => "le",
        Condition::Al => "",
        Condition::Nv => "nv",
    }
}

/// An unsigned immediate operand: decimal below 10, hex otherwise.
pub open spec fn immediate_text(value: u32) -> Seq<char> {
    if value < 10 {
        "#"@ + text::numeral(value as nat, 10)
    } else {
        "#0x"@ + text::numeral(value as nat, 16)
    }
}

/// Format an unsigned immediate operand: decimal below 10, hex otherwise.
pub(crate) fn immediate(value: u32) -> (out: String)
    ensures
        out@ == immediate_text(value),
{
    if value < 10 {
        let mut out = text::text("#");
        out.append(text::decimal(value).as_str());
        out
    } else {
        let mut out = text::text("#0x");
        out.append(text::hex(value).as_str());
        out
    }
}

/// The sign of a subtracted offset.
pub open spec fn sign_text(add: bool) -> Seq<char> {
    if add {
        ""@
    } else {
        "-"@
    }
}

/// A memory-offset immediate with an explicit sign: magnitude below 10 in
/// decimal, hex otherwise.
pub open spec fn signed_immediate_text(value: u32, add: bool) -> Seq<char> {
    "#"@ + sign_text(add) + (if value < 10 {
        ""@ + text::numeral(value as nat, 10)
    } else {
        "0x"@ + text::numeral(value as nat, 16)
    })
}

/// The sign of an offset, from the `U` bit.
pub(crate) fn sign(add: bool) -> (s: &'static str)
    ensures
        s@ == sign_text(add),
{
    if add {
        ""
    } else {
        "-"
    }
}

/// Format a memory-offset immediate with an explicit sign taken from `add`
/// (the `U` bit): magnitude below 10 in decimal, hex otherwise.
pub(crate) fn signed_immediate(value: u32, add: bool) -> (out: String)
    ensures
        out@ == signed_immediate_text(value, add),
{
    let mut out = text::text("#");
    out.append(sign(add));
    let mut magnitude = text::text(
        if value < 10 {
            ""
        } else {
            "0x"
        },
    );
    if value < 10 {
        magnitude.append(text::decimal(value).as_str());
    } else {
        magnitude.append(text::hex(value).as_str());
    }
    out.append(magnitude.as_str());
    out
}

/// Whether register `i` is in a list.
pub open spec fn in_list(bits: u16, i: int) -> bool {
    bits & (1u16 << (i as u16)) != 0
}

/// The last register of the run that holds register `i`.
pub open spec fn run_end(bits: u16, i: int) -> int
    decreases 16 - i,
{
    if i + 1 < 16 && in_list(bits, i + 1) {
        run_end(bits, i + 1)
    } else {
        i
    }
}

/// A run of consecutive registers: three or more as a range, two as a pair.
pub open spec fn run_text(start: int, end: int) -> Seq<char> {
    let first = Register(start as u8).name();
    if end - start >= 2 {
        first + "-"@ + Register(end as u8).name()
    } else if end > start {
        first + ", "@ + Register(end as u8).name()
    } else {
        first
    }
}

/// The registers of a list from `i` on, comma-separated. `first` says that
/// nothing stands before them.
pub open spec fn list_from(bits: u16, i: int, first: bool) -> Seq<char>
    decreases 16 - i,
{
    if i >= 16 {
        Seq::empty()
    } else if !in_list(bits, i) {
        list_from(bits, i + 1, first)
    } else {
        let end = run_end(bits, i);
        let tail = if i <= end < 16 {
            list_from(bits, end + 1, false)
        } else {
            Seq::empty()
        };
        (if first {
            ""@
        } else {
            ", "@
        }) + run_text(i, end) + tail
    }
}

/// A register-list bitmask as `{r0-r3, lr}`.
pub open spec fn register_list_text(bits: u16) -> Seq<char> {
    "{"@ + list_from(bits, 0, true) + "}"@
}

proof fn lemma_run_end(bits: u16, i: int)
    requires
        i < 16,
    ensures
        i <= run_end(bits, i) < 16,
    decreases 16 - i,
{
    if i + 1 < 16 && in_list(bits, i + 1) {
        lemma_run_end(bits, i + 1);
    }
}

/// Format a register-list bitmask as `{r0-r3, lr}`, compressing runs of three
/// or more consecutive registers into `first-last` ranges.
pub(crate) fn register_list(bits: u16) -> (out: String)
    ensures
        out@ == register_list_text(bits),
{
    let mut out = text::text("{");
    let mut first = true;
    let mut i: u16 = 0;
    while i < 16
        invariant
            i <= 16,
            out@ + list_from(bits, i as int, first) == "{"@ + list_from(bits, 0, true),
        decreases 16 - i,
    {
        if bits & (1u16 << i) == 0 {
            i = i + 1;
            continue ;
        }
        let start: u16 = i;
        let mut end: u16 = i;
        while end + 1 < 16 && bits & (1u16 << (end + 1)) != 0
            invariant
                start <= end < 16,
                run_end(bits, start as int) == run_end(bits, end as int),
            decreases 16 - end,
        {
            end = end + 1;
        }
        let ghost before = out@;
        proof {
            lemma_run_end(bits, start as int);
            assert(run_end(bits, end as int) == end);
        }
        let mut part = text::text(reg(Register(start as u8)));
        if end - start >= 2 {
            part.append("-");
            part.append(reg(Register(end as u8)));
        } else if end > start {
            part.append(", ");
            part.append(reg(Register(end as u8)));
        }
        let separator = if first {
            ""
        } else {
            ", "
        };
        out.append(separator);
        out.append(part.as_str());
        proof {
            let rest = list_from(bits, end + 1, false);
            assert(before + (separator@ + run_text(start as int, end as int) + rest) =~= before
                + separator@ + run_text(start as int, end as int) + rest);
        }
        first = false;
        i = end + 1;
    }
    assert(out@ + list_from(bits, 16, first) =~= out@);
    out.append("}");
    out
}

} // verus!
