use vstd::prelude::*;
use crate::loader::{Loader, Variant};

verus! {

/// A node of the code page 0 opcode tree: the root, which reads the first
/// opcode byte, or the table reached through the given prefix bytes.
#[derive(Clone, Copy, Debug, PartialEq, Eq, Structural)]
pub enum Node {
    Root,
    Prefix54,
    Prefix5F,
    Prefix6C,
    Prefix6F,
    Prefix83,
    PrefixB6,
    PrefixB7,
    PrefixB7B6,
    PrefixC7,
    PrefixCF,
    PrefixD7,
    PrefixDB,
    PrefixE3,
    PrefixED,
    PrefixF1,
    PrefixF2,
    PrefixF4,
    PrefixF8,
    PrefixF9,
    PrefixFA,
    PrefixFB,
    PrefixFE,
    PrefixFF,
}

/// What one byte selects in a node of the opcode tree.
pub enum Entry {
    /// No instruction starts with this byte sequence.
    Unassigned,
    /// The instruction is complete; its operands are read by this loader.
    Direct(Loader),
    /// The next byte is read in the given node.
    Sub(Node),
}

/// The code page 0 opcode assignment: what byte `b` selects in `node`.
pub open spec fn entry(node: Node, b: u8) -> Entry {
    match node {
        Node::Root => root_entry(b),
        Node::Prefix54 => prefix_54_entry(b),
        Node::Prefix5F => prefix_5f_entry(b),
        Node::Prefix6C => prefix_6c_entry(b),
        Node::Prefix6F => prefix_6f_entry(b),
        Node::Prefix83 => prefix_83_entry(b),
        Node::PrefixB6 => prefix_b6_entry(b),
        Node::PrefixB7 => prefix_b7_entry(b),
        Node::PrefixB7B6 => prefix_b7b6_entry(b),
        Node::PrefixC7 => prefix_c7_entry(b),
        Node::PrefixCF => prefix_cf_entry(b),
        Node::PrefixD7 => prefix_d7_entry(b),
        Node::PrefixDB => prefix_db_entry(b),
        Node::PrefixE3 => prefix_e3_entry(b),
        Node::PrefixED => prefix_ed_entry(b),
        Node::PrefixF1 => prefix_f1_entry(b),
        Node::PrefixF2 => prefix_f2_entry(b),
        Node::PrefixF4 => prefix_f4_entry(b),
        Node::PrefixF8 => prefix_f8_entry(b),
        Node::PrefixF9 => prefix_f9_entry(b),
        Node::PrefixFA => prefix_fa_entry(b),
        Node::PrefixFB => prefix_fb_entry(b),
        Node::PrefixFE => prefix_fe_entry(b),
        Node::PrefixFF => prefix_ff_entry(b),
    }
}

/// The outcome of reading an opcode from a byte sequence.
pub enum Dispatch {
    /// The loader selected, and how many bytes were read to select it.
    Found(Loader, nat),
    /// The bytes read, up to and including the first one that selects nothing.
    Unassigned(Seq<u8>),
    /// The bytes ran out before an opcode was complete.
    Underrun,
}

/// Reads an opcode from `rest`, starting in `node`: one byte per level of the
/// opcode tree.
pub open spec fn decode(node: Node, rest: Seq<u8>) -> Dispatch
    decreases rest.len(),
{
    if rest.len() == 0 {
        Dispatch::Underrun
    } else {
        match entry(node, rest[0]) {
            Entry::Unassigned => Dispatch::Unassigned(seq![rest[0]]),
            Entry::Direct(l) => Dispatch::Found(l, 1),
            Entry::Sub(child) => match decode(child, rest.drop_first()) {
                Dispatch::Found(l, depth) => Dispatch::Found(l, depth + 1),
                Dispatch::Unassigned(prefix) => Dispatch::Unassigned(seq![rest[0]] + prefix),
                Dispatch::Underrun => Dispatch::Underrun,
            },
        }
    }
}

/// Reading one level of the opcode tree: a byte with a loader yields it
/// after exactly that byte, an unassigned byte is reported as the prefix read
/// so far, and a byte that leads to a child table reads on there.
pub proof fn lemma_decode_step(node: Node, b: u8, tail: Seq<u8>)
    ensures
        entry(node, b) matches Entry::Direct(l) ==> decode(node, seq![b] + tail) == Dispatch::Found(l, 1),
        entry(node, b) matches Entry::Unassigned ==> decode(node, seq![b] + tail)
            == Dispatch::Unassigned(seq![b]),
        entry(node, b) matches Entry::Sub(child) ==> decode(node, seq![b] + tail) == match decode(
            child,
            tail,
        ) {
            Dispatch::Found(l, depth) => Dispatch::Found(l, depth + 1),
            Dispatch::Unassigned(prefix) => Dispatch::Unassigned(seq![b] + prefix),
            Dispatch::Underrun => Dispatch::Underrun,
        },
{
    let rest = seq![b] + tail;
    assert(rest[0] == b);
    assert(rest.drop_first() =~= tail);
}


pub open spec fn root_entry(b: u8) -> Entry {
    if b == 0x00 {
        Entry::Direct(Loader::Nop)
    } else if 0x01 <= b <= 0x0F {
        Entry::Direct(Loader::XchgSimple)
    } else if b == 0x10 {
        Entry::Direct(Loader::XchgStd)
    } else if b == 0x11 {
        Entry::Direct(Loader::XchgLong)
    } else if 0x12 <= b <= 0x1F {
        Entry::Direct(Loader::XchgSimple)
    } else if 0x20 <= b <= 0x2F {
        Entry::Direct(Loader::PushSimple)
    } else if 0x30 <= b <= 0x3F {
        Entry::Direct(Loader::PopSimple)
    } else if 0x40 <= b <= 0x4F {
        Entry::Direct(Loader::Xchg3)
    } else if b == 0x50 {
        Entry::Direct(Loader::Xchg2)
    } else if b == 0x51 {
        Entry::Direct(Loader::Xcpu)
    } else if b == 0x52 {
        Entry::Direct(Loader::Puxc)
    } else if b == 0x53 {
        Entry::Direct(Loader::Push2)
    } else if b == 0x54 {
        Entry::Sub(Node::Prefix54)
    } else if b == 0x55 {
        Entry::Direct(Loader::Blkswap)
    } else if b == 0x56 {
        Entry::Direct(Loader::Push)
    } else if b == 0x57 {
        Entry::Direct(Loader::Pop)
    } else if b == 0x58 {
        Entry::Direct(Loader::Rot)
    } else if b == 0x59 {
        Entry::Direct(Loader::Rotrev)
    } else if b == 0x5A {
        Entry::Direct(Loader::Swap2)
    } else if b == 0x5B {
        Entry::Direct(Loader::Drop2)
    } else if b == 0x5C {
        Entry::Direct(Loader::Dup2)
    } else if b == 0x5D {
        Entry::Direct(Loader::Over2)
    } else if b == 0x5E {
        Entry::Direct(Loader::Reverse)
    } else if b == 0x5F {
        Entry::Sub(Node::Prefix5F)
    } else if b == 0x60 {
        Entry::Direct(Loader::Pick)
    } else if b == 0x61 {
        Entry::Direct(Loader::Rollx)
    } else if b == 0x62 {
        Entry::Direct(Loader::Rollrevx)
    } else if b == 0x63 {
        Entry::Direct(Loader::Blkswx)
    } else if b == 0x64 {
        Entry::Direct(Loader::Revx)
    } else if b == 0x65 {
        Entry::Direct(Loader::Dropx)
    } else if b == 0x66 {
        Entry::Direct(Loader::Tuck)
    } else if b == 0x67 {
        Entry::Direct(Loader::Xchgx)
    } else if b == 0x68 {
        Entry::Direct(Loader::Depth)
    } else if b == 0x69 {
        Entry::Direct(Loader::Chkdepth)
    } else if b == 0x6A {
        Entry::Direct(Loader::Onlytopx)
    } else if b == 0x6B {
        Entry::Direct(Loader::Onlyx)
    } else if b == 0x6C {
        Entry::Sub(Node::Prefix6C)
    } else if b == 0x6D {
        Entry::Direct(Loader::Null)
    } else if b == 0x6E {
        Entry::Direct(Loader::Isnull)
    } else if b == 0x6F {
        Entry::Sub(Node::Prefix6F)
    } else if 0x70 <= b <= 0x81 {
        Entry::Direct(Loader::Pushint)
    } else if b == 0x82 {
        Entry::Direct(Loader::PushintBig)
    } else if b == 0x83 {
        Entry::Sub(Node::Prefix83)
    } else if b == 0x84 {
        Entry::Direct(Loader::Pushpow2dec)
    } else if b == 0x85 {
        Entry::Direct(Loader::Pushnegpow2)
    } else if b == 0x88 {
        Entry::Direct(Loader::Pushref)
    } else if b == 0x89 {
        Entry::Direct(Loader::Pushrefslice)
    } else if b == 0x8A {
        Entry::Direct(Loader::Pushrefcont)
    } else if b == 0x8B {
        Entry::Direct(Loader::PushsliceShort)
    } else if b == 0x8C {
        Entry::Direct(Loader::PushsliceMid)
    } else if b == 0x8D {
        Entry::Direct(Loader::PushsliceLong)
    } else if 0x8E <= b <= 0x8F {
        Entry::Direct(Loader::PushcontLong)
    } else if 0x90 <= b <= 0x9F {
        Entry::Direct(Loader::PushcontShort)
    } else if b == 0xA0 {
        Entry::Direct(Loader::Add(Variant::Signaling))
    } else if b == 0xA1 {
        Entry::Direct(Loader::Sub(Variant::Signaling))
    } else if b == 0xA2 {
        Entry::Direct(Loader::Subr(Variant::Signaling))
    } else if b == 0xA3 {
        Entry::Direct(Loader::Negate(Variant::Signaling))
    } else if b == 0xA4 {
        Entry::Direct(Loader::Inc(Variant::Signaling))
    } else if b == 0xA5 {
        Entry::Direct(Loader::Dec(Variant::Signaling))
    } else if b == 0xA6 {
        Entry::Direct(Loader::Addconst(Variant::Signaling))
    } else if b == 0xA7 {
        Entry::Direct(Loader::Mulconst(Variant::Signaling))
    } else if b == 0xA8 {
        Entry::Direct(Loader::Mul(Variant::Signaling))
    } else if b == 0xA9 {
        Entry::Direct(Loader::Divmod(Variant::Signaling))
    } else if b == 0xAA {
        Entry::Direct(Loader::Lshift(Variant::Signaling))
    } else if b == 0xAB {
        Entry::Direct(Loader::Rshift(Variant::Signaling))
    } else if b == 0xAC {
        Entry::Direct(Loader::Lshift(Variant::Signaling))
    } else if b == 0xAD {
        Entry::Direct(Loader::Rshift(Variant::Signaling))
    } else if b == 0xAE {
        Entry::Direct(Loader::Pow2(Variant::Signaling))
    } else if b == 0xB0 {
        Entry::Direct(Loader::And(Variant::Signaling))
    } else if b == 0xB1 {
        Entry::Direct(Loader::Or(Variant::Signaling))
    } else if b == 0xB2 {
        Entry::Direct(Loader::Xor(Variant::Signaling))
    } else if b == 0xB3 {
        Entry::Direct(Loader::Not(Variant::Signaling))
    } else if b == 0xB4 {
        Entry::Direct(Loader::Fits(Variant::Signaling))
    } else if b == 0xB5 {
        Entry::Direct(Loader::Ufits(Variant::Signaling))
    } else if b == 0xB6 {
        Entry::Sub(Node::PrefixB6)
    } else if b == 0xB7 {
        Entry::Sub(Node::PrefixB7)
    } else if b == 0xB8 {
        Entry::Direct(Loader::Sgn(Variant::Signaling))
    } else if b == 0xB9 {
        Entry::Direct(Loader::Less(Variant::Signaling))
    } else if b == 0xBA {
        Entry::Direct(Loader::Equal(Variant::Signaling))
    } else if b == 0xBB {
        Entry::Direct(Loader::Leq(Variant::Signaling))
    } else if b == 0xBC {
        Entry::Direct(Loader::Greater(Variant::Signaling))
    } else if b == 0xBD {
        Entry::Direct(Loader::Neq(Variant::Signaling))
    } else if b == 0xBE {
        Entry::Direct(Loader::Geq(Variant::Signaling))
    } else if b == 0xBF {
        Entry::Direct(Loader::Cmp(Variant::Signaling))
    } else if b == 0xC0 {
        Entry::Direct(Loader::Eqint(Variant::Signaling))
    } else if b == 0xC1 {
        Entry::Direct(Loader::Lessint(Variant::Signaling))
    } else if b == 0xC2 {
        Entry::Direct(Loader::Gtint(Variant::Signaling))
    } else if b == 0xC3 {
        Entry::Direct(Loader::Neqint(Variant::Signaling))
    } else if b == 0xC4 {
        Entry::Direct(Loader::Isnan)
    } else if b == 0xC5 {
        Entry::Direct(Loader::Chknan)
    } else if b == 0xC7 {
        Entry::Sub(Node::PrefixC7)
    } else if b == 0xC8 {
        Entry::Direct(Loader::Newc)
    } else if b == 0xC9 {
        Entry::Direct(Loader::Endc)
    } else if b == 0xCA {
        Entry::Direct(Loader::Sti)
    } else if b == 0xCB {
        Entry::Direct(Loader::Stu)
    } else if b == 0xCC {
        Entry::Direct(Loader::Stref)
    } else if b == 0xCD {
        Entry::Direct(Loader::Endcst)
    } else if b == 0xCE {
        Entry::Direct(Loader::Stslice)
    } else if b == 0xCF {
        Entry::Sub(Node::PrefixCF)
    } else if b == 0xD0 {
        Entry::Direct(Loader::Ctos)
    } else if b == 0xD1 {
        Entry::Direct(Loader::Ends)
    } else if b == 0xD2 {
        Entry::Direct(Loader::Ldi)
    } else if b == 0xD3 {
        Entry::Direct(Loader::Ldu)
    } else if b == 0xD4 {
        Entry::Direct(Loader::Ldref)
    } else if b == 0xD5 {
        Entry::Direct(Loader::Ldrefrtos)
    } else if b == 0xD6 {
        Entry::Direct(Loader::Ldslice)
    } else if b == 0xD7 {
        Entry::Sub(Node::PrefixD7)
    } else if b == 0xD8 {
        Entry::Direct(Loader::Callx)
    } else if b == 0xD9 {
        Entry::Direct(Loader::Jmpx)
    } else if b == 0xDA {
        Entry::Direct(Loader::Callxargs)
    } else if b == 0xDB {
        Entry::Sub(Node::PrefixDB)
    } else if b == 0xDC {
        Entry::Direct(Loader::Ifret)
    } else if b == 0xDD {
        Entry::Direct(Loader::Ifnotret)
    } else if b == 0xDE {
        Entry::Direct(Loader::If)
    } else if b == 0xDF {
        Entry::Direct(Loader::Ifnot)
    } else if b == 0xE0 {
        Entry::Direct(Loader::Ifjmp)
    } else if b == 0xE1 {
        Entry::Direct(Loader::Ifnotjmp)
    } else if b == 0xE2 {
        Entry::Direct(Loader::Ifelse)
    } else if b == 0xE3 {
        Entry::Sub(Node::PrefixE3)
    } else if b == 0xE4 {
        Entry::Direct(Loader::Repeat)
    } else if b == 0xE5 {
        Entry::Direct(Loader::Repeatend)
    } else if b == 0xE6 {
        Entry::Direct(Loader::Until)
    } else if b == 0xE7 {
        Entry::Direct(Loader::Untilend)
    } else if b == 0xE8 {
        Entry::Direct(Loader::While)
    } else if b == 0xE9 {
        Entry::Direct(Loader::Whileend)
    } else if b == 0xEA {
        Entry::Direct(Loader::Again)
    } else if b == 0xEB {
        Entry::Direct(Loader::Againend)
    } else if b == 0xEC {
        Entry::Direct(Loader::Setcontargs)
    } else if b == 0xED {
        Entry::Sub(Node::PrefixED)
    } else if b == 0xEE {
        Entry::Direct(Loader::Blessargs)
    } else if b == 0xF0 {
        Entry::Direct(Loader::CallShort)
    } else if b == 0xF1 {
        Entry::Sub(Node::PrefixF1)
    } else if b == 0xF2 {
        Entry::Sub(Node::PrefixF2)
    } else if b == 0xF3 {
        Entry::Direct(Loader::Tryargs)
    } else if b == 0xF4 {
        Entry::Sub(Node::PrefixF4)
    } else if b == 0xF8 {
        Entry::Sub(Node::PrefixF8)
    } else if b == 0xF9 {
        Entry::Sub(Node::PrefixF9)
    } else if b == 0xFA {
        Entry::Sub(Node::PrefixFA)
    } else if b == 0xFB {
        Entry::Sub(Node::PrefixFB)
    } else if b == 0xFE {
        Entry::Sub(Node::PrefixFE)
    } else if b == 0xFF {
        Entry::Sub(Node::PrefixFF)
    } else {
        Entry::Unassigned
    }
}

pub open spec fn prefix_54_entry(b: u8) -> Entry {
    if b <= 0x0F {
        Entry::Direct(Loader::Xchg3)
    } else if 0x10 <= b <= 0x1F {
        Entry::Direct(Loader::Xc2pu)
    } else if 0x20 <= b <= 0x2F {
        Entry::Direct(Loader::Xcpuxc)
    } else if 0x30 <= b <= 0x3F {
        Entry::Direct(Loader::Xcpu2)
    } else if 0x40 <= b <= 0x4F {
        Entry::Direct(Loader::Puxc2)
    } else if 0x50 <= b <= 0x5F {
        Entry::Direct(Loader::Puxcpu)
    } else if 0x60 <= b <= 0x6F {
        Entry::Direct(Loader::Pu2xc)
    } else if 0x70 <= b <= 0x7F {
        Entry::Direct(Loader::Push3)
    } else {
        Entry::Unassigned
    }
}

pub open spec fn prefix_5f_entry(b: u8) -> Entry {
    if b <= 0x0F {
        Entry::Direct(Loader::Blkdrop)
    } else {
        Entry::Direct(Loader::Blkpush)
    }
}

pub open spec fn prefix_6c_entry(b: u8) -> Entry {
    if 0x10 <= b <= 0xFF {
        Entry::Direct(Loader::Blkdrop2)
    } else {
        Entry::Unassigned
    }
}

pub open spec fn prefix_6f_entry(b: u8) -> Entry {
    if b <= 0x0F {
        Entry::Direct(Loader::TupleCreate)
    } else if 0x10 <= b <= 0x1F {
        Entry::Direct(Loader::TupleIndex)
    } else if 0x20 <= b <= 0x2F {
        Entry::Direct(Loader::TupleUn)
    } else if 0x30 <= b <= 0x3F {
        Entry::Direct(Loader::TupleUnpackfirst)
    } else if 0x40 <= b <= 0x4F {
        Entry::Direct(Loader::TupleExplode)
    } else if 0x50 <= b <= 0x5F {
        Entry::Direct(Loader::TupleSetindex)
    } else if 0x60 <= b <= 0x6F {
        Entry::Direct(Loader::TupleIndexQuiet)
    } else if 0x70 <= b <= 0x7F {
        Entry::Direct(Loader::TupleSetindexQuiet)
    } else if b == 0x80 {
        Entry::Direct(Loader::TupleCreatevar)
    } else if b == 0x81 {
        Entry::Direct(Loader::TupleIndexvar)
    } else if b == 0x82 {
        Entry::Direct(Loader::TupleUntuplevar)
    } else if b == 0x83 {
        Entry::Direct(Loader::TupleUnpackfirstvar)
    } else if b == 0x84 {
        Entry::Direct(Loader::TupleExplodevar)
    } else if b == 0x85 {
        Entry::Direct(Loader::TupleSetindexvar)
    } else if b == 0x86 {
        Entry::Direct(Loader::TupleIndexvarQuiet)
    } else if b == 0x87 {
        Entry::Direct(Loader::TupleSetindexvarQuiet)
    } else if b == 0x88 {
        Entry::Direct(Loader::TupleLen)
    } else if b == 0x89 {
        Entry::Direct(Loader::TupleLenQuiet)
    } else if b == 0x8A {
        Entry::Direct(Loader::Istuple)
    } else if b == 0x8B {
        Entry::Direct(Loader::TupleLast)
    } else if b == 0x8C {
        Entry::Direct(Loader::TuplePush)
    } else if b == 0x8D {
        Entry::Direct(Loader::TuplePop)
    } else if b == 0xA0 {
        Entry::Direct(Loader::Nullswapif)
    } else if b == 0xA1 {
        Entry::Direct(Loader::Nullswapifnot)
    } else if b == 0xA2 {
        Entry::Direct(Loader::Nullrotrif)
    } else if b == 0xA3 {
        Entry::Direct(Loader::Nullrotrifnot)
    } else if b == 0xA4 {
        Entry::Direct(Loader::Nullswapif2)
    } else if b == 0xA5 {
        Entry::Direct(Loader::Nullswapifnot2)
    } else if b == 0xA6 {
        Entry::Direct(Loader::Nullrotrif2)
    } else if b == 0xA7 {
        Entry::Direct(Loader::Nullrotrifnot2)
    } else if 0xB0 <= b <= 0xBF {
        Entry::Direct(Loader::TupleIndex2)
    } else if 0xC0 <= b <= 0xFF {
        Entry::Direct(Loader::TupleIndex3)
    } else {
        Entry::Unassigned
    }
}

pub open spec fn prefix_83_entry(b: u8) -> Entry {
    if b <= 0xFE {
        Entry::Direct(Loader::Pushpow2)
    } else {
        Entry::Direct(Loader::Pushnan)
    }
}

pub open spec fn prefix_b6_entry(b: u8) -> Entry {
    if b == 0x00 {
        Entry::Direct(Loader::Fitsx(Variant::Signaling))
    } else if b == 0x01 {
        Entry::Direct(Loader::Ufitsx(Variant::Signaling))
    } else if b == 0x02 {
        Entry::Direct(Loader::Bitsize(Variant::Signaling))
    } else if b == 0x03 {
        Entry::Direct(Loader::Ubitsize(Variant::Signaling))
    } else if b == 0x08 {
        Entry::Direct(Loader::Min(Variant::Signaling))
    } else if b == 0x09 {
        Entry::Direct(Loader::Max(Variant::Signaling))
    } else if b == 0x0A {
        Entry::Direct(Loader::Minmax(Variant::Signaling))
    } else if b == 0x0B {
        Entry::Direct(Loader::Abs(Variant::Signaling))
    } else {
        Entry::Unassigned
    }
}

pub open spec fn prefix_b7_entry(b: u8) -> Entry {
    if b == 0xA0 {
        Entry::Direct(Loader::Add(Variant::Quiet))
    } else if b == 0xA1 {
        Entry::Direct(Loader::Sub(Variant::Quiet))
    } else if b == 0xA2 {
        Entry::Direct(Loader::Subr(Variant::Quiet))
    } else if b == 0xA3 {
        Entry::Direct(Loader::Negate(Variant::Quiet))
    } else if b == 0xA4 {
        Entry::Direct(Loader::Inc(Variant::Quiet))
    } else if b == 0xA5 {
        Entry::Direct(Loader::Dec(Variant::Quiet))
    } else if b == 0xA6 {
        Entry::Direct(Loader::Addconst(Variant::Quiet))
    } else if b == 0xA7 {
        Entry::Direct(Loader::Mulconst(Variant::Quiet))
    } else if b == 0xA8 {
        Entry::Direct(Loader::Mul(Variant::Quiet))
    } else if b == 0xA9 {
        Entry::Direct(Loader::Divmod(Variant::Quiet))
    } else if b == 0xAA {
        Entry::Direct(Loader::Lshift(Variant::Quiet))
    } else if b == 0xAB {
        Entry::Direct(Loader::Rshift(Variant::Quiet))
    } else if b == 0xAC {
        Entry::Direct(Loader::Lshift(Variant::Quiet))
    } else if b == 0xAD {
        Entry::Direct(Loader::Rshift(Variant::Quiet))
    } else if b == 0xAE {
        Entry::Direct(Loader::Pow2(Variant::Quiet))
    } else if b == 0xB0 {
        Entry::Direct(Loader::And(Variant::Quiet))
    } else if b == 0xB1 {
        Entry::Direct(Loader::Or(Variant::Quiet))
    } else if b == 0xB2 {
        Entry::Direct(Loader::Xor(Variant::Quiet))
    } else if b == 0xB3 {
        Entry::Direct(Loader::Not(Variant::Quiet))
    } else if b == 0xB4 {
        Entry::Direct(Loader::Fits(Variant::Quiet))
    } else if b == 0xB5 {
        Entry::Direct(Loader::Ufits(Variant::Quiet))
    } else if b == 0xB6 {
        Entry::Sub(Node::PrefixB7B6)
    } else if b == 0xB8 {
        Entry::Direct(Loader::Sgn(Variant::Quiet))
    } else if b == 0xB9 {
        Entry::Direct(Loader::Less(Variant::Quiet))
    } else if b == 0xBA {
        Entry::Direct(Loader::Equal(Variant::Quiet))
    } else if b == 0xBB {
        Entry::Direct(Loader::Leq(Variant::Quiet))
    } else if b == 0xBC {
        Entry::Direct(Loader::Greater(Variant::Quiet))
    } else if b == 0xBD {
        Entry::Direct(Loader::Neq(Variant::Quiet))
    } else if b == 0xBE {
        Entry::Direct(Loader::Geq(Variant::Quiet))
    } else if b == 0xBF {
        Entry::Direct(Loader::Cmp(Variant::Quiet))
    } else if b == 0xC0 {
        Entry::Direct(Loader::Eqint(Variant::Quiet))
    } else if b == 0xC1 {
        Entry::Direct(Loader::Lessint(Variant::Quiet))
    } else if b == 0xC2 {
        Entry::Direct(Loader::Gtint(Variant::Quiet))
    } else if b == 0xC3 {
        Entry::Direct(Loader::Neqint(Variant::Quiet))
    } else {
        Entry::Unassigned
    }
}

pub open spec fn prefix_b7b6_entry(b: u8) -> Entry {
    if b == 0x00 {
        Entry::Direct(Loader::Fitsx(Variant::Quiet))
    } else if b == 0x01 {
        Entry::Direct(Loader::Ufitsx(Variant::Quiet))
    } else if b == 0x02 {
        Entry::Direct(Loader::Bitsize(Variant::Quiet))
    } else if b == 0x03 {
        Entry::Direct(Loader::Ubitsize(Variant::Quiet))
    } else if b == 0x08 {
        Entry::Direct(Loader::Min(Variant::Quiet))
    } else if b == 0x09 {
        Entry::Direct(Loader::Max(Variant::Quiet))
    } else if b == 0x0A {
        Entry::Direct(Loader::Minmax(Variant::Quiet))
    } else if b == 0x0B {
        Entry::Direct(Loader::Abs(Variant::Quiet))
    } else {
        Entry::Unassigned
    }
}

pub open spec fn prefix_c7_entry(b: u8) -> Entry {
    if b == 0x00 {
        Entry::Direct(Loader::Sempty)
    } else if b == 0x01 {
        Entry::Direct(Loader::Sdempty)
    } else if b == 0x02 {
        Entry::Direct(Loader::Srempty)
    } else if b == 0x03 {
        Entry::Direct(Loader::Sdfirst)
    } else if b == 0x04 {
        Entry::Direct(Loader::Sdlexcmp)
    } else if b == 0x05 {
        Entry::Direct(Loader::Sdeq)
    } else if b == 0x08 {
        Entry::Direct(Loader::Sdpfx)
    } else if b == 0x09 {
        Entry::Direct(Loader::Sdpfxrev)
    } else if b == 0x0A {
        Entry::Direct(Loader::Sdppfx)
    } else if b == 0x0B {
        Entry::Direct(Loader::Sdppfxrev)
    } else if b == 0x0C {
        Entry::Direct(Loader::Sdsfx)
    } else if b == 0x0D {
        Entry::Direct(Loader::Sdsfxrev)
    } else if b == 0x0E {
        Entry::Direct(Loader::Sdpsfx)
    } else if b == 0x0F {
        Entry::Direct(Loader::Sdpsfxrev)
    } else if b == 0x10 {
        Entry::Direct(Loader::Sdcntlead0)
    } else if b == 0x11 {
        Entry::Direct(Loader::Sdcntlead1)
    } else if b == 0x12 {
        Entry::Direct(Loader::Sdcnttrail0)
    } else if b == 0x13 {
        Entry::Direct(Loader::Sdcnttrail1)
    } else {
        Entry::Unassigned
    }
}

pub open spec fn prefix_cf_entry(b: u8) -> Entry {
    if b == 0x00 {
        Entry::Direct(Loader::Stix)
    } else if b == 0x01 {
        Entry::Direct(Loader::Stux)
    } else if b == 0x02 {
        Entry::Direct(Loader::Stixr)
    } else if b == 0x03 {
        Entry::Direct(Loader::Stuxr)
    } else if b == 0x04 {
        Entry::Direct(Loader::Stixq)
    } else if b == 0x05 {
        Entry::Direct(Loader::Stuxq)
    } else if b == 0x06 {
        Entry::Direct(Loader::Stixrq)
    } else if b == 0x07 {
        Entry::Direct(Loader::Stuxrq)
    } else if b == 0x08 {
        Entry::Direct(Loader::Sti)
    } else if b == 0x09 {
        Entry::Direct(Loader::Stu)
    } else if b == 0x0A {
        Entry::Direct(Loader::Stir)
    } else if b == 0x0B {
        Entry::Direct(Loader::Stur)
    } else if b == 0x0C {
        Entry::Direct(Loader::Stiq)
    } else if b == 0x0D {
        Entry::Direct(Loader::Stuq)
    } else if b == 0x0E {
        Entry::Direct(Loader::Stirq)
    } else if b == 0x0F {
        Entry::Direct(Loader::Sturq)
    } else if b == 0x10 {
        Entry::Direct(Loader::Stref)
    } else if b == 0x11 {
        Entry::Direct(Loader::Stbref)
    } else if b == 0x12 {
        Entry::Direct(Loader::Stslice)
    } else if b == 0x13 {
        Entry::Direct(Loader::Stb)
    } else if b == 0x14 {
        Entry::Direct(Loader::Strefr)
    } else if b == 0x15 {
        Entry::Direct(Loader::Endcst)
    } else if b == 0x16 {
        Entry::Direct(Loader::Stslicer)
    } else if b == 0x17 {
        Entry::Direct(Loader::Stbr)
    } else if b == 0x18 {
        Entry::Direct(Loader::Strefq)
    } else if b == 0x19 {
        Entry::Direct(Loader::Stbrefq)
    } else if b == 0x1A {
        Entry::Direct(Loader::Stsliceq)
    } else if b == 0x1B {
        Entry::Direct(Loader::Stbq)
    } else if b == 0x1C {
        Entry::Direct(Loader::Strefrq)
    } else if b == 0x1D {
        Entry::Direct(Loader::Stbrefrq)
    } else if b == 0x1E {
        Entry::Direct(Loader::Stslicerq)
    } else if b == 0x1F {
        Entry::Direct(Loader::Stbrq)
    } else if b == 0x20 {
        Entry::Direct(Loader::Strefconst)
    } else if b == 0x21 {
        Entry::Direct(Loader::Stref2const)
    } else if b == 0x23 {
        Entry::Direct(Loader::Endxc)
    } else if b == 0x28 {
        Entry::Direct(Loader::Stile4)
    } else if b == 0x29 {
        Entry::Direct(Loader::Stule4)
    } else if b == 0x2A {
        Entry::Direct(Loader::Stile8)
    } else if b == 0x2B {
        Entry::Direct(Loader::Stule8)
    } else if b == 0x30 {
        Entry::Direct(Loader::Bdepth)
    } else if b == 0x31 {
        Entry::Direct(Loader::Bbits)
    } else if b == 0x32 {
        Entry::Direct(Loader::Brefs)
    } else if b == 0x33 {
        Entry::Direct(Loader::Bbitrefs)
    } else if b == 0x35 {
        Entry::Direct(Loader::Brembits)
    } else if b == 0x36 {
        Entry::Direct(Loader::Bremrefs)
    } else if b == 0x37 {
        Entry::Direct(Loader::Brembitrefs)
    } else if b == 0x38 {
        Entry::Direct(Loader::BchkbitsShort)
    } else if b == 0x39 {
        Entry::Direct(Loader::BchkbitsLong)
    } else if b == 0x3A {
        Entry::Direct(Loader::Bchkrefs)
    } else if b == 0x3B {
        Entry::Direct(Loader::Bchkbitrefs)
    } else if b == 0x3C {
        Entry::Direct(Loader::BchkbitsqShort)
    } else if b == 0x3D {
        Entry::Direct(Loader::BchkbitsqLong)
    } else if b == 0x3E {
        Entry::Direct(Loader::Bchkrefsq)
    } else if b == 0x3F {
        Entry::Direct(Loader::Bchkbitrefsq)
    } else if b == 0x40 {
        Entry::Direct(Loader::Stzeroes)
    } else if b == 0x41 {
        Entry::Direct(Loader::Stones)
    } else if b == 0x42 {
        Entry::Direct(Loader::Stsame)
    } else if 0x80 <= b <= 0xFF {
        Entry::Direct(Loader::Stsliceconst)
    } else {
        Entry::Unassigned
    }
}

pub open spec fn prefix_d7_entry(b: u8) -> Entry {
    if b == 0x00 {
        Entry::Direct(Loader::Ldix)
    } else if b == 0x01 {
        Entry::Direct(Loader::Ldux)
    } else if b == 0x02 {
        Entry::Direct(Loader::Pldix)
    } else if b == 0x03 {
        Entry::Direct(Loader::Pldux)
    } else if b == 0x04 {
        Entry::Direct(Loader::Ldixq)
    } else if b == 0x05 {
        Entry::Direct(Loader::Lduxq)
    } else if b == 0x06 {
        Entry::Direct(Loader::Pldixq)
    } else if b == 0x07 {
        Entry::Direct(Loader::Plduxq)
    } else if b == 0x08 {
        Entry::Direct(Loader::Ldi)
    } else if b == 0x09 {
        Entry::Direct(Loader::Ldu)
    } else if b == 0x0A {
        Entry::Direct(Loader::Pldi)
    } else if b == 0x0B {
        Entry::Direct(Loader::Pldu)
    } else if b == 0x0C {
        Entry::Direct(Loader::Ldiq)
    } else if b == 0x0D {
        Entry::Direct(Loader::Lduq)
    } else if b == 0x0E {
        Entry::Direct(Loader::Pldiq)
    } else if b == 0x0F {
        Entry::Direct(Loader::Plduq)
    } else if 0x10 <= b <= 0x17 {
        Entry::Direct(Loader::Plduz)
    } else if b == 0x18 {
        Entry::Direct(Loader::Ldslicex)
    } else if b == 0x19 {
        Entry::Direct(Loader::Pldslicex)
    } else if b == 0x1A {
        Entry::Direct(Loader::Ldslicexq)
    } else if b == 0x1B {
        Entry::Direct(Loader::Pldslicexq)
    } else if b == 0x1C {
        Entry::Direct(Loader::Ldslice)
    } else if b == 0x1D {
        Entry::Direct(Loader::Pldslice)
    } else if b == 0x1E {
        Entry::Direct(Loader::Ldsliceq)
    } else if b == 0x1F {
        Entry::Direct(Loader::Pldsliceq)
    } else if b == 0x20 {
        Entry::Direct(Loader::Pldslicex)
    } else if b == 0x21 {
        Entry::Direct(Loader::Sdskipfirst)
    } else if b == 0x22 {
        Entry::Direct(Loader::Sdcutlast)
    } else if b == 0x23 {
        Entry::Direct(Loader::Sdskiplast)
    } else if b == 0x24 {
        Entry::Direct(Loader::Sdsubstr)
    } else if b == 0x26 {
        Entry::Direct(Loader::Sdbeginsx)
    } else if b == 0x27 {
        Entry::Direct(Loader::Sdbeginsxq)
    } else if 0x28 <= b <= 0x2B {
        Entry::Direct(Loader::Sdbegins)
    } else if 0x2C <= b <= 0x2F {
        Entry::Direct(Loader::Sdbeginsq)
    } else if b == 0x30 {
        Entry::Direct(Loader::Scutfirst)
    } else if b == 0x31 {
        Entry::Direct(Loader::Sskipfirst)
    } else if b == 0x32 {
        Entry::Direct(Loader::Scutlast)
    } else if b == 0x33 {
        Entry::Direct(Loader::Sskiplast)
    } else if b == 0x34 {
        Entry::Direct(Loader::Subslice)
    } else if b == 0x36 {
        Entry::Direct(Loader::Split)
    } else if b == 0x37 {
        Entry::Direct(Loader::Splitq)
    } else if b == 0x39 {
        Entry::Direct(Loader::Xctos)
    } else if b == 0x3A {
        Entry::Direct(Loader::Xload)
    } else if b == 0x3B {
        Entry::Direct(Loader::Xloadq)
    } else if b == 0x41 {
        Entry::Direct(Loader::Schkbits)
    } else if b == 0x42 {
        Entry::Direct(Loader::Schkrefs)
    } else if b == 0x43 {
        Entry::Direct(Loader::Schkbitrefs)
    } else if b == 0x45 {
        Entry::Direct(Loader::Schkbitsq)
    } else if b == 0x46 {
        Entry::Direct(Loader::Schkrefsq)
    } else if b == 0x47 {
        Entry::Direct(Loader::Schkbitrefsq)
    } else if b == 0x48 {
        Entry::Direct(Loader::Pldrefvar)
    } else if b == 0x49 {
        Entry::Direct(Loader::Sbits)
    } else if b == 0x4A {
        Entry::Direct(Loader::Srefs)
    } else if b == 0x4B {
        Entry::Direct(Loader::Sbitrefs)
    } else if b == 0x4C {
        Entry::Direct(Loader::Pldref)
    } else if 0x4D <= b <= 0x4F {
        Entry::Direct(Loader::Pldrefidx)
    } else if b == 0x50 {
        Entry::Direct(Loader::Ldile4)
    } else if b == 0x51 {
        Entry::Direct(Loader::Ldule4)
    } else if b == 0x52 {
        Entry::Direct(Loader::Ldile8)
    } else if b == 0x53 {
        Entry::Direct(Loader::Ldule8)
    } else if b == 0x54 {
        Entry::Direct(Loader::Pldile4)
    } else if b == 0x55 {
        Entry::Direct(Loader::Pldule4)
    } else if b == 0x56 {
        Entry::Direct(Loader::Pldile8)
    } else if b == 0x57 {
        Entry::Direct(Loader::Pldule8)
    } else if b == 0x58 {
        Entry::Direct(Loader::Ldile4q)
    } else if b == 0x59 {
        Entry::Direct(Loader::Ldule4q)
    } else if b == 0x5A {
        Entry::Direct(Loader::Ldile8q)
    } else if b == 0x5B {
        Entry::Direct(Loader::Ldule8q)
    } else if b == 0x5C {
        Entry::Direct(Loader::Pldile4q)
    } else if b == 0x5D {
        Entry::Direct(Loader::Pldule4q)
    } else if b == 0x5E {
        Entry::Direct(Loader::Pldile8q)
    } else if b == 0x5F {
        Entry::Direct(Loader::Pldule8q)
    } else if b == 0x60 {
        Entry::Direct(Loader::Ldzeroes)
    } else if b == 0x61 {
        Entry::Direct(Loader::Ldones)
    } else if b == 0x62 {
        Entry::Direct(Loader::Ldsame)
    } else if b == 0x64 {
        Entry::Direct(Loader::Sdepth)
    } else if b == 0x65 {
        Entry::Direct(Loader::Cdepth)
    } else {
        Entry::Unassigned
    }
}

pub open spec fn prefix_db_entry(b: u8) -> Entry {
    if b <= 0x0F {
        Entry::Direct(Loader::Callxargs)
    } else if 0x10 <= b <= 0x1F {
        Entry::Direct(Loader::Jmpxargs)
    } else if 0x20 <= b <= 0x2F {
        Entry::Direct(Loader::Retargs)
    } else if b == 0x30 {
        Entry::Direct(Loader::Ret)
    } else if b == 0x31 {
        Entry::Direct(Loader::Retalt)
    } else if b == 0x32 {
        Entry::Direct(Loader::Retbool)
    } else if b == 0x34 {
        Entry::Direct(Loader::Callcc)
    } else if b == 0x35 {
        Entry::Direct(Loader::Jmpxdata)
    } else if b == 0x36 {
        Entry::Direct(Loader::Callccargs)
    } else if b == 0x38 {
        Entry::Direct(Loader::Callxva)
    } else if b == 0x39 {
        Entry::Direct(Loader::Retva)
    } else if b == 0x3A {
        Entry::Direct(Loader::Jmpxva)
    } else if b == 0x3B {
        Entry::Direct(Loader::Callccva)
    } else if b == 0x3C {
        Entry::Direct(Loader::Callref)
    } else if b == 0x3D {
        Entry::Direct(Loader::Jmpref)
    } else if b == 0x3E {
        Entry::Direct(Loader::Jmprefdata)
    } else if b == 0x3F {
        Entry::Direct(Loader::Retdata)
    } else {
        Entry::Unassigned
    }
}

pub open spec fn prefix_e3_entry(b: u8) -> Entry {
    if b == 0x00 {
        Entry::Direct(Loader::Ifref)
    } else if b == 0x01 {
        Entry::Direct(Loader::Ifnotref)
    } else if b == 0x02 {
        Entry::Direct(Loader::Ifjmpref)
    } else if b == 0x03 {
        Entry::Direct(Loader::Ifnotjmpref)
    } else if b == 0x04 {
        Entry::Direct(Loader::Condsel)
    } else if b == 0x05 {
        Entry::Direct(Loader::Condselchk)
    } else if b == 0x08 {
        Entry::Direct(Loader::Ifretalt)
    } else if b == 0x09 {
        Entry::Direct(Loader::Ifnotretalt)
    } else if b == 0x0D {
        Entry::Direct(Loader::Ifrefelse)
    } else if b == 0x0E {
        Entry::Direct(Loader::Ifelseref)
    } else if b == 0x0F {
        Entry::Direct(Loader::Ifrefelseref)
    } else if b == 0x14 {
        Entry::Direct(Loader::RepeatBreak)
    } else if b == 0x15 {
        Entry::Direct(Loader::RepeatendBreak)
    } else if b == 0x16 {
        Entry::Direct(Loader::UntilBreak)
    } else if b == 0x17 {
        Entry::Direct(Loader::UntilendBreak)
    } else if b == 0x18 {
        Entry::Direct(Loader::WhileBreak)
    } else if b == 0x19 {
        Entry::Direct(Loader::WhileendBreak)
    } else if b == 0x1A {
        Entry::Direct(Loader::AgainBreak)
    } else if b == 0x1B {
        Entry::Direct(Loader::AgainendBreak)
    } else if 0x80 <= b <= 0x9F {
        Entry::Direct(Loader::Ifbitjmp)
    } else if 0xA0 <= b <= 0xBF {
        Entry::Direct(Loader::Ifnbitjmp)
    } else if 0xC0 <= b <= 0xDF {
        Entry::Direct(Loader::Ifbitjmpref)
    } else if 0xE0 <= b <= 0xFF {
        Entry::Direct(Loader::Ifnbitjmpref)
    } else {
        Entry::Unassigned
    }
}

pub open spec fn prefix_ed_entry(b: u8) -> Entry {
    if b <= 0x0F {
        Entry::Direct(Loader::Returnargs)
    } else if b == 0x10 {
        Entry::Direct(Loader::Returnva)
    } else if b == 0x11 {
        Entry::Direct(Loader::Setcontva)
    } else if b == 0x12 {
        Entry::Direct(Loader::Setnumva)
    } else if b == 0x1E {
        Entry::Direct(Loader::Bless)
    } else if b == 0x1F {
        Entry::Direct(Loader::Blessva)
    } else if 0x40 <= b <= 0x4F {
        Entry::Direct(Loader::Pushctr)
    } else if 0x50 <= b <= 0x5F {
        Entry::Direct(Loader::Popctr)
    } else if 0x60 <= b <= 0x6F {
        Entry::Direct(Loader::Setcontctr)
    } else if 0x70 <= b <= 0x7F {
        Entry::Direct(Loader::Setretctr)
    } else if 0x80 <= b <= 0x8F {
        Entry::Direct(Loader::Setaltctr)
    } else if 0x90 <= b <= 0x9F {
        Entry::Direct(Loader::Popsave)
    } else if 0xA0 <= b <= 0xAF {
        Entry::Direct(Loader::Save)
    } else if 0xB0 <= b <= 0xBF {
        Entry::Direct(Loader::Savealt)
    } else if 0xC0 <= b <= 0xCF {
        Entry::Direct(Loader::Saveboth)
    } else if b == 0xE0 {
        Entry::Direct(Loader::Pushctrx)
    } else if b == 0xE1 {
        Entry::Direct(Loader::Popctrx)
    } else if b == 0xE2 {
        Entry::Direct(Loader::Setcontctrx)
    } else if b == 0xF0 {
        Entry::Direct(Loader::Compos)
    } else if b == 0xF1 {
        Entry::Direct(Loader::Composalt)
    } else if b == 0xF2 {
        Entry::Direct(Loader::Composboth)
    } else if b == 0xF3 {
        Entry::Direct(Loader::Atexit)
    } else if b == 0xF4 {
        Entry::Direct(Loader::Atexitalt)
    } else if b == 0xF5 {
        Entry::Direct(Loader::Setexitalt)
    } else if b == 0xF6 {
        Entry::Direct(Loader::Thenret)
    } else if b == 0xF7 {
        Entry::Direct(Loader::Thenretalt)
    } else if b == 0xF8 {
        Entry::Direct(Loader::Invert)
    } else if b == 0xF9 {
        Entry::Direct(Loader::Booleval)
    } else if b == 0xFA {
        Entry::Direct(Loader::Samealt)
    } else if b == 0xFB {
        Entry::Direct(Loader::SamealtSave)
    } else {
        Entry::Unassigned
    }
}

pub open spec fn prefix_f1_entry(b: u8) -> Entry {
    if b <= 0x3F {
        Entry::Direct(Loader::CallLong)
    } else if 0x40 <= b <= 0x7F {
        Entry::Direct(Loader::Jmp)
    } else if 0x80 <= b <= 0xBF {
        Entry::Direct(Loader::Prepare)
    } else {
        Entry::Unassigned
    }
}

pub open spec fn prefix_f2_entry(b: u8) -> Entry {
    if b <= 0x3F {
        Entry::Direct(Loader::ThrowShort)
    } else if 0x40 <= b <= 0x7F {
        Entry::Direct(Loader::ThrowifShort)
    } else if 0x80 <= b <= 0xBF {
        Entry::Direct(Loader::ThrowifnotShort)
    } else if 0xC0 <= b <= 0xC7 {
        Entry::Direct(Loader::ThrowLong)
    } else if 0xC8 <= b <= 0xCF {
        Entry::Direct(Loader::Throwarg)
    } else if 0xD0 <= b <= 0xD7 {
        Entry::Direct(Loader::ThrowifLong)
    } else if 0xD8 <= b <= 0xDF {
        Entry::Direct(Loader::Throwargif)
    } else if 0xE0 <= b <= 0xE7 {
        Entry::Direct(Loader::ThrowifnotLong)
    } else if 0xE8 <= b <= 0xEF {
        Entry::Direct(Loader::Throwargifnot)
    } else if b == 0xF0 {
        Entry::Direct(Loader::Throwany)
    } else if b == 0xF1 {
        Entry::Direct(Loader::Throwargany)
    } else if b == 0xF2 {
        Entry::Direct(Loader::Throwanyif)
    } else if b == 0xF3 {
        Entry::Direct(Loader::Throwarganyif)
    } else if b == 0xF4 {
        Entry::Direct(Loader::Throwanyifnot)
    } else if b == 0xF5 {
        Entry::Direct(Loader::Throwarganyifnot)
    } else if b == 0xFF {
        Entry::Direct(Loader::Try)
    } else {
        Entry::Unassigned
    }
}

pub open spec fn prefix_f4_entry(b: u8) -> Entry {
    if b == 0x00 {
        Entry::Direct(Loader::Stdict)
    } else if b == 0x01 {
        Entry::Direct(Loader::Skipdict)
    } else if b == 0x02 {
        Entry::Direct(Loader::Lddicts)
    } else if b == 0x03 {
        Entry::Direct(Loader::Plddicts)
    } else if b == 0x04 {
        Entry::Direct(Loader::Lddict)
    } else if b == 0x05 {
        Entry::Direct(Loader::Plddict)
    } else if b == 0x06 {
        Entry::Direct(Loader::Lddictq)
    } else if b == 0x07 {
        Entry::Direct(Loader::Plddictq)
    } else if b == 0x0A {
        Entry::Direct(Loader::Dictget)
    } else if b == 0x0B {
        Entry::Direct(Loader::Dictgetref)
    } else if b == 0x0C {
        Entry::Direct(Loader::Dictiget)
    } else if b == 0x0D {
        Entry::Direct(Loader::Dictigetref)
    } else if b == 0x0E {
        Entry::Direct(Loader::Dictuget)
    } else if b == 0x0F {
        Entry::Direct(Loader::Dictugetref)
    } else if b == 0x12 {
        Entry::Direct(Loader::Dictset)
    } else if b == 0x13 {
        Entry::Direct(Loader::Dictsetref)
    } else if b == 0x14 {
        Entry::Direct(Loader::Dictiset)
    } else if b == 0x15 {
        Entry::Direct(Loader::Dictisetref)
    } else if b == 0x16 {
        Entry::Direct(Loader::Dictuset)
    } else if b == 0x17 {
        Entry::Direct(Loader::Dictusetref)
    } else if b == 0x1A {
        Entry::Direct(Loader::Dictsetget)
    } else if b == 0x1B {
        Entry::Direct(Loader::Dictsetgetref)
    } else if b == 0x1C {
        Entry::Direct(Loader::Dictisetget)
    } else if b == 0x1D {
        Entry::Direct(Loader::Dictisetgetref)
    } else if b == 0x1E {
        Entry::Direct(Loader::Dictusetget)
    } else if b == 0x1F {
        Entry::Direct(Loader::Dictusetgetref)
    } else if b == 0x22 {
        Entry::Direct(Loader::Dictreplace)
    } else if b == 0x23 {
        Entry::Direct(Loader::Dictreplaceref)
    } else if b == 0x24 {
        Entry::Direct(Loader::Dictireplace)
    } else if b == 0x25 {
        Entry::Direct(Loader::Dictireplaceref)
    } else if b == 0x26 {
        Entry::Direct(Loader::Dictureplace)
    } else if b == 0x27 {
        Entry::Direct(Loader::Dictureplaceref)
    } else if b == 0x2A {
        Entry::Direct(Loader::Dictreplaceget)
    } else if b == 0x2B {
        Entry::Direct(Loader::Dictreplacegetref)
    } else if b == 0x2C {
        Entry::Direct(Loader::Dictireplaceget)
    } else if b == 0x2D {
        Entry::Direct(Loader::Dictireplacegetref)
    } else if b == 0x2E {
        Entry::Direct(Loader::Dictureplaceget)
    } else if b == 0x2F {
        Entry::Direct(Loader::Dictureplacegetref)
    } else if b == 0x32 {
        Entry::Direct(Loader::Dictadd)
    } else if b == 0x33 {
        Entry::Direct(Loader::Dictaddref)
    } else if b == 0x34 {
        Entry::Direct(Loader::Dictiadd)
    } else if b == 0x35 {
        Entry::Direct(Loader::Dictiaddref)
    } else if b == 0x36 {
        Entry::Direct(Loader::Dictuadd)
    } else if b == 0x37 {
        Entry::Direct(Loader::Dictuaddref)
    } else if b == 0x3A {
        Entry::Direct(Loader::Dictaddget)
    } else if b == 0x3B {
        Entry::Direct(Loader::Dictaddgetref)
    } else if b == 0x3C {
        Entry::Direct(Loader::Dictiaddget)
    } else if b == 0x3D {
        Entry::Direct(Loader::Dictiaddgetref)
    } else if b == 0x3E {
        Entry::Direct(Loader::Dictuaddget)
    } else if b == 0x3F {
        Entry::Direct(Loader::Dictuaddgetref)
    } else if b == 0x41 {
        Entry::Direct(Loader::Dictsetb)
    } else if b == 0x42 {
        Entry::Direct(Loader::Dictisetb)
    } else if b == 0x43 {
        Entry::Direct(Loader::Dictusetb)
    } else if b == 0x45 {
        Entry::Direct(Loader::Dictsetgetb)
    } else if b == 0x46 {
        Entry::Direct(Loader::Dictisetgetb)
    } else if b == 0x47 {
        Entry::Direct(Loader::Dictusetgetb)
    } else if b == 0x49 {
        Entry::Direct(Loader::Dictreplaceb)
    } else if b == 0x4A {
        Entry::Direct(Loader::Dictireplaceb)
    } else if b == 0x4B {
        Entry::Direct(Loader::Dictureplaceb)
    } else if b == 0x4D {
        Entry::Direct(Loader::Dictreplacegetb)
    } else if b == 0x4E {
        Entry::Direct(Loader::Dictireplacegetb)
    } else if b == 0x4F {
        Entry::Direct(Loader::Dictureplacegetb)
    } else if b == 0x51 {
        Entry::Direct(Loader::Dictaddb)
    } else if b == 0x52 {
        Entry::Direct(Loader::Dictiaddb)
    } else if b == 0x53 {
        Entry::Direct(Loader::Dictuaddb)
    } else if b == 0x55 {
        Entry::Direct(Loader::Dictaddgetb)
    } else if b == 0x56 {
        Entry::Direct(Loader::Dictiaddgetb)
    } else if b == 0x57 {
        Entry::Direct(Loader::Dictuaddgetb)
    } else if b == 0x59 {
        Entry::Direct(Loader::Dictdel)
    } else if b == 0x5A {
        Entry::Direct(Loader::Dictidel)
    } else if b == 0x5B {
        Entry::Direct(Loader::Dictudel)
    } else if b == 0x62 {
        Entry::Direct(Loader::Dictdelget)
    } else if b == 0x63 {
        Entry::Direct(Loader::Dictdelgetref)
    } else if b == 0x64 {
        Entry::Direct(Loader::Dictidelget)
    } else if b == 0x65 {
        Entry::Direct(Loader::Dictidelgetref)
    } else if b == 0x66 {
        Entry::Direct(Loader::Dictudelget)
    } else if b == 0x67 {
        Entry::Direct(Loader::Dictudelgetref)
    } else if b == 0x69 {
        Entry::Direct(Loader::Dictgetoptref)
    } else if b == 0x6A {
        Entry::Direct(Loader::Dictigetoptref)
    } else if b == 0x6B {
        Entry::Direct(Loader::Dictugetoptref)
    } else if b == 0x6D {
        Entry::Direct(Loader::Dictsetgetoptref)
    } else if b == 0x6E {
        Entry::Direct(Loader::Dictisetgetoptref)
    } else if b == 0x6F {
        Entry::Direct(Loader::Dictusetgetoptref)
    } else if b == 0x70 {
        Entry::Direct(Loader::Pfxdictset)
    } else if b == 0x71 {
        Entry::Direct(Loader::Pfxdictreplace)
    } else if b == 0x72 {
        Entry::Direct(Loader::Pfxdictadd)
    } else if b == 0x73 {
        Entry::Direct(Loader::Pfxdictdel)
    } else if b == 0x74 {
        Entry::Direct(Loader::Dictgetnext)
    } else if b == 0x75 {
        Entry::Direct(Loader::Dictgetnexteq)
    } else if b == 0x76 {
        Entry::Direct(Loader::Dictgetprev)
    } else if b == 0x77 {
        Entry::Direct(Loader::Dictgetpreveq)
    } else if b == 0x78 {
        Entry::Direct(Loader::Dictigetnext)
    } else if b == 0x79 {
        Entry::Direct(Loader::Dictigetnexteq)
    } else if b == 0x7A {
        Entry::Direct(Loader::Dictigetprev)
    } else if b == 0x7B {
        Entry::Direct(Loader::Dictigetpreveq)
    } else if b == 0x7C {
        Entry::Direct(Loader::Dictugetnext)
    } else if b == 0x7D {
        Entry::Direct(Loader::Dictugetnexteq)
    } else if b == 0x7E {
        Entry::Direct(Loader::Dictugetprev)
    } else if b == 0x7F {
        Entry::Direct(Loader::Dictugetpreveq)
    } else if b == 0x82 {
        Entry::Direct(Loader::Dictmin)
    } else if b == 0x83 {
        Entry::Direct(Loader::Dictminref)
    } else if b == 0x84 {
        Entry::Direct(Loader::Dictimin)
    } else if b == 0x85 {
        Entry::Direct(Loader::Dictiminref)
    } else if b == 0x86 {
        Entry::Direct(Loader::Dictumin)
    } else if b == 0x87 {
        Entry::Direct(Loader::Dictuminref)
    } else if b == 0x8A {
        Entry::Direct(Loader::Dictmax)
    } else if b == 0x8B {
        Entry::Direct(Loader::Dictmaxref)
    } else if b == 0x8C {
        Entry::Direct(Loader::Dictimax)
    } else if b == 0x8D {
        Entry::Direct(Loader::Dictimaxref)
    } else if b == 0x8E {
        Entry::Direct(Loader::Dictumax)
    } else if b == 0x8F {
        Entry::Direct(Loader::Dictumaxref)
    } else if b == 0x92 {
        Entry::Direct(Loader::Dictremmin)
    } else if b == 0x93 {
        Entry::Direct(Loader::Dictremminref)
    } else if b == 0x94 {
        Entry::Direct(Loader::Dictiremmin)
    } else if b == 0x95 {
        Entry::Direct(Loader::Dictiremminref)
    } else if b == 0x96 {
        Entry::Direct(Loader::Dicturemmin)
    } else if b == 0x97 {
        Entry::Direct(Loader::Dicturemminref)
    } else if b == 0x9A {
        Entry::Direct(Loader::Dictremmax)
    } else if b == 0x9B {
        Entry::Direct(Loader::Dictremmaxref)
    } else if b == 0x9C {
        Entry::Direct(Loader::Dictiremmax)
    } else if b == 0x9D {
        Entry::Direct(Loader::Dictiremmaxref)
    } else if b == 0x9E {
        Entry::Direct(Loader::Dicturemmax)
    } else if b == 0x9F {
        Entry::Direct(Loader::Dicturemmaxref)
    } else if b == 0xA0 {
        Entry::Direct(Loader::Dictigetjmp)
    } else if b == 0xA1 {
        Entry::Direct(Loader::Dictugetjmp)
    } else if b == 0xA2 {
        Entry::Direct(Loader::Dictigetexec)
    } else if b == 0xA3 {
        Entry::Direct(Loader::Dictugetexec)
    } else if 0xA4 <= b <= 0xA7 {
        Entry::Direct(Loader::Dictpushconst)
    } else if b == 0xA8 {
        Entry::Direct(Loader::Pfxdictgetq)
    } else if b == 0xA9 {
        Entry::Direct(Loader::Pfxdictget)
    } else if b == 0xAA {
        Entry::Direct(Loader::Pfxdictgetjmp)
    } else if b == 0xAB {
        Entry::Direct(Loader::Pfxdictgetexec)
    } else if 0xAC <= b <= 0xAF {
        Entry::Direct(Loader::Pfxdictswitch)
    } else if b == 0xB1 {
        Entry::Direct(Loader::Subdictget)
    } else if b == 0xB2 {
        Entry::Direct(Loader::Subdictiget)
    } else if b == 0xB3 {
        Entry::Direct(Loader::Subdictuget)
    } else if b == 0xB5 {
        Entry::Direct(Loader::Subdictrpget)
    } else if b == 0xB6 {
        Entry::Direct(Loader::Subdictirpget)
    } else if b == 0xB7 {
        Entry::Direct(Loader::Subdicturpget)
    } else if b == 0xBC {
        Entry::Direct(Loader::Dictigetjmpz)
    } else if b == 0xBD {
        Entry::Direct(Loader::Dictugetjmpz)
    } else if b == 0xBE {
        Entry::Direct(Loader::Dictigetexecz)
    } else if b == 0xBF {
        Entry::Direct(Loader::Dictugetexecz)
    } else {
        Entry::Unassigned
    }
}

pub open spec fn prefix_f8_entry(b: u8) -> Entry {
    if b == 0x00 {
        Entry::Direct(Loader::Accept)
    } else if b == 0x01 {
        Entry::Direct(Loader::Setgaslimit)
    } else if b == 0x02 {
        Entry::Direct(Loader::Buygas)
    } else if b == 0x04 {
        Entry::Direct(Loader::Gramtogas)
    } else if b == 0x05 {
        Entry::Direct(Loader::Gastogram)
    } else if b == 0x0F {
        Entry::Direct(Loader::Commit)
    } else if b == 0x10 {
        Entry::Direct(Loader::Randu256)
    } else if b == 0x11 {
        Entry::Direct(Loader::Rand)
    } else if b == 0x14 {
        Entry::Direct(Loader::Setrand)
    } else if b == 0x15 {
        Entry::Direct(Loader::Addrand)
    } else if 0x20 <= b <= 0x22 {
        Entry::Direct(Loader::Getparam)
    } else if b == 0x23 {
        Entry::Direct(Loader::Now)
    } else if b == 0x24 {
        Entry::Direct(Loader::Blocklt)
    } else if b == 0x25 {
        Entry::Direct(Loader::Ltime)
    } else if b == 0x26 {
        Entry::Direct(Loader::Randseed)
    } else if b == 0x27 {
        Entry::Direct(Loader::Balance)
    } else if b == 0x28 {
        Entry::Direct(Loader::MyAddr)
    } else if b == 0x29 {
        Entry::Direct(Loader::ConfigRoot)
    } else if b == 0x30 {
        Entry::Direct(Loader::ConfigDict)
    } else if b == 0x32 {
        Entry::Direct(Loader::ConfigRefParam)
    } else if b == 0x33 {
        Entry::Direct(Loader::ConfigOptParam)
    } else if b == 0x40 {
        Entry::Direct(Loader::Getglobvar)
    } else if 0x41 <= b <= 0x5F {
        Entry::Direct(Loader::Getglob)
    } else if b == 0x60 {
        Entry::Direct(Loader::Setglobvar)
    } else if 0x61 <= b <= 0x7F {
        Entry::Direct(Loader::Setglob)
    } else {
        Entry::Unassigned
    }
}

pub open spec fn prefix_f9_entry(b: u8) -> Entry {
    if b == 0x00 {
        Entry::Direct(Loader::Hashcu)
    } else if b == 0x01 {
        Entry::Direct(Loader::Hashsu)
    } else if b == 0x02 {
        Entry::Direct(Loader::Sha256u)
    } else if b == 0x10 {
        Entry::Direct(Loader::Chksignu)
    } else if b == 0x11 {
        Entry::Direct(Loader::Chksigns)
    } else if b == 0x40 {
        Entry::Direct(Loader::Cdatasizeq)
    } else if b == 0x41 {
        Entry::Direct(Loader::Cdatasize)
    } else if b == 0x42 {
        Entry::Direct(Loader::Sdatasizeq)
    } else if b == 0x43 {
        Entry::Direct(Loader::Sdatasize)
    } else {
        Entry::Unassigned
    }
}

pub open spec fn prefix_fa_entry(b: u8) -> Entry {
    if b == 0x00 {
        Entry::Direct(Loader::Ldgrams)
    } else if b == 0x01 {
        Entry::Direct(Loader::Ldvarint16)
    } else if b == 0x02 {
        Entry::Direct(Loader::Stgrams)
    } else if b == 0x03 {
        Entry::Direct(Loader::Stvarint16)
    } else if b == 0x04 {
        Entry::Direct(Loader::Ldvaruint32)
    } else if b == 0x05 {
        Entry::Direct(Loader::Ldvarint32)
    } else if b == 0x06 {
        Entry::Direct(Loader::Stvaruint32)
    } else if b == 0x07 {
        Entry::Direct(Loader::Stvarint32)
    } else if b == 0x40 {
        Entry::Direct(Loader::Ldmsgaddr(Variant::Signaling))
    } else if b == 0x41 {
        Entry::Direct(Loader::Ldmsgaddr(Variant::Quiet))
    } else if b == 0x42 {
        Entry::Direct(Loader::Parsemsgaddr(Variant::Signaling))
    } else if b == 0x43 {
        Entry::Direct(Loader::Parsemsgaddr(Variant::Quiet))
    } else if b == 0x44 {
        Entry::Direct(Loader::RewriteStdAddr(Variant::Signaling))
    } else if b == 0x45 {
        Entry::Direct(Loader::RewriteStdAddr(Variant::Quiet))
    } else if b == 0x46 {
        Entry::Direct(Loader::RewriteVarAddr(Variant::Signaling))
    } else if b == 0x47 {
        Entry::Direct(Loader::RewriteVarAddr(Variant::Quiet))
    } else {
        Entry::Unassigned
    }
}

pub open spec fn prefix_fb_entry(b: u8) -> Entry {
    if b == 0x00 {
        Entry::Direct(Loader::Sendrawmsg)
    } else if b == 0x02 {
        Entry::Direct(Loader::Rawreserve)
    } else if b == 0x03 {
        Entry::Direct(Loader::Rawreservex)
    } else if b == 0x04 {
        Entry::Direct(Loader::Setcode)
    } else if b == 0x06 {
        Entry::Direct(Loader::Setlibcode)
    } else if b == 0x07 {
        Entry::Direct(Loader::Changelib)
    } else {
        Entry::Unassigned
    }
}

pub open spec fn prefix_fe_entry(b: u8) -> Entry {
    if b == 0x00 {
        Entry::Direct(Loader::DumpStack)
    } else if 0x01 <= b <= 0x0E {
        Entry::Direct(Loader::DumpStackTop)
    } else if b == 0x10 {
        Entry::Direct(Loader::DumpHex)
    } else if b == 0x11 {
        Entry::Direct(Loader::PrintHex)
    } else if b == 0x12 {
        Entry::Direct(Loader::DumpBin)
    } else if b == 0x13 {
        Entry::Direct(Loader::PrintBin)
    } else if b == 0x14 {
        Entry::Direct(Loader::DumpStr)
    } else if b == 0x15 {
        Entry::Direct(Loader::PrintStr)
    } else if b == 0x1E {
        Entry::Direct(Loader::DebugOff)
    } else if b == 0x1F {
        Entry::Direct(Loader::DebugOn)
    } else if 0x20 <= b <= 0x2E {
        Entry::Direct(Loader::DumpVar)
    } else if 0x30 <= b <= 0x3E {
        Entry::Direct(Loader::PrintVar)
    } else if 0xF0 <= b <= 0xFF {
        Entry::Direct(Loader::DumpString)
    } else {
        Entry::Unassigned
    }
}

pub open spec fn prefix_ff_entry(b: u8) -> Entry {
    if b <= 0xEF {
        Entry::Direct(Loader::Setcp)
    } else if b == 0xF0 {
        Entry::Direct(Loader::Setcpx)
    } else {
        Entry::Direct(Loader::Setcp)
    }
}

} // verus!
