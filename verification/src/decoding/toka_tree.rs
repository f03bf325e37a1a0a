//! Toka Tree parsers. A node travels as `vt` wrapped data, `v(b't', inner)`, whose bytes start
//! with a type marker: `b` box, `n` node, `c` circle, `l` line, `x` text, `u` button, `p` path,
//! `i` image, `s` surface. A node's children are `vt` values of their own.

use vstd::prelude::*;
use super::helpers::{malformed, one_read, read_one, reports, truncated, usize_read, Read};
use super::parse::parse;
use super::traits::DecodeError;
use crate::elements::WireElement;
use crate::spirix::{CircleF4E4, ScalarF4E4};
use crate::toka::{
    PathCommand, TokaBox, TokaCircle, TokaImage, TokaLine, TokaNode, TokaNodeContainer, TokaPath,
    TokaSurface,
};
use crate::types::VsfType;

verus! {

/// The `CircleF4E4` whose six bytes start at `i`.
pub open spec fn c44_at(data: Seq<u8>, i: int) -> CircleF4E4 {
    CircleF4E4::spec_read(data.subrange(i, i + 6))
}

/// The `ScalarF4E4` whose four bytes start at `i`.
pub open spec fn s44_at(data: Seq<u8>, i: int) -> ScalarF4E4 {
    ScalarF4E4::spec_read(data.subrange(i, i + 4))
}

/// The four `ScalarF4E4` colour channels starting at `i`.
pub open spec fn rgba_at(data: Seq<u8>, i: int) -> Seq<ScalarF4E4> {
    seq![s44_at(data, i), s44_at(data, i + 4), s44_at(data, i + 8), s44_at(data, i + 12)]
}

/// The big-endian `u64` starting at `i`.
pub open spec fn u64_at(data: Seq<u8>, i: int) -> u64 {
    u64::spec_read(data.subrange(i, i + 8))
}

/// What reading a node finds: a node ending at a position, too few bytes, bytes that are not a
/// node, or a failure of a kind left open (a text or button node, whose string no decoder here
/// reads, or a child that is not `vt` data).
pub enum TokaRead {
    Done(int),
    Short,
    Bad,
    Fail,
}

/// What reading a `vt` capsule at `q` finds: its inner bytes and the position after it, or why
/// there is none.
pub enum CapsuleRead {
    Done(Seq<u8>, int),
    Short,
    Bad,
    Fail,
}

/// The `vt` capsule at `q`: `v`, the algorithm `t`, the length in bits, the bytes.
pub open spec fn capsule_read(data: Seq<u8>, q: int) -> CapsuleRead {
    if q < 0 || q >= data.len() {
        CapsuleRead::Short
    } else if data[q] != 0x76 {
        CapsuleRead::Fail
    } else if q + 1 >= data.len() {
        CapsuleRead::Short
    } else {
        match usize_read(data, q + 2) {
            Read::Done(bits, e) => {
                let n = (bits + 7) / 8;
                if e + n > data.len() {
                    CapsuleRead::Short
                } else if data[q + 1] != 0x74 {
                    CapsuleRead::Bad
                } else {
                    CapsuleRead::Done(data.subrange(e, e + n), e + n)
                }
            },
            Read::Short => CapsuleRead::Short,
            Read::Bad => CapsuleRead::Bad,
        }
    }
}

/// The path command at `i`: `M` or `L` and a point, `Q` and two, `C` and three, or `Z`.
pub open spec fn command_read(data: Seq<u8>, i: int) -> Read<PathCommand> {
    if i < 0 || i >= data.len() {
        Read::Short
    } else {
        let c = data[i];
        if c == 0x4d || c == 0x4c {
            if i + 7 > data.len() {
                Read::Short
            } else if c == 0x4d {
                Read::Done(PathCommand::MoveTo(c44_at(data, i + 1)), i + 7)
            } else {
                Read::Done(PathCommand::LineTo(c44_at(data, i + 1)), i + 7)
            }
        } else if c == 0x51 {
            if i + 13 > data.len() {
                Read::Short
            } else {
                Read::Done(
                    PathCommand::QuadraticTo { ctrl: c44_at(data, i + 1), end: c44_at(data, i + 7) },
                    i + 13,
                )
            }
        } else if c == 0x43 {
            if i + 19 > data.len() {
                Read::Short
            } else {
                Read::Done(
                    PathCommand::CubicTo {
                        ctrl1: c44_at(data, i + 1),
                        ctrl2: c44_at(data, i + 7),
                        end: c44_at(data, i + 13),
                    },
                    i + 19,
                )
            }
        } else if c == 0x5a {
            Read::Done(PathCommand::Close, i + 1)
        } else {
            Read::Bad
        }
    }
}

/// `k` path commands one after another from `i`.
pub open spec fn commands_read(data: Seq<u8>, i: int, k: nat) -> Read<Seq<PathCommand>>
    decreases k,
{
    if k == 0 {
        Read::Done(Seq::empty(), i)
    } else {
        match commands_read(data, i, (k - 1) as nat) {
            Read::Done(s, j) => match command_read(data, j) {
                Read::Done(c, e) => Read::Done(s.push(c), e),
                Read::Short => Read::Short,
                Read::Bad => Read::Bad,
            },
            Read::Short => Read::Short,
            Read::Bad => Read::Bad,
        }
    }
}

/// Once a prefix of the commands fails to read, every longer list fails the same way.
proof fn lemma_commands_fail_after(data: Seq<u8>, i: int, k: nat, n: nat)
    requires
        k <= n,
        !(commands_read(data, i, k) is Done),
    ensures
        commands_read(data, i, n) == commands_read(data, i, k),
    decreases n - k,
{
    if k < n {
        lemma_commands_fail_after(data, i, k + 1, n);
    }
}

/// Where reading the node at `p` ends, or why it fails.
pub open spec fn toka_class(data: Seq<u8>, p: int) -> TokaRead
    decreases data.len(), 256int,
{
    if p < 0 || p >= data.len() {
        TokaRead::Short
    } else {
        let t = data[p];
        let q = p + 1;
        if t == 0x62 {
            if q + 28 > data.len() {
                TokaRead::Short
            } else {
                TokaRead::Done(q + 28)
            }
        } else if t == 0x6e {
            if q + 13 > data.len() {
                TokaRead::Short
            } else {
                kids_from(data, q + 13, data[q + 12] as nat)
            }
        } else if t == 0x63 {
            if q + 26 > data.len() {
                TokaRead::Short
            } else {
                TokaRead::Done(q + 26)
            }
        } else if t == 0x6c {
            if q + 32 > data.len() {
                TokaRead::Short
            } else {
                TokaRead::Done(q + 32)
            }
        } else if t == 0x78 || t == 0x75 {
            if q + 12 > data.len() {
                TokaRead::Short
            } else {
                TokaRead::Fail
            }
        } else if t == 0x70 {
            if q + 21 > data.len() {
                TokaRead::Short
            } else {
                match commands_read(data, q + 21, data[q + 20] as nat) {
                    Read::Done(_, e) => TokaRead::Done(e),
                    Read::Short => TokaRead::Short,
                    Read::Bad => TokaRead::Bad,
                }
            }
        } else if t == 0x69 {
            if q + 36 > data.len() {
                TokaRead::Short
            } else {
                TokaRead::Done(q + 36)
            }
        } else if t == 0x73 {
            if q + 20 > data.len() {
                TokaRead::Short
            } else {
                TokaRead::Done(q + 20)
            }
        } else {
            TokaRead::Bad
        }
    }
}

/// Where reading `m` children (each a `vt` capsule holding a node) from `q` ends, or why it
/// fails; each child is read whole before the next capsule.
pub open spec fn kids_from(data: Seq<u8>, q: int, m: nat) -> TokaRead
    decreases data.len(), m,
{
    if m == 0 {
        TokaRead::Done(q)
    } else {
        match capsule_read(data, q) {
            CapsuleRead::Done(inner, e) => if inner.len() >= data.len() {
                TokaRead::Bad
            } else {
                match toka_class(inner, 0) {
                    TokaRead::Done(_) => kids_from(data, e, (m - 1) as nat),
                    TokaRead::Short => TokaRead::Short,
                    TokaRead::Bad => TokaRead::Bad,
                    TokaRead::Fail => TokaRead::Fail,
                }
            },
            CapsuleRead::Short => TokaRead::Short,
            CapsuleRead::Bad => TokaRead::Bad,
            CapsuleRead::Fail => TokaRead::Fail,
        }
    }
}

/// `n` is the node read at `p`.
pub open spec fn toka_val(data: Seq<u8>, p: int, n: TokaNode) -> bool
    decreases data.len(), 256int,
{
    if p < 0 || p >= data.len() {
        false
    } else {
        let t = data[p];
        let q = p + 1;
        if t == 0x62 {
            &&& n matches TokaNode::Box(b)
            &&& b.pos == c44_at(data, q) && b.size == c44_at(data, q + 6)
            &&& b.colour@ == rgba_at(data, q + 12)
        } else if t == 0x6e {
            &&& q + 13 <= data.len()
            &&& n matches TokaNode::Node(c)
            &&& c.pos == c44_at(data, q) && c.size == c44_at(data, q + 6)
            &&& kids_val(data, q + 13, data[q + 12] as nat, c.children@)
        } else if t == 0x63 {
            &&& n matches TokaNode::Circle(c)
            &&& c.pos == c44_at(data, q) && c.span == s44_at(data, q + 6)
            &&& c.colour@ == rgba_at(data, q + 10)
        } else if t == 0x6c {
            &&& n matches TokaNode::Line(l)
            &&& l.start == c44_at(data, q) && l.end == c44_at(data, q + 6)
            &&& l.width == s44_at(data, q + 12)
            &&& l.colour@ == rgba_at(data, q + 16)
        } else if t == 0x70 {
            &&& q + 21 <= data.len()
            &&& n matches TokaNode::Path(x)
            &&& x.colour@ == rgba_at(data, q) && x.width == s44_at(data, q + 16)
            &&& commands_read(data, q + 21, data[q + 20] as nat) matches Read::Done(cs, _)
            &&& x.commands@ == cs
        } else if t == 0x69 {
            &&& n matches TokaNode::Image(x)
            &&& x.pos == c44_at(data, q) && x.size == c44_at(data, q + 6)
            &&& x.handle == u64_at(data, q + 12)
            &&& x.tint@ == rgba_at(data, q + 20)
        } else if t == 0x73 {
            &&& n matches TokaNode::Surface(x)
            &&& x.pos == c44_at(data, q) && x.size == c44_at(data, q + 6)
            &&& x.handle == u64_at(data, q + 12)
        } else {
            false
        }
    }
}

/// `kids` are the `m` children read from the capsules starting at `q`.
pub open spec fn kids_val(data: Seq<u8>, q: int, m: nat, kids: Seq<TokaNode>) -> bool
    decreases data.len(), m,
{
    if m == 0 {
        kids.len() == 0
    } else {
        &&& kids.len() == m
        &&& capsule_read(data, q) matches CapsuleRead::Done(inner, e)
        &&& inner.len() < data.len()
        &&& toka_val(inner, 0, kids[0])
        &&& kids_val(data, e, (m - 1) as nat, kids.drop_first())
    }
}

/// The result of reading a node at `p` agrees with the bytes.
pub open spec fn toka_reports(
    data: Seq<u8>,
    p: int,
    r: Result<TokaNode, DecodeError>,
    end: int,
) -> bool {
    match toka_class(data, p) {
        TokaRead::Done(e) => r matches Ok(n) && toka_val(data, p, n) && end == e,
        TokaRead::Short => truncated(r),
        TokaRead::Bad => malformed(r),
        TokaRead::Fail => r is Err,
    }
}

/// The inner bytes of `vt` wrapped data.
pub open spec fn vt_len(v: VsfType) -> nat {
    match v {
        VsfType::v(_, d) => d@.len(),
        _ => 0,
    }
}

/// What `parse_vt_toka_node` gives: the node at the start of the inner bytes of `vt` data, and an
/// error for anything else.
pub open spec fn vt_node_spec(v: VsfType, r: Result<TokaNode, DecodeError>) -> bool {
    match v {
        VsfType::v(alg, d) => if alg == 0x74 {
            match toka_class(d@, 0) {
                TokaRead::Done(_) => r matches Ok(n) && toka_val(d@, 0, n),
                TokaRead::Short => truncated(r),
                TokaRead::Bad => malformed(r),
                TokaRead::Fail => r is Err,
            }
        } else {
            malformed(r)
        },
        _ => malformed(r),
    }
}

/// Read a `CircleF4E4`.
fn parse_circle_f4e4(data: &[u8], pointer: &mut usize) -> (r: Result<CircleF4E4, DecodeError>)
    ensures
        reports(r, *final(pointer) as int, one_read::<CircleF4E4>(data@, *old(pointer) as int)),
{
    read_one::<CircleF4E4>(data, pointer, "Not enough data for CircleF4E4")
}

/// Read a `ScalarF4E4`.
fn parse_scalar_f4e4(data: &[u8], pointer: &mut usize) -> (r: Result<ScalarF4E4, DecodeError>)
    ensures
        reports(r, *final(pointer) as int, one_read::<ScalarF4E4>(data@, *old(pointer) as int)),
{
    read_one::<ScalarF4E4>(data, pointer, "Not enough data for ScalarF4E4")
}

/// Read four `ScalarF4E4` colour channels.
fn parse_rgba(data: &[u8], pointer: &mut usize) -> (r: Result<[ScalarF4E4; 4], DecodeError>)
    ensures
        if *old(pointer) + 16 <= data@.len() {
            r matches Ok(a) && a@ == rgba_at(data@, *old(pointer) as int) && *final(pointer) == *old(
                pointer,
            ) + 16
        } else {
            truncated(r)
        },
{
    let c0 = match parse_scalar_f4e4(data, pointer) {
        Ok(c) => c,
        Err(e) => return Err(e),
    };
    let c1 = match parse_scalar_f4e4(data, pointer) {
        Ok(c) => c,
        Err(e) => return Err(e),
    };
    let c2 = match parse_scalar_f4e4(data, pointer) {
        Ok(c) => c,
        Err(e) => return Err(e),
    };
    let c3 = match parse_scalar_f4e4(data, pointer) {
        Ok(c) => c,
        Err(e) => return Err(e),
    };
    let a = [c0, c1, c2, c3];
    assert(a@ =~= rgba_at(data@, *old(pointer) as int));
    Ok(a)
}

/// Read one path command.
fn parse_path_command(data: &[u8], pointer: &mut usize) -> (r: Result<PathCommand, DecodeError>)
    ensures
        reports(r, *final(pointer) as int, command_read(data@, *old(pointer) as int)),
{
    if *pointer >= data.len() {
        return Err(DecodeError::UnexpectedEofMsg("Missing path command type".to_owned()));
    }
    let cmd_byte = data[*pointer];
    let start = *pointer;
    *pointer += 1;
    if cmd_byte == 0x4d || cmd_byte == 0x4c {
        let pos = match parse_circle_f4e4(data, pointer) {
            Ok(c) => c,
            Err(e) => return Err(e),
        };
        if cmd_byte == 0x4d {
            Ok(PathCommand::MoveTo(pos))
        } else {
            Ok(PathCommand::LineTo(pos))
        }
    } else if cmd_byte == 0x51 {
        let ctrl = match parse_circle_f4e4(data, pointer) {
            Ok(c) => c,
            Err(e) => return Err(e),
        };
        let end = match parse_circle_f4e4(data, pointer) {
            Ok(c) => c,
            Err(e) => return Err(e),
        };
        Ok(PathCommand::QuadraticTo { ctrl, end })
    } else if cmd_byte == 0x43 {
        let ctrl1 = match parse_circle_f4e4(data, pointer) {
            Ok(c) => c,
            Err(e) => return Err(e),
        };
        let ctrl2 = match parse_circle_f4e4(data, pointer) {
            Ok(c) => c,
            Err(e) => return Err(e),
        };
        let end = match parse_circle_f4e4(data, pointer) {
            Ok(c) => c,
            Err(e) => return Err(e),
        };
        Ok(PathCommand::CubicTo { ctrl1, ctrl2, end })
    } else if cmd_byte == 0x5a {
        Ok(PathCommand::Close)
    } else {
        Err(DecodeError::InvalidDataMsg("Invalid path command".to_owned()))
    }
}

/// Read a single byte.
fn parse_byte(data: &[u8], pointer: &mut usize, what: &str) -> (r: Result<u8, DecodeError>)
    ensures
        reports(r, *final(pointer) as int, one_read::<u8>(data@, *old(pointer) as int)),
{
    read_one::<u8>(data, pointer, what)
}

/// Parse a Toka Tree node from `vt` wrapped data: `VsfType::v(b't', inner)`.
pub fn parse_vt_toka_node(vsf_type: &VsfType) -> (r: Result<TokaNode, DecodeError>)
    ensures
        vt_node_spec(*vsf_type, r),
    decreases vt_len(*vsf_type), 1int,
{
    match vsf_type {
        VsfType::v(encoding, data) => {
            if *encoding == 0x74 {
                let mut pointer: usize = 0;
                parse_toka_tree_inner(data.as_slice(), &mut pointer)
            } else {
                Err(DecodeError::InvalidDataMsg(
                    "Expected vt wrapped Toka Tree (v with encoding 't')".to_owned(),
                ))
            }
        },
        _ => Err(DecodeError::InvalidDataMsg(
            "Expected vt wrapped Toka Tree (v with encoding 't')".to_owned(),
        )),
    }
}

/// Parse a Toka Tree node from its inner bytes, starting with the type marker.
#[verifier::spinoff_prover]
#[verifier::rlimit(60)]
pub fn parse_toka_tree_inner(data: &[u8], pointer: &mut usize) -> (r: Result<TokaNode, DecodeError>)
    ensures
        toka_reports(data@, *old(pointer) as int, r, *final(pointer) as int),
    decreases data@.len(), 0int,
{
    if *pointer >= data.len() {
        return Err(DecodeError::UnexpectedEofMsg("Missing Toka Tree type marker".to_owned()));
    }
    let type_byte = data[*pointer];
    *pointer += 1;
    if type_byte == 0x62 {
        let pos = match parse_circle_f4e4(data, pointer) {
            Ok(c) => c,
            Err(e) => return Err(e),
        };
        let size = match parse_circle_f4e4(data, pointer) {
            Ok(c) => c,
            Err(e) => return Err(e),
        };
        let colour = match parse_rgba(data, pointer) {
            Ok(c) => c,
            Err(e) => return Err(e),
        };
        Ok(TokaNode::Box(TokaBox { pos, size, colour }))
    } else if type_byte == 0x6e {
        let pos = match parse_circle_f4e4(data, pointer) {
            Ok(c) => c,
            Err(e) => return Err(e),
        };
        let size = match parse_circle_f4e4(data, pointer) {
            Ok(c) => c,
            Err(e) => return Err(e),
        };
        let child_count = match parse_byte(data, pointer, "Not enough data for child count") {
            Ok(c) => c,
            Err(e) => return Err(e),
        };
        let ghost q0 = *pointer as int;
        let mut children: Vec<TokaNode> = Vec::new();
        let mut i: u8 = 0;
        while i < child_count
            invariant
                i <= child_count,
                0 <= q0 <= *pointer <= data@.len(),
                *old(pointer) + 14 == q0,
                data@[*old(pointer) as int] == 0x6e,
                data@[q0 - 1] == child_count,
                pos == c44_at(data@, *old(pointer) + 1),
                size == c44_at(data@, *old(pointer) + 7),
                kids_from(data@, q0, child_count as nat) == kids_from(
                    data@,
                    *pointer as int,
                    (child_count - i) as nat,
                ),
                forall|rest: Seq<TokaNode>|
                    #![trigger kids_val(data@, *pointer as int, (child_count - i) as nat, rest)]
                    kids_val(data@, *pointer as int, (child_count - i) as nat, rest) ==> kids_val(
                        data@,
                        q0,
                        child_count as nat,
                        children@ + rest,
                    ),
            decreases child_count - i,
        {
            let here = *pointer;
            let child_vsf = match parse(data, pointer) {
                Ok(v) => v,
                Err(e) => return Err(e),
            };
            if data[here] != 0x76 {
                return Err(DecodeError::InvalidDataMsg(
                    "Expected vt wrapped Toka Tree (v with encoding 't')".to_owned(),
                ));
            }
            let child = match parse_vt_toka_node(&child_vsf) {
                Ok(c) => c,
                Err(e) => return Err(e),
            };
            let ghost before = children@;
            children.push(child);
            proof {
                let m = (child_count - i) as nat;
                assert forall|rest: Seq<TokaNode>|
                    #![trigger kids_val(data@, *pointer as int, (m - 1) as nat, rest)]
                    kids_val(data@, *pointer as int, (m - 1) as nat, rest) implies kids_val(
                        data@,
                        q0,
                        child_count as nat,
                        children@ + rest,
                    ) by {
                    let r2 = seq![child] + rest;
                    assert(r2.drop_first() =~= rest);
                    assert(kids_val(data@, here as int, m, r2));
                    assert(before + r2 =~= children@ + rest);
                }
            }
            i = i + 1;
        }
        proof {
            assert(children@ + Seq::<TokaNode>::empty() =~= children@);
            assert(kids_val(data@, *pointer as int, 0, Seq::<TokaNode>::empty()));
        }
        Ok(TokaNode::Node(TokaNodeContainer { pos, size, children }))
    } else if type_byte == 0x63 {
        let pos = match parse_circle_f4e4(data, pointer) {
            Ok(c) => c,
            Err(e) => return Err(e),
        };
        let span = match parse_scalar_f4e4(data, pointer) {
            Ok(c) => c,
            Err(e) => return Err(e),
        };
        let colour = match parse_rgba(data, pointer) {
            Ok(c) => c,
            Err(e) => return Err(e),
        };
        Ok(TokaNode::Circle(TokaCircle { pos, span, colour }))
    } else if type_byte == 0x6c {
        let start = match parse_circle_f4e4(data, pointer) {
            Ok(c) => c,
            Err(e) => return Err(e),
        };
        let end = match parse_circle_f4e4(data, pointer) {
            Ok(c) => c,
            Err(e) => return Err(e),
        };
        let width = match parse_scalar_f4e4(data, pointer) {
            Ok(c) => c,
            Err(e) => return Err(e),
        };
        let colour = match parse_rgba(data, pointer) {
            Ok(c) => c,
            Err(e) => return Err(e),
        };
        Ok(TokaNode::Line(TokaLine { start, end, width, colour }))
    } else if type_byte == 0x78 || type_byte == 0x75 {
        // Text and buttons carry a Huffman-coded `x` string, which this decoder refuses.
        let pos = match parse_circle_f4e4(data, pointer) {
            Ok(c) => c,
            Err(e) => return Err(e),
        };
        let size = match parse_circle_f4e4(data, pointer) {
            Ok(c) => c,
            Err(e) => return Err(e),
        };
        let text = match parse(data, pointer) {
            Ok(v) => v,
            Err(e) => return Err(e),
        };
        let _ = (pos, size, text);
        Err(DecodeError::InvalidDataMsg("Expected text content in Toka Tree node".to_owned()))
    } else if type_byte == 0x70 {
        let colour = match parse_rgba(data, pointer) {
            Ok(c) => c,
            Err(e) => return Err(e),
        };
        let width = match parse_scalar_f4e4(data, pointer) {
            Ok(c) => c,
            Err(e) => return Err(e),
        };
        let command_count = match parse_byte(data, pointer, "Not enough data for command count") {
            Ok(c) => c,
            Err(e) => return Err(e),
        };
        let ghost q0 = *pointer as int;
        let mut commands: Vec<PathCommand> = Vec::new();
        let mut i: u8 = 0;
        while i < command_count
            invariant
                i <= command_count,
                0 <= q0 <= data@.len(),
                *old(pointer) + 22 == q0,
                data@[*old(pointer) as int] == 0x70,
                data@[q0 - 1] == command_count,
                colour@ == rgba_at(data@, *old(pointer) + 1),
                width == s44_at(data@, *old(pointer) + 17),
                commands_read(data@, q0, i as nat) == Read::Done(commands@, *pointer as int),
            decreases command_count - i,
        {
            let cmd = match parse_path_command(data, pointer) {
                Ok(c) => c,
                Err(e) => {
                    proof {
                        lemma_commands_fail_after(data@, q0, (i + 1) as nat, command_count as nat);
                    }
                    return Err(e);
                },
            };
            commands.push(cmd);
            i = i + 1;
        }
        Ok(TokaNode::Path(TokaPath { colour, width, commands }))
    } else if type_byte == 0x69 {
        let pos = match parse_circle_f4e4(data, pointer) {
            Ok(c) => c,
            Err(e) => return Err(e),
        };
        let size = match parse_circle_f4e4(data, pointer) {
            Ok(c) => c,
            Err(e) => return Err(e),
        };
        let handle = match read_one::<u64>(data, pointer, "Not enough data for image handle") {
            Ok(h) => h,
            Err(e) => return Err(e),
        };
        let tint = match parse_rgba(data, pointer) {
            Ok(c) => c,
            Err(e) => return Err(e),
        };
        Ok(TokaNode::Image(TokaImage { pos, size, handle, tint }))
    } else if type_byte == 0x73 {
        let pos = match parse_circle_f4e4(data, pointer) {
            Ok(c) => c,
            Err(e) => return Err(e),
        };
        let size = match parse_circle_f4e4(data, pointer) {
            Ok(c) => c,
            Err(e) => return Err(e),
        };
        let handle = match read_one::<u64>(data, pointer, "Not enough data for surface handle") {
            Ok(h) => h,
            Err(e) => return Err(e),
        };
        Ok(TokaNode::Surface(TokaSurface { pos, size, handle }))
    } else {
        Err(DecodeError::InvalidDataMsg("Invalid Toka Tree type marker".to_owned()))
    }
}

} // verus!
