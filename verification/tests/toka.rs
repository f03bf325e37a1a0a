use vsf::decoding::toka_tree::{parse_toka_tree_inner, parse_vt_toka_node};
use vsf::decoding::traits::DecodeError;
use vsf::spirix::{CircleF4E4, ScalarF4E4};
use vsf::toka::{PathCommand, TokaNode};
use vsf::types::VsfType;

fn c44(r: i16, i: i16, e: i16) -> Vec<u8> {
    let mut v = Vec::new();
    v.extend_from_slice(&r.to_be_bytes());
    v.extend_from_slice(&i.to_be_bytes());
    v.extend_from_slice(&e.to_be_bytes());
    v
}

fn s44(f: i16, e: i16) -> Vec<u8> {
    let mut v = Vec::new();
    v.extend_from_slice(&f.to_be_bytes());
    v.extend_from_slice(&e.to_be_bytes());
    v
}

fn rgba() -> Vec<u8> {
    let mut v = Vec::new();
    for k in 0..4 {
        v.extend(s44(k, -k));
    }
    v
}

fn box_bytes() -> Vec<u8> {
    let mut b = vec![b'b'];
    b.extend(c44(1, 2, 3));
    b.extend(c44(-4, 5, -6));
    b.extend(rgba());
    b
}

#[test]
fn parses_a_box() {
    let b = box_bytes();
    let mut p = 0;
    match parse_toka_tree_inner(&b, &mut p).unwrap() {
        TokaNode::Box(x) => {
            assert_eq!(x.pos, CircleF4E4 { real: 1, imaginary: 2, exponent: 3 });
            assert_eq!(x.size, CircleF4E4 { real: -4, imaginary: 5, exponent: -6 });
            assert_eq!(x.colour[3], ScalarF4E4 { fraction: 3, exponent: -3 });
        }
        other => panic!("expected a box, got {other:?}"),
    }
    assert_eq!(p, b.len());
}

#[test]
fn parses_a_node_with_children() {
    let mut n = vec![b'n'];
    n.extend(c44(0, 0, 0));
    n.extend(c44(1, 1, 1));
    n.push(2);
    let child = VsfType::v(b't', box_bytes()).flatten();
    n.extend(child.clone());
    n.extend(child);
    let mut p = 0;
    match parse_toka_tree_inner(&n, &mut p).unwrap() {
        TokaNode::Node(c) => {
            assert_eq!(c.children.len(), 2);
            assert!(matches!(c.children[1], TokaNode::Box(_)));
        }
        other => panic!("expected a node, got {other:?}"),
    }
    assert_eq!(p, n.len());
}

#[test]
fn parses_a_path() {
    let mut b = vec![b'p'];
    b.extend(rgba());
    b.extend(s44(9, 1));
    b.push(3);
    b.push(b'M');
    b.extend(c44(1, 1, 0));
    b.push(b'L');
    b.extend(c44(2, 2, 0));
    b.push(b'Z');
    let mut p = 0;
    match parse_toka_tree_inner(&b, &mut p).unwrap() {
        TokaNode::Path(x) => {
            assert_eq!(x.width, ScalarF4E4 { fraction: 9, exponent: 1 });
            assert_eq!(x.commands.len(), 3);
            assert_eq!(x.commands[2], PathCommand::Close);
        }
        other => panic!("expected a path, got {other:?}"),
    }
    assert_eq!(p, b.len());
}

#[test]
fn vt_wrapper_is_required() {
    let ok = VsfType::v(b't', box_bytes());
    assert!(parse_vt_toka_node(&ok).is_ok());
    assert!(matches!(parse_vt_toka_node(&VsfType::v(b'e', box_bytes())), Err(DecodeError::InvalidDataMsg(_))));
    assert!(matches!(parse_vt_toka_node(&VsfType::u3(1)), Err(DecodeError::InvalidDataMsg(_))));
}

#[test]
fn toka_errors() {
    let mut p = 0;
    assert!(matches!(parse_toka_tree_inner(&[], &mut p), Err(DecodeError::UnexpectedEofMsg(_))));
    let mut p = 0;
    assert!(matches!(parse_toka_tree_inner(&[b'q'], &mut p), Err(DecodeError::InvalidDataMsg(_))));
    let b = box_bytes();
    let mut p = 0;
    assert!(matches!(parse_toka_tree_inner(&b[..b.len() - 1], &mut p), Err(DecodeError::UnexpectedEofMsg(_))));
    let mut t = vec![b'x'];
    t.extend(c44(0, 0, 0));
    t.extend(c44(0, 0, 0));
    t.extend_from_slice(&[b'x', b'3', 1, 0]);
    let mut p = 0;
    assert!(parse_toka_tree_inner(&t, &mut p).is_err());
}
