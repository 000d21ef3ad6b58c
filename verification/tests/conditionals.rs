use rainbow::frame::Frame;
use rainbow::parse_scope::{eval_conditional, parse_scope};
use rainbow::scope::Block;

fn consts() -> Vec<(String, i32)> {
    vec![("A".to_string(), 1), ("B".to_string(), 2)]
}

#[test]
fn a_taken_branch_consumes_the_whole_conditional() {
    // `if A == A {} else {} end`, after its first `F7`
    let bytes = vec![0x00, 0x01, 0x41, 0x00, 0x01, 0x41, 0xFE, 0xFD, 0xF7, 0x02, 0xFE, 0xFD, 0xF7, 0x03];
    let mut stack: Vec<Frame> = Vec::new();
    let mut i = 0;
    let r = eval_conditional(&bytes, &mut stack, &mut i, &Vec::new(), &consts(), 4).unwrap();
    assert!(matches!(r, Some(s) if s.blocks.is_empty()));
    assert_eq!(i, 14);
}

#[test]
fn an_else_branch_consumes_the_end_block() {
    // `if A == B {} else { VAR u8 b } end`, after its first `F7`
    let bytes = vec![0x00, 0x01, 0x41, 0x00, 0x01, 0x42, 0xFE, 0xFD, 0xF7, 0x02, 0xFE, 0x66, 0x05, 0x01, 0x62, 0xFD,
        0xF7, 0x03];
    let mut stack: Vec<Frame> = Vec::new();
    let mut i = 0;
    let r = eval_conditional(&bytes, &mut stack, &mut i, &Vec::new(), &consts(), 4).unwrap();
    assert!(matches!(r, Some(s) if s.blocks.len() == 1));
    assert_eq!(i, bytes.len());
}

#[test]
fn a_scope_holds_only_the_taken_branch() {
    // `if A == A { VAR u8 a } else { VAR u8 b } end`
    let bytes = vec![0xF7, 0x00, 0x01, 0x41, 0x00, 0x01, 0x41, 0xFE, 0x66, 0x05, 0x01, 0x61, 0xFD, 0xF7, 0x02, 0xFE,
        0x66, 0x05, 0x01, 0x62, 0xFD, 0xF7, 0x03];
    let mut stack: Vec<Frame> = Vec::new();
    let mut i = 0;
    let s = parse_scope(&bytes, &mut stack, &mut i, &Vec::new(), &consts(), 4).unwrap();
    assert_eq!(i, 23);
    let mut count = 0;
    for b in &s.blocks {
        match b {
            Block::CODE(code) => {
                for ins in code {
                    assert_eq!(ins.index, 8);
                    count += 1;
                }
            }
            Block::SCOPE(_) => panic!("expected code"),
        }
    }
    assert_eq!(count, 1);
}
