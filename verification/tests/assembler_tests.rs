use chronolens::assembler::{PartAssembler, Pushed, MAX_BODY_SIZE, PART_SIZE};

#[test]
fn part_size_is_five_mebibytes() {
    assert_eq!(PART_SIZE, 5 * 1024 * 1024);
    assert_eq!(MAX_BODY_SIZE, 10 * 1024 * 1024 * 1024);
}

#[test]
fn small_pieces_are_buffered() {
    let mut a = PartAssembler::new();
    assert!(matches!(a.push(vec![1, 2, 3]), Pushed::Buffered));
    assert!(matches!(a.push(vec![4]), Pushed::Buffered));
    assert_eq!(a.received(), 4);
    assert_eq!(a.parts_handed_out(), 0);
    assert_eq!(a.finish(), vec![1, 2, 3, 4]);
}

#[test]
fn full_buffer_is_handed_out_when_the_next_piece_arrives() {
    let mut a = PartAssembler::new();
    assert!(matches!(a.push(vec![7u8; PART_SIZE]), Pushed::Buffered));
    match a.push(vec![9u8; 10]) {
        Pushed::Part(part) => {
            assert_eq!(part.len(), PART_SIZE);
            assert!(part.iter().all(|b| *b == 7));
        }
        _ => panic!("a part was due"),
    }
    assert_eq!(a.parts_handed_out(), 1);
    assert_eq!(a.received(), PART_SIZE as u64 + 10);
    assert_eq!(a.finish(), vec![9u8; 10]);
}

#[test]
fn buffer_just_under_a_part_keeps_growing() {
    let mut a = PartAssembler::new();
    assert!(matches!(a.push(vec![0u8; PART_SIZE - 1]), Pushed::Buffered));
    assert!(matches!(a.push(vec![0u8; 2]), Pushed::Buffered));
    match a.push(vec![1u8; 1]) {
        Pushed::Part(part) => assert_eq!(part.len(), PART_SIZE + 1),
        _ => panic!("a part was due"),
    }
}

#[test]
fn empty_body_ends_with_an_empty_part() {
    let a = PartAssembler::new();
    assert_eq!(a.finish(), Vec::<u8>::new());
}
