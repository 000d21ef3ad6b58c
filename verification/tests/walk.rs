use rainbow::calls::{walk_after, walk_next, Walk};

#[test]
fn the_block_loop_runs_seeks_and_steps_back() {
    let starts = vec![0, 4, 5, 9];
    assert_eq!(walk_next(&starts, 4, 0, 0), Walk::Run(0, 0));
    assert_eq!(walk_next(&starts, 4, 6, 0), Walk::Run(2, 5));
    assert_eq!(walk_next(&starts, 4, 0, 4), Walk::End);
    // after block 0 ends at address 4, the loop goes on with block 1
    assert_eq!(walk_after(&starts, 4, 4, 0, 0), Walk::Run(1, 4));
    // a jump back into block 0 from block 2 runs block 0 again
    assert_eq!(walk_after(&starts, 4, 2, 2, 0), Walk::Run(0, 0));
    // a nonzero code leaves the scope
    assert_eq!(walk_after(&starts, 4, 4, 0, 3), Walk::Exit(3));
    // after the last block the loop ends
    assert_eq!(walk_after(&starts, 4, 12, 3, 0), Walk::End);
}
