use mutator::child::{handle_wait_result, ChildFault};

#[test]
fn running_child_is_ok() {
    assert_eq!(handle_wait_result(0, &0), Ok(()));
    assert_eq!(handle_wait_result(0, &0x0300), Ok(()));
    assert_eq!(handle_wait_result(-2, &0), Ok(()));
    assert_eq!(handle_wait_result(i32::MIN, &9), Ok(()));
}

#[test]
fn failed_wait_is_reported() {
    assert_eq!(handle_wait_result(-1, &0), Err(ChildFault::WaitFailed));
    assert_eq!(handle_wait_result(-1, &0x0300), Err(ChildFault::WaitFailed));
}

#[test]
fn exit_status_is_the_second_byte() {
    assert_eq!(handle_wait_result(1234, &0x0300), Err(ChildFault::Exited(3)));
    assert_eq!(handle_wait_result(1, &0), Err(ChildFault::Exited(0)));
    assert_eq!(handle_wait_result(1, &0xFF00), Err(ChildFault::Exited(255)));
    assert_eq!(handle_wait_result(i32::MAX, &0x0001_2A00), Err(ChildFault::Exited(0x2A)));
}

#[test]
fn signal_is_the_low_seven_bits() {
    assert_eq!(handle_wait_result(1, &9), Err(ChildFault::Signaled(9)));
    assert_eq!(handle_wait_result(1, &0x89), Err(ChildFault::Signaled(9)));
    assert_eq!(handle_wait_result(1, &11), Err(ChildFault::Signaled(11)));
    assert_eq!(handle_wait_result(1, &126), Err(ChildFault::Signaled(126)));
}

#[test]
fn stopped_child_is_neither_exited_nor_signaled() {
    assert_eq!(handle_wait_result(1, &0x137F), Err(ChildFault::Stopped));
    assert_eq!(handle_wait_result(1, &0x7F), Err(ChildFault::Stopped));
    assert_eq!(handle_wait_result(1, &0xFFFF), Err(ChildFault::Stopped));
}

#[test]
fn negative_status_words() {
    assert_eq!(handle_wait_result(1, &-1), Err(ChildFault::Stopped));
    assert_eq!(handle_wait_result(1, &i32::MIN), Err(ChildFault::Exited(0)));
    assert_eq!(handle_wait_result(1, &-256), Err(ChildFault::Exited(255)));
    assert_eq!(handle_wait_result(1, &-255), Err(ChildFault::Signaled(1)));
}
