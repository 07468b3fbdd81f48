use aarch64_rt::{BootStack, Stack, DEFAULT_BOOT_STACK_PAGES, PAGE_SIZE};

#[test]
fn default_boot_stack_is_forty_pages() {
    assert_eq!(DEFAULT_BOOT_STACK_PAGES, 40);
    let stack = Box::new(BootStack::new());
    assert_eq!(stack.size_in_bytes(), 163_840);
}

#[test]
fn default_impl_matches_new() {
    let stack: Box<Stack<40>> = Box::new(Stack::default());
    assert_eq!(stack.size_in_bytes(), 40 * 4096);
}

#[test]
fn stack_size_is_pages_times_page_size() {
    assert_eq!(PAGE_SIZE, 4096);
    assert_eq!(Stack::<1>::new().size_in_bytes(), 4096);
    assert_eq!(Stack::<4>::new().size_in_bytes(), 16_384);
    assert_eq!(Stack::<10>::new().size_in_bytes(), 40_960);
    assert_eq!(Stack::<0>::new().size_in_bytes(), 0);
}
