use cbqn::sandbox::{
    bound_fn_unsupported, element_count, fault, field_flag, scratch_size, widen_shape, with_buf,
    Scratch,
};
use cbqn::Fault;
use std::cell::RefCell;

#[test]
fn a_scratch_area_holds_every_element() {
    assert_eq!(scratch_size(0, 8), Some(0));
    assert_eq!(scratch_size(5, 0), Some(0));
    assert_eq!(scratch_size(3, 8), Some(24));
    assert_eq!(scratch_size(6, 4), Some(24));
    assert_eq!(scratch_size(7, 1), Some(7));
    assert_eq!(scratch_size(0x1fff_ffff, 8), Some(0xffff_fff8));
    assert_eq!(scratch_size(0xffff_ffff, 1), Some(0xffff_ffff));
    assert_eq!(scratch_size(0x3333_3333, 5), Some(0xffff_ffff));
}

#[test]
fn a_scratch_area_that_the_sandbox_cannot_address_is_refused() {
    for (len, width) in [
        (0x2000_0000, 8),
        (0x1_0000_0000, 1),
        (1, 0x1_0000_0000),
        (0x8000_0000, 2),
        (usize::MAX, 8),
        (usize::MAX, usize::MAX),
        (0x1_0000, 0x1_0000),
    ] {
        assert_eq!(scratch_size(len, width), None, "{} elements of {} bytes", len, width);
    }
}

#[test]
fn a_length_is_narrowed_or_refused() {
    assert_eq!(element_count(0), Some(0));
    assert_eq!(element_count(6), Some(6));
    assert_eq!(element_count(0xffff_ffff), Some(0xffff_ffff));
    assert_eq!(element_count(0x1_0000_0000), None);
    assert_eq!(element_count(usize::MAX), None);
}

/// A sandbox that keeps a list of what was asked of its allocator.
struct Heap {
    log: RefCell<Vec<String>>,
    full: bool,
    stuck: bool,
}

impl Heap {
    fn new() -> Heap {
        Heap { log: RefCell::new(Vec::new()), full: false, stuck: false }
    }

    fn log(&self) -> Vec<String> {
        self.log.borrow().clone()
    }
}

impl Scratch for Heap {
    fn malloc(&self, size: u32) -> Result<u32, Fault> {
        self.log.borrow_mut().push(format!("malloc {}", size));
        if self.full {
            Err(Fault::Failed("no memory".to_string()))
        } else {
            Ok(0x1000)
        }
    }

    fn free(&self, ptr: u32) -> Result<(), Fault> {
        self.log.borrow_mut().push(format!("free {:#x}", ptr));
        if self.stuck {
            Err(Fault::Failed("stuck".to_string()))
        } else {
            Ok(())
        }
    }

    fn last_words(&self) -> String {
        "out of range".to_string()
    }
}

#[test]
fn a_call_gets_its_scratch_area_and_gives_it_back() {
    let heap = Heap::new();
    let r = with_buf(&heap, 3, 8, |ptr| {
        heap.log.borrow_mut().push(format!("call {:#x}", ptr));
        Ok(ptr + 1)
    });
    assert!(matches!(r, Ok(0x1001)));
    assert_eq!(heap.log(), ["malloc 24", "call 0x1000", "free 0x1000"]);
}

#[test]
fn the_scratch_area_is_given_back_after_a_call_that_failed() {
    let heap = Heap::new();
    let r: Result<u8, Fault> = with_buf(&heap, 3, 8, |_| Err(Fault::Failed("trap".to_string())));
    assert!(matches!(r, Err(Fault::Failed(m)) if m == "trap"));
    assert_eq!(heap.log(), ["malloc 24", "free 0x1000"]);
}

#[test]
fn a_call_without_a_scratch_area_is_not_made() {
    let heap = Heap { full: true, ..Heap::new() };
    let r = with_buf(&heap, 3, 8, |_| -> Result<u8, Fault> { panic!("called") });
    assert!(matches!(r, Err(Fault::Failed(m)) if m == "no memory"));
    assert_eq!(heap.log(), ["malloc 24"]);

    let heap = Heap::new();
    let r = with_buf(&heap, 0x2000_0000, 8, |_| -> Result<u8, Fault> { panic!("called") });
    assert!(matches!(r, Err(Fault::Failed(m)) if m == "out of range"));
    assert!(heap.log().is_empty());
}

#[test]
fn a_scratch_area_that_cannot_be_given_back_is_a_failure() {
    let heap = Heap { stuck: true, ..Heap::new() };
    let r = with_buf(&heap, 1, 1, |_| Ok(7u8));
    assert!(matches!(r, Err(Fault::Failed(m)) if m == "stuck"));
    let r: Result<u8, Fault> = with_buf(&heap, 1, 1, |_| Err(Fault::Failed("trap".to_string())));
    assert!(matches!(r, Err(Fault::Failed(m)) if m == "trap"));
}

#[test]
fn a_shape_is_widened() {
    assert_eq!(widen_shape(&vec![]), Vec::<usize>::new());
    assert_eq!(widen_shape(&vec![2, 2]), vec![2, 2]);
    assert_eq!(widen_shape(&vec![0, 1, u32::MAX]), vec![0, 1, 0xffff_ffff]);
}

#[test]
fn any_number_but_zero_says_that_the_field_is_there() {
    assert!(!field_flag(0));
    assert!(field_flag(1));
    assert!(field_flag(-1));
    assert!(field_flag(i32::MIN));
}

#[test]
fn a_fault_carries_the_last_words() {
    assert!(matches!(fault("out of memory".to_string()), Fault::Failed(m) if m == "out of memory"));
    assert!(matches!(fault(String::new()), Fault::Failed(m) if m.is_empty()));
}

#[test]
fn host_functions_cannot_enter_the_sandbox() {
    match bound_fn_unsupported() {
        Fault::NotSupported(m) => assert_eq!(m, "BoundFns are not supported with WASI backend"),
        other => panic!("{:?}", other),
    }
}
