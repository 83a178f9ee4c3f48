use phper::{BorrowState, EBox, RawBlock};
use std::cell::Cell;
use std::rc::Rc;

struct Counted {
    drops: Rc<Cell<u32>>,
    value: i32,
}

impl Drop for Counted {
    fn drop(&mut self) {
        self.drops.set(self.drops.get() + 1);
    }
}

fn render_i32(v: &i32) -> String {
    format!("{:?}", v)
}

#[test]
fn write_then_read_back() {
    let mut b = EBox::from_raw(RawBlock::new(0x1000, 42i32));
    let g = b.borrow_mut();
    *b.get_mut(&g) = 43;
    b.release_mut(g);
    let r = b.borrow();
    assert_eq!(*b.get(&r), 43);
    b.release(r);
    assert_eq!(b.state(), BorrowState::Unused);
}

#[test]
fn exclusive_refused_while_shared_live() {
    let mut b = EBox::from_raw(RawBlock::new(0x2000, 7i32));
    let r = b.try_borrow().unwrap();
    let err = b.try_borrow_mut().err().unwrap();
    assert_eq!(err.message(), "already borrowed");
    assert_eq!(b.state(), BorrowState::Reading(1));
    assert_eq!(*b.get(&r), 7);
}

#[test]
fn shared_refused_while_exclusive_live() {
    let mut b = EBox::from_raw(RawBlock::new(0x2000, 7i32));
    let _w = b.try_borrow_mut().unwrap();
    let err = b.try_borrow().err().unwrap();
    assert_eq!(err.message(), "already mutably borrowed");
    assert!(b.try_borrow_mut().is_err());
    assert_eq!(b.state(), BorrowState::Writing);
}

#[test]
fn many_shared_guards_coexist() {
    let mut b = EBox::from_raw(RawBlock::new(0x3000, 5u8));
    let mut guards = Vec::new();
    for _ in 0..100 {
        guards.push(b.try_borrow().unwrap());
    }
    assert_eq!(b.state(), BorrowState::Reading(100));
    for g in &guards {
        assert_eq!(*b.get(g), 5);
    }
    assert!(b.try_borrow_mut().is_err());
    for g in guards {
        b.release(g);
    }
    assert_eq!(b.state(), BorrowState::Unused);
    assert!(b.try_borrow_mut().is_ok());
}

#[test]
fn dropping_shared_guard_admits_exclusive() {
    let mut b = EBox::from_raw(RawBlock::new(0x3000, 1i64));
    let r = b.borrow();
    assert!(b.try_borrow_mut().is_err());
    b.release(r);
    let w = b.try_borrow_mut().unwrap();
    *b.get_mut(&w) = -1;
    assert_eq!(*b.get_exclusive(&w), -1);
    b.release_mut(w);
    assert!(b.try_borrow().is_ok());
}

#[test]
fn shared_guards_released_in_any_order() {
    let mut b = EBox::from_raw(RawBlock::new(0x4000, 0u32));
    let first = b.borrow();
    let second = b.borrow();
    b.release(first);
    assert_eq!(b.state(), BorrowState::Reading(1));
    assert!(b.try_borrow_mut().is_err());
    b.release(second);
    assert_eq!(b.state(), BorrowState::Unused);
}

#[test]
fn release_then_adopt_round_trips() {
    let mut b = EBox::from_raw(RawBlock::new(0x5000, String::from("kept")));
    let w = b.borrow_mut();
    b.get_mut(&w).push_str(" here");
    b.release_mut(w);
    let raw = EBox::into_raw(b);
    assert_eq!(raw.addr(), 0x5000);
    let mut again = EBox::from_raw(raw);
    assert_eq!(again.addr(), 0x5000);
    assert_eq!(again.state(), BorrowState::Unused);
    let r = again.borrow();
    assert_eq!(again.get(&r), "kept here");
}

#[test]
fn adopt_then_drop_destroys_once() {
    let drops = Rc::new(Cell::new(0u32));
    let b = EBox::from_raw(RawBlock::new(0x6000, Counted { drops: drops.clone(), value: 9 }));
    assert_eq!(drops.get(), 0);
    drop(b);
    assert_eq!(drops.get(), 1);
}

#[test]
fn release_to_raw_does_not_destroy() {
    let drops = Rc::new(Cell::new(0u32));
    let mut b = EBox::from_raw(RawBlock::new(0x6000, Counted { drops: drops.clone(), value: 9 }));
    let raw = EBox::into_raw(b);
    assert_eq!(drops.get(), 0);
    b = EBox::from_raw(raw);
    assert_eq!(drops.get(), 0);
    let r = b.borrow();
    assert_eq!(b.get(&r).value, 9);
    b.release(r);
    drop(b);
    assert_eq!(drops.get(), 1);
}

#[test]
fn debug_render_shows_value_when_free() {
    let mut b = EBox::from_raw(RawBlock::new(0x7000, 42i32));
    assert_eq!(b.debug_render(render_i32), "EBox { value: 42 }");
    let r = b.borrow();
    assert_eq!(b.debug_render(render_i32), "EBox { value: 42 }");
    b.release(r);
}

#[test]
fn debug_render_placeholder_while_exclusive() {
    let mut b = EBox::from_raw(RawBlock::new(0x7000, 42i32));
    let w = b.borrow_mut();
    assert_eq!(b.debug_render(render_i32), "EBox { value: <borrowed> }");
    b.release_mut(w);
    assert_eq!(b.debug_render(|v: &i32| format!("{:?}", v)), "EBox { value: 42 }");
}

#[test]
fn state_machine_transitions() {
    let mut s = BorrowState::new();
    assert_eq!(s, BorrowState::Unused);
    assert!(s.try_share().is_ok());
    assert!(s.try_share().is_ok());
    assert_eq!(s, BorrowState::Reading(2));
    assert!(s.try_take_exclusive().is_err());
    assert_eq!(s, BorrowState::Reading(2));
    s.end_share();
    assert_eq!(s, BorrowState::Reading(1));
    s.end_share();
    assert_eq!(s, BorrowState::Unused);
    assert!(s.try_take_exclusive().is_ok());
    assert_eq!(s, BorrowState::Writing);
    assert!(s.try_share().is_err());
    assert!(s.try_take_exclusive().is_err());
    s.end_exclusive();
    assert_eq!(s, BorrowState::Unused);
}

#[test]
fn raw_block_keeps_address() {
    let raw = RawBlock::new(0xdead_beef, [1u8, 2, 3]);
    assert_eq!(raw.addr(), 0xdead_beef);
    let b = EBox::from_raw(raw);
    assert_eq!(b.addr(), 0xdead_beef);
}
