//! Owning handles for values that live in memory managed outside the
//! program's own allocator, with shared and exclusive access checked at
//! run time.
pub mod borrow_state;
pub mod ebox;

pub use borrow_state::{BorrowError, BorrowMutError, BorrowState};
pub use ebox::{EBox, EBoxView, ERef, ERefMut, RawBlock, RawBlockView};
