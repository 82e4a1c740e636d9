//! Small helpers around values, options, results, vectors and text: scoped
//! borrows and in-place updates, fallible collection, strided selection,
//! case conversion and the names of temporary files.
pub mod borrow;
pub mod collections;
pub mod iter;
pub mod option;
pub mod result;
pub mod string;
pub mod temp;

pub use borrow::{CowCell, FieldSplit, MutShared, SelfRef, SplitBorrow, TakeReplace};
pub use collections::{ResultVecExt, VecExt};
pub use iter::{EveryNth, IterExt};
pub use option::OptionExt;
pub use result::ResultExt;
pub use string::StringExt;
pub use temp::{temp_file_name, uuid};
