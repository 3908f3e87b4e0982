//! Line-level access to one file's stored content.

use vstd::prelude::*;

verus! {

/// The line-level operations on a single file's content. Implemented
/// outside the library by the database-backed repository; each
/// implementation is bound to a single file.
pub trait IFileContentRepository {
    /// Every line of the file, in order.
    fn get_content(&self) -> Vec<String>;

    /// The line at this index, if the file has one.
    fn get_line(&self, index: u32) -> Option<String>;

    /// Removes the line at this index.
    fn delete_line(&self, index: u32);

    /// Inserts a line at this index; absent content stands for an empty
    /// line.
    fn insert_new_line(&self, index: u32, content: Option<String>);

    /// Replaces the line at this index.
    fn update(&self, index: u32, content: String);

    /// The lines of the inclusive index range, in order.
    fn get_lines(&self, from_inclusive: u32, to_inclusive: u32) -> Vec<String>;
}

} // verus!
