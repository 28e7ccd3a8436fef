//! Borrowing: reading through shared references, writing through a unique one.
use vstd::prelude::*;

verus! {

pub struct Book {
    pub author: &'static str,
    pub title: &'static str,
    pub year: u32,
}

/// The year that `new_edition` gives a book.
pub const NEW_EDITION_YEAR: u32 = 2021;

/// Moves a book to its new edition; author and title stay.
pub fn new_edition(book: &mut Book)
    ensures
        final(book).year == NEW_EDITION_YEAR,
        final(book).author == old(book).author,
        final(book).title == old(book).title,
{
    book.year = NEW_EDITION_YEAR;
}

pub fn multiply(first: &i32, second: &i32) -> (r: i32)
    requires
        i32::MIN <= *first * *second <= i32::MAX,
    ensures
        r == *first * *second,
{
    first * second
}

pub fn choose_first<'a: 'b, 'b>(first: &'a i32, _second: &'b i32) -> (r: &'b i32)
    ensures
        *r == *first,
{
    first
}

} // verus!
