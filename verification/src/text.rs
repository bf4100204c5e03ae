//! Contracts for the three `String` methods that the editor's text buffer
//! relies on. They are taken on trust from the standard library's
//! documentation; nothing here is proved.

use vstd::prelude::*;

verus! {

/// `String::push` appends the given character to the end of the string and
/// leaves every character already there in place.
pub assume_specification[ String::push ](s: &mut String, c: char)
    ensures
        final(s)@ == old(s)@.push(c),
;

/// `String::pop` removes the last character and returns it, or returns `None`
/// and changes nothing when the string is empty.
pub assume_specification[ String::pop ](s: &mut String) -> (last: Option<char>)
    ensures
        old(s)@.len() == 0 ==> last is None && final(s)@ == old(s)@,
        old(s)@.len() > 0 ==> last == Some(old(s)@.last()) && final(s)@ == old(s)@.drop_last(),
;

/// `String::clear` removes every character, leaving the empty string.
pub assume_specification[ String::clear ](s: &mut String)
    ensures
        final(s)@ == Seq::<char>::empty(),
;

} // verus!
