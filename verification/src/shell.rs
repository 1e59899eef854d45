//! The decision logic of the interactive shell: menu dispatch and the
//! translation of one-based menu indices to the store's zero-based ones.
//!
//! Reading lines and printing stay with the caller; this module only decides.

use vstd::prelude::*;

use crate::record::Record;
use crate::store::{IndexError, Store};

verus! {

/// One menu action of the interactive shell.
#[derive(Clone, Copy, Debug, PartialEq, Eq, Structural)]
pub enum MenuChoice {
    AddRecord,
    ListRecords,
    UpdateRecord,
    DeleteRecord,
    RenderReport,
    Exit,
    Invalid,
}

/// The action selected by one line of menu input: the digits "1" through
/// "6", exactly one character long, select an action; anything else is
/// invalid.
pub open spec fn choice_of(s: Seq<char>) -> MenuChoice {
    if s.len() != 1 {
        MenuChoice::Invalid
    } else if s[0] == '1' {
        MenuChoice::AddRecord
    } else if s[0] == '2' {
        MenuChoice::ListRecords
    } else if s[0] == '3' {
        MenuChoice::UpdateRecord
    } else if s[0] == '4' {
        MenuChoice::DeleteRecord
    } else if s[0] == '5' {
        MenuChoice::RenderReport
    } else if s[0] == '6' {
        MenuChoice::Exit
    } else {
        MenuChoice::Invalid
    }
}

/// Maps one line of menu input to its action.
pub fn parse_choice(s: &str) -> (c: MenuChoice)
    ensures
        c == choice_of(s@),
{
    if s.unicode_len() != 1 {
        return MenuChoice::Invalid;
    }
    match s.get_char(0) {
        '1' => MenuChoice::AddRecord,
        '2' => MenuChoice::ListRecords,
        '3' => MenuChoice::UpdateRecord,
        '4' => MenuChoice::DeleteRecord,
        '5' => MenuChoice::RenderReport,
        '6' => MenuChoice::Exit,
        _ => MenuChoice::Invalid,
    }
}

/// Translates a one-based index from the menu into the store's zero-based
/// index: defined exactly when `1 <= user <= len`. One-based indices never
/// reach the store itself.
pub fn to_internal_index(user: u64, len: usize) -> (r: Option<usize>)
    ensures
        1 <= user <= len ==> r == Some((user - 1) as usize),
        !(1 <= user <= len) ==> r is None,
{
    if 1 <= user && user <= (len as u64) {
        Some((user - 1) as usize)
    } else {
        None
    }
}

/// The update action as the shell dispatches it, on a one-based index: in
/// range, all four fields of that record are replaced at once; zero or
/// past-the-end input leaves the store unchanged and reports the error.
pub fn update_user(store: &mut Store, user: u64, r: Record) -> (res: Result<(), IndexError>)
    ensures
        1 <= user <= old(store)@.len() ==> res is Ok && final(store)@ == old(store)@.update(
            user as int - 1,
            r,
        ),
        !(1 <= user <= old(store)@.len()) ==> res is Err && final(store)@ == old(store)@,
{
    let n = store.len();
    match to_internal_index(user, n) {
        Some(i) => store.update(i, r),
        None => Err(IndexError),
    }
}

/// The delete action as the shell dispatches it, on a one-based index: in
/// range, exactly that record is removed and later ones shift down by one;
/// zero or past-the-end input leaves the store unchanged and reports the
/// error.
pub fn delete_user(store: &mut Store, user: u64) -> (res: Result<(), IndexError>)
    ensures
        1 <= user <= old(store)@.len() ==> res is Ok && final(store)@ == old(store)@.remove(
            user as int - 1,
        ),
        !(1 <= user <= old(store)@.len()) ==> res is Err && final(store)@ == old(store)@,
{
    let n = store.len();
    match to_internal_index(user, n) {
        Some(i) => store.delete(i),
        None => Err(IndexError),
    }
}

} // verus!
