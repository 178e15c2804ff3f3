//! Names and contents of the records that saved commands are kept in.

use vstd::prelude::*;
use crate::text::{first_token, first_token_of, hex_digits, hex_of};

verus! {

/// The folder, under the home directory, that holds the saved commands.
pub const DOTFOLDER_PATH: &'static str = ".sniprs";

/// The hash that std's default hasher gives a command string.
pub uninterp spec fn std_hash(command: Seq<char>) -> u64;

/// Relies on `std::hash::BuildHasher::hash_one` with a `DefaultHasher` made
/// by `new`: the same value as hashing the string into a fresh
/// `DefaultHasher` and finishing it, which depends on the string alone.
#[verifier::external_body]
fn command_hash(command: &str) -> (r: u64)
    ensures
        r == std_hash(command@),
{
    std::hash::BuildHasher::hash_one(
        &std::hash::BuildHasherDefault::<std::hash::DefaultHasher>::default(),
        command,
    )
}

/// `{first token}-{hash in hex}.md`.
pub open spec fn file_name_for(command: Seq<char>) -> Seq<char> {
    first_token(command) + seq!['-'] + hex_digits(std_hash(command) as nat) + seq!['.', 'm', 'd']
}

/// A markdown heading line with the raw command.
pub open spec fn contents_for(command: Seq<char>) -> Seq<char> {
    seq!['#', ' '] + command + seq![' ', '\n', '\n']
}

/// The file name that `command` is saved under.
pub fn create_file_name(command: &str) -> (r: String)
    ensures
        r@ == file_name_for(command@),
{
    let mut name = String::from_str(first_token_of(command));
    name.append("-");
    let hash = hex_of(command_hash(command));
    name.append(hash.as_str());
    name.append(".md");
    proof {
        reveal_strlit("-");
        reveal_strlit(".md");
    }
    assert(name@ =~= file_name_for(command@));
    name
}

/// What a saved command's file holds.
pub fn record_contents(command: &str) -> (r: String)
    ensures
        r@ == contents_for(command@),
{
    let mut data = String::from_str("# ");
    data.append(command);
    data.append(" \n\n");
    proof {
        reveal_strlit("# ");
        reveal_strlit(" \n\n");
    }
    assert(data@ =~= contents_for(command@));
    data
}

/// A file to be written.
pub struct SaveRecord {
    pub file_name: String,
    pub contents: String,
}

/// The record to write for `command`, or `None` when a file of that name
/// already exists: the first write wins.
pub fn plan_save(command: &str, already_saved: bool) -> (r: Option<SaveRecord>)
    ensures
        already_saved <==> r is None,
        r is Some ==> r->Some_0.file_name@ == file_name_for(command@) && r->Some_0.contents@
            == contents_for(command@),
{
    if already_saved {
        None
    } else {
        Some(SaveRecord { file_name: create_file_name(command), contents: record_contents(command) })
    }
}

/// The folder's files, by name, after saving `command`.
pub open spec fn store_after_save(files: Map<Seq<char>, Seq<char>>, command: Seq<char>) -> Map<
    Seq<char>,
    Seq<char>,
> {
    if files.contains_key(file_name_for(command)) {
        files
    } else {
        files.insert(file_name_for(command), contents_for(command))
    }
}

/// Saving a command adds at most its one file and never changes a file
/// that is there; saving it again changes nothing.
pub proof fn lemma_save_is_idempotent(files: Map<Seq<char>, Seq<char>>, command: Seq<char>)
    ensures
        store_after_save(files, command).dom() == files.dom().insert(file_name_for(command)),
        forall|name: Seq<char>|
            files.contains_key(name) ==> #[trigger] store_after_save(files, command)[name]
                == files[name],
        store_after_save(store_after_save(files, command), command) == store_after_save(
            files,
            command,
        ),
{
    let after = store_after_save(files, command);
    if files.contains_key(file_name_for(command)) {
        assert(files.dom().insert(file_name_for(command)) =~= files.dom());
    } else {
        assert(after.dom() =~= files.dom().insert(file_name_for(command)));
    }
}

} // verus!
