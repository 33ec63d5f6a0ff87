//! Preparing a menu call: from a configuration and the items to the shell
//! line that shows them.

use crate::error::ExecuteError;
use crate::menu::DMenu;
use crate::selection::{entry_items, entry_keys, key_block, output_bytes, Selection};
use std::fmt::Display;
use vstd::prelude::*;
use vstd::string::{to_string_from_display_ensures, StrSliceExecFns, StringExecFns};
use vstd::utf8::{decode_utf8, encode_utf8, valid_utf8};

verus! {

/// The shell line that pipes `input` into the menu program started by
/// `command`. Neither part is quoted or escaped beyond the single quotes
/// around the input.
pub open spec fn shell_line(input: Seq<char>, command: Seq<char>) -> Seq<char> {
    "echo -e '"@ + input + "' | "@ + command
}

/// `key` is the text that `item` displays as, followed by one newline.
pub open spec fn is_key_of<T: Display>(item: &T, key: Seq<char>) -> bool {
    exists|label: String| #[trigger]
        to_string_from_display_ensures::<T>(item, label) && key == label@ + seq!['\n']
}

/// A text without the newline at its end. A text that does not end in a
/// newline, the empty text among them, stays as it is; of several newlines
/// at the end only the last one goes.
pub open spec fn without_newline(text: Seq<char>) -> Seq<char> {
    if text.len() > 0 && text.last() == '\n' {
        text.drop_last()
    } else {
        text
    }
}

/// `result` is what a request for free text comes to, given what running
/// the shell gave.
///
/// A failure to start is handed on. Bytes that are not UTF-8 are a decode
/// error. Otherwise the result is the text without the newline at its end.
/// There is nothing to look up, so `ItemNotFoundError` never comes.
pub open spec fn input_result<E>(
    output: Result<Seq<u8>, E>,
    result: Result<String, ExecuteError<E>>,
) -> bool {
    match output {
        Err(failure) => result == Err::<String, ExecuteError<E>>(ExecuteError::Launch(failure)),
        Ok(bytes) => if !valid_utf8(bytes) {
            result matches Err(ExecuteError::Decode(_))
        } else {
            result matches Ok(text) && text@ == without_newline(decode_utf8(bytes))
        },
    }
}

/// Free text: where the menu answers with a text and the newline that ends
/// its line, the request gives that text, newline taken off.
pub proof fn lemma_typed_line_comes_back<E>(typed: Seq<char>, result: Result<String, ExecuteError<E>>)
    requires
        input_result(Ok(encode_utf8(typed.push('\n'))), result),
    ensures
        result matches Ok(text) && text@ == typed,
{
    vstd::utf8::encode_utf8_valid_utf8(typed.push('\n'));
    vstd::utf8::encode_utf8_decode_utf8(typed.push('\n'));
    assert(typed.push('\n').drop_last() =~= typed);
}

/// A request for free text that has been prepared and waits for the menu's
/// answer. `command` is the line to hand to `sh -c`.
#[derive(Debug)]
pub struct TextPrompt {
    pub command: String,
}

impl TextPrompt {
    /// Resolves the request. `output` is what running `command` gave: the
    /// bytes on the menu's standard output, or the reason why the shell did
    /// not start.
    ///
    /// The bytes are read as UTF-8, and the newline that ends the menu's line
    /// is taken off. A text that does not end in a newline comes back whole.
    pub fn resolve<E>(self, output: Result<Vec<u8>, E>) -> (result: Result<
        String,
        ExecuteError<E>,
    >)
        ensures
            input_result(output_bytes(output), result),
    {
        let bytes = match output {
            Ok(bytes) => bytes,
            Err(failure) => {
                return Err(ExecuteError::Launch(failure));
            },
        };
        let mut text = match String::from_utf8(bytes) {
            Ok(text) => text,
            Err(failure) => {
                return Err(ExecuteError::Decode(failure));
            },
        };
        proof {
            vstd::utf8::encode_utf8_decode_utf8(text@);
        }
        let length: usize = text.as_str().unicode_len();
        if length > 0 && text.as_str().get_char(length - 1) == '\n' {
            text.pop();
        }
        Ok(text)
    }
}

fn compose(input: &String, command: &String) -> (line: String)
    ensures
        line@ == shell_line(input@, command@),
{
    let mut line = String::from_str("echo -e '");
    line.append(input.as_str());
    line.append("' | ");
    line.append(command.as_str());
    line
}

fn key_of<T: Display>(item: &T) -> (key: String)
    ensures
        is_key_of(item, key@),
{
    let label = item.to_string();
    let ghost witness = label;
    proof {
        reveal_strlit("\n");
    }
    let key = label.concat("\n");
    assert(key@ =~= witness@ + seq!['\n']);
    key
}

/// Puts one item beside its key at the end of the entries, and the key at
/// the end of the block.
fn add_entry<V>(entries: &mut Vec<(String, V)>, block: &mut String, key: String, item: V)
    requires
        old(block)@ == key_block(entry_keys(old(entries)@)),
    ensures
        entry_keys(final(entries)@) == entry_keys(old(entries)@).push(key@),
        entry_items(final(entries)@) == entry_items(old(entries)@).push(item),
        final(block)@ == key_block(entry_keys(final(entries)@)),
{
    block.append(key.as_str());
    entries.push((key, item));
    assert(entry_keys(entries@) =~= entry_keys(old(entries)@).push(key@));
    assert(entry_items(entries@) =~= entry_items(old(entries)@).push(item));
    assert(entry_keys(entries@).drop_last() =~= entry_keys(old(entries)@));
}

impl<'a> DMenu<'a> {
    /// Prepares a choice among the items of `list`, of which the chosen one
    /// comes back by reference.
    ///
    /// Each item is shown as the text it displays as. Two items that display
    /// as the same text cannot be told apart: the later one is returned.
    pub fn execute<'b, T: Display>(self, list: &'b Vec<T>) -> (call: Selection<&'b T>)
        ensures
            call.items().len() == list@.len(),
            forall|i: int| 0 <= i < list@.len() ==> *(#[trigger] call.items()[i]) == list@[i],
            forall|i: int|
                0 <= i < list@.len() ==> is_key_of(&list@[i], #[trigger] call.keys()[i]),
            call.command@ == shell_line(key_block(call.keys()), self@.command_line()),
    {
        let mut entries: Vec<(String, &'b T)> = Vec::new();
        let mut block = String::new();
        for item in iter: list
            invariant
                entries@.len() == iter.index(),
                iter.seq().len() == list@.len(),
                forall|j: int| 0 <= j < list@.len() ==> *(#[trigger] iter.seq()[j]) == list@[j],
                forall|j: int|
                    0 <= j < iter.index() ==> *(#[trigger] entry_items(entries@)[j]) == list@[j],
                forall|j: int|
                    0 <= j < iter.index() ==> is_key_of(
                        &list@[j],
                        #[trigger] entry_keys(entries@)[j],
                    ),
                block@ == key_block(entry_keys(entries@)),
        {
            let key = key_of(item);
            add_entry(&mut entries, &mut block, key, item);
        }
        let command = compose(&block, &self.to_command());
        Selection { command, entries }
    }

    /// Prepares a choice among the items of `list`, of which the chosen one
    /// comes back by value; the others are dropped with the call.
    ///
    /// Each item is shown as the text it displays as. Two items that display
    /// as the same text cannot be told apart: the later one is returned.
    pub fn execute_consume<T: Display>(self, list: Vec<T>) -> (call: Selection<T>)
        ensures
            call.items() == list@,
            forall|i: int|
                0 <= i < list@.len() ==> is_key_of(&list@[i], #[trigger] call.keys()[i]),
            call.command@ == shell_line(key_block(call.keys()), self@.command_line()),
    {
        let mut entries: Vec<(String, T)> = Vec::new();
        let mut block = String::new();
        for item in iter: list
            invariant
                entries@.len() == iter.index(),
                iter.seq() == list@,
                entry_items(entries@) == list@.take(iter.index()),
                forall|j: int|
                    0 <= j < iter.index() ==> is_key_of(
                        &list@[j],
                        #[trigger] entry_keys(entries@)[j],
                    ),
                block@ == key_block(entry_keys(entries@)),
        {
            let key = key_of(&item);
            add_entry(&mut entries, &mut block, key, item);
        }
        let command = compose(&block, &self.to_command());
        Selection { command, entries }
    }

    /// Prepares a request for free text: the menu is shown without items, and
    /// what the user types comes back.
    pub fn execute_as_input(self) -> (call: TextPrompt)
        ensures
            call.command@ == shell_line(seq!['\n'], self@.command_line()),
    {
        proof {
            reveal_strlit("\n");
        }
        let input = String::from_str("\n");
        assert(input@ =~= seq!['\n']);
        TextPrompt { command: compose(&input, &self.to_command()) }
    }
}

} // verus!
