//! The way back from the menu's answer to the item that was chosen.

use crate::error::{ExecuteError, ItemNotFoundError};
use vstd::prelude::*;
use vstd::utf8::{decode_utf8, encode_utf8, valid_utf8};

verus! {

/// The mapping from key to item that a list of keyed items stands for. The
/// entries go in one after another, so of two items with the same key the
/// later one stays and the earlier one is lost.
pub open spec fn item_mapping<V>(keys: Seq<Seq<char>>, items: Seq<V>) -> Map<Seq<char>, V>
    recommends
        keys.len() == items.len(),
    decreases keys.len(),
{
    if keys.len() == 0 {
        Map::empty()
    } else {
        item_mapping(keys.drop_last(), items.drop_last()).insert(keys.last(), items.last())
    }
}

/// All keys one after another, in the order of the items: the text that is
/// piped into the menu.
pub open spec fn key_block(keys: Seq<Seq<char>>) -> Seq<char>
    decreases keys.len(),
{
    if keys.len() == 0 {
        Seq::empty()
    } else {
        key_block(keys.drop_last()) + keys.last()
    }
}

/// `text` occurs among the keys at `index` and nowhere after it.
pub open spec fn is_last_match(keys: Seq<Seq<char>>, text: Seq<char>, index: int) -> bool {
    &&& 0 <= index < keys.len()
    &&& keys[index] == text
    &&& forall|j: int| index < j < keys.len() ==> keys[j] != text
}

/// `text` occurs nowhere among the keys.
pub open spec fn is_absent(keys: Seq<Seq<char>>, text: Seq<char>) -> bool {
    forall|j: int| 0 <= j < keys.len() ==> keys[j] != text
}

/// A text is in the mapping exactly if it occurs among the keys, and it then
/// stands for the item at its last occurrence.
pub proof fn lemma_mapping_by_position<V>(keys: Seq<Seq<char>>, items: Seq<V>, text: Seq<char>)
    requires
        keys.len() == items.len(),
    ensures
        is_absent(keys, text) <==> !item_mapping(keys, items).contains_key(text),
        forall|k: int|
            is_last_match(keys, text, k) ==> item_mapping(keys, items).contains_key(text)
                && item_mapping(keys, items)[text] == items[k],
    decreases keys.len(),
{
    if keys.len() > 0 {
        let front = keys.drop_last();
        lemma_mapping_by_position(front, items.drop_last(), text);
        if keys.last() == text {
            assert(!is_absent(keys, text));
        } else {
            assert(is_absent(front, text) <==> is_absent(keys, text)) by {
                if is_absent(front, text) {
                    assert forall|j: int| 0 <= j < keys.len() implies keys[j] != text by {
                        if j < front.len() {
                            assert(front[j] == keys[j]);
                        }
                    }
                }
                if is_absent(keys, text) {
                    assert forall|j: int| 0 <= j < front.len() implies front[j] != text by {
                        assert(front[j] == keys[j]);
                    }
                }
            }
            assert forall|k: int| is_last_match(keys, text, k) implies is_last_match(
                front,
                text,
                k,
            ) by {
                assert forall|j: int| k < j < front.len() implies front[j] != text by {
                    assert(front[j] == keys[j]);
                }
            }
        }
    }
}

/// The entries of a menu call as they lie in memory: each item beside its key.
pub open spec fn entry_keys<V>(entries: Seq<(String, V)>) -> Seq<Seq<char>> {
    Seq::new(entries.len(), |i: int| entries[i].0@)
}

/// The items of the entries, without their keys.
pub open spec fn entry_items<V>(entries: Seq<(String, V)>) -> Seq<V> {
    Seq::new(entries.len(), |i: int| entries[i].1)
}

/// Finds the entry that `chosen` stands for: the last one whose key is
/// `chosen`, letter for letter.
pub fn find_entry<V>(entries: &Vec<(String, V)>, chosen: &String) -> (found: Option<usize>)
    ensures
        match found {
            Some(index) => is_last_match(entry_keys(entries@), chosen@, index as int),
            None => is_absent(entry_keys(entries@), chosen@),
        },
{
    let mut index: usize = entries.len();
    while index > 0
        invariant
            index <= entries.len(),
            forall|j: int| index <= j < entries.len() ==> entry_keys(entries@)[j] != chosen@,
        decreases index,
    {
        index -= 1;
        if entries[index].0 == *chosen {
            return Some(index);
        }
    }
    None
}

/// What running the shell gave, with the bytes as a plain sequence.
pub open spec fn output_bytes<E>(output: Result<Vec<u8>, E>) -> Result<Seq<u8>, E> {
    match output {
        Ok(bytes) => Ok(bytes@),
        Err(failure) => Err(failure),
    }
}

/// `result` is what a selection comes to, given what running the shell
/// gave: the failure to start it, or the bytes that the menu wrote.
///
/// A failure to start is handed on. Bytes that are not UTF-8 are a decode
/// error. Otherwise the text is looked up in the mapping as it is: a hit gives
/// the item, a miss is `ItemNotFoundError`.
pub open spec fn selection_result<V, E>(
    keys: Seq<Seq<char>>,
    items: Seq<V>,
    output: Result<Seq<u8>, E>,
    result: Result<V, ExecuteError<E>>,
) -> bool {
    match output {
        Err(failure) => result == Err::<V, ExecuteError<E>>(ExecuteError::Launch(failure)),
        Ok(bytes) => if !valid_utf8(bytes) {
            result matches Err(ExecuteError::Decode(_))
        } else if item_mapping(keys, items).contains_key(decode_utf8(bytes)) {
            result == Ok::<V, ExecuteError<E>>(item_mapping(keys, items)[decode_utf8(bytes)])
        } else {
            result == Err::<V, ExecuteError<E>>(ExecuteError::NotFound(ItemNotFoundError))
        },
    }
}

/// No two of the keys are the same text.
pub open spec fn pairwise_distinct(keys: Seq<Seq<char>>) -> bool {
    forall|i: int, j: int| 0 <= i < j < keys.len() ==> keys[i] != keys[j]
}

/// Round trip: where no two items have the same key and the menu answers
/// with the key of the item at `k`, the selection gives that item.
pub proof fn lemma_unique_key_selects_its_item<V, E>(
    keys: Seq<Seq<char>>,
    items: Seq<V>,
    k: int,
    result: Result<V, ExecuteError<E>>,
)
    requires
        keys.len() == items.len(),
        pairwise_distinct(keys),
        0 <= k < keys.len(),
        selection_result(keys, items, Ok(encode_utf8(keys[k])), result),
    ensures
        result == Ok::<V, ExecuteError<E>>(items[k]),
{
    vstd::utf8::encode_utf8_valid_utf8(keys[k]);
    vstd::utf8::encode_utf8_decode_utf8(keys[k]);
    assert(is_last_match(keys, keys[k], k));
    lemma_mapping_by_position(keys, items, keys[k]);
}

/// Collision: of two items with the same key, given in the order `[a, b]`,
/// the answer with that key selects `b`.
pub proof fn lemma_later_twin_wins<V, E>(
    key: Seq<char>,
    a: V,
    b: V,
    result: Result<V, ExecuteError<E>>,
)
    requires
        selection_result(seq![key, key], seq![a, b], Ok(encode_utf8(key)), result),
    ensures
        result == Ok::<V, ExecuteError<E>>(b),
{
    vstd::utf8::encode_utf8_valid_utf8(key);
    vstd::utf8::encode_utf8_decode_utf8(key);
    assert(is_last_match(seq![key, key], key, 1));
    lemma_mapping_by_position(seq![key, key], seq![a, b], key);
}

/// Miss: an answer that is text but the key of no item is
/// `ItemNotFoundError`.
pub proof fn lemma_unknown_text_is_not_found<V, E>(
    keys: Seq<Seq<char>>,
    items: Seq<V>,
    bytes: Seq<u8>,
    result: Result<V, ExecuteError<E>>,
)
    requires
        keys.len() == items.len(),
        valid_utf8(bytes),
        is_absent(keys, decode_utf8(bytes)),
        selection_result(keys, items, Ok(bytes), result),
    ensures
        result == Err::<V, ExecuteError<E>>(ExecuteError::NotFound(ItemNotFoundError)),
{
    lemma_mapping_by_position(keys, items, decode_utf8(bytes));
}

/// Empty list: with no items, every answer that is text is
/// `ItemNotFoundError`, the empty answer included.
pub proof fn lemma_empty_list_is_never_found<V, E>(
    bytes: Seq<u8>,
    result: Result<V, ExecuteError<E>>,
)
    requires
        valid_utf8(bytes),
        selection_result(Seq::<Seq<char>>::empty(), Seq::<V>::empty(), Ok(bytes), result),
    ensures
        result == Err::<V, ExecuteError<E>>(ExecuteError::NotFound(ItemNotFoundError)),
{
}

/// A menu call that has been prepared and waits for the menu's answer.
///
/// `command` is the line to hand to `sh -c`. `entries` holds each item beside
/// its key, the text that stands for it in the menu, in the order in which the
/// items were given.
#[derive(Debug)]
pub struct Selection<V> {
    pub command: String,
    pub entries: Vec<(String, V)>,
}

impl<V> Selection<V> {
    /// The keys of the items, in order.
    pub open spec fn keys(&self) -> Seq<Seq<char>> {
        entry_keys(self.entries@)
    }

    /// The items, in order.
    pub open spec fn items(&self) -> Seq<V> {
        entry_items(self.entries@)
    }

    /// The mapping from key to item.
    pub open spec fn mapping(&self) -> Map<Seq<char>, V> {
        item_mapping(self.keys(), self.items())
    }

    /// Resolves the call. `output` is what running `command` gave: the bytes
    /// on the menu's standard output, or the reason why the shell did not
    /// start.
    ///
    /// The bytes are read as UTF-8 and looked up among the keys as they are,
    /// the newline at their end included.
    pub fn resolve<E>(self, output: Result<Vec<u8>, E>) -> (result: Result<V, ExecuteError<E>>)
        ensures
            selection_result(self.keys(), self.items(), output_bytes(output), result),
    {
        let bytes = match output {
            Ok(bytes) => bytes,
            Err(failure) => {
                return Err(ExecuteError::Launch(failure));
            },
        };
        let chosen = match String::from_utf8(bytes) {
            Ok(text) => text,
            Err(failure) => {
                return Err(ExecuteError::Decode(failure));
            },
        };
        proof {
            vstd::utf8::encode_utf8_decode_utf8(chosen@);
            lemma_mapping_by_position(self.keys(), self.items(), chosen@);
        }
        let mut entries = self.entries;
        match find_entry(&entries, &chosen) {
            Some(index) => {
                let entry = entries.swap_remove(index);
                Ok(entry.1)
            },
            None => Err(ExecuteError::NotFound(ItemNotFoundError)),
        }
    }
}

} // verus!
