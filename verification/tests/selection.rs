use dmenu_facade::selection::find_entry;
use dmenu_facade::{DMenu, ExecuteError, ItemNotFoundError, Selection};
use std::fmt::{Display, Formatter};

#[derive(Debug, PartialEq)]
struct Complex {
    id: i32,
    name: String,
    active: bool,
}

impl Display for Complex {
    fn fmt(&self, f: &mut Formatter<'_>) -> std::fmt::Result {
        f.write_str(&self.name)
    }
}

fn complex(id: i32, name: &str) -> Complex {
    Complex { id, name: name.to_string(), active: id % 2 == 0 }
}

fn answer(text: &str) -> Result<Vec<u8>, String> {
    Ok(text.as_bytes().to_vec())
}

fn not_found<V>() -> Result<V, ExecuteError<String>> {
    Err(ExecuteError::NotFound(ItemNotFoundError))
}

#[test]
fn items_are_piped_one_per_line() {
    let items = vec!["Hello", "World", "!"];
    let call = DMenu::default().vertical_with_lines(2).execute(&items);
    assert_eq!(call.command, "echo -e 'Hello\nWorld\n!\n' | dmenu -l 2");
    assert_eq!(
        call.entries,
        vec![
            ("Hello\n".to_string(), &"Hello"),
            ("World\n".to_string(), &"World"),
            ("!\n".to_string(), &"!"),
        ]
    );
}

#[test]
fn an_empty_list_pipes_nothing() {
    let items: Vec<String> = Vec::new();
    let call = DMenu::default().execute(&items);
    assert_eq!(call.command, "echo -e '' | dmenu");
    assert!(call.entries.is_empty());
}

#[test]
fn item_text_is_not_escaped() {
    let items = vec!["it's", "a $HOME | b"];
    let call = DMenu::default().execute(&items);
    assert_eq!(call.command, "echo -e 'it's\na $HOME | b\n' | dmenu");
}

#[test]
fn the_chosen_item_comes_back_by_reference() {
    let items = vec!["Hello", "There", "Hope you", "Like my", "Docs :)"];
    for k in 0..items.len() {
        let call = DMenu::default().case_insensitive().execute(&items);
        let chosen = call.resolve(answer(&format!("{}\n", items[k]))).unwrap();
        assert!(std::ptr::eq(chosen, &items[k]));
    }
}

#[test]
fn items_of_any_displayable_type() {
    let items = vec![complex(1, "Complex thingy"), complex(2, "Somewhat Complex")];
    let call = DMenu::default().vertical_with_lines(5).with_font("FiraCodeNerdFont:size=13").execute(&items);
    assert_eq!(
        call.command,
        "echo -e 'Complex thingy\nSomewhat Complex\n' | dmenu -l 5 -fn 'FiraCodeNerdFont:size=13'"
    );
    assert_eq!(call.resolve(answer("Somewhat Complex\n")), Ok(&items[1]));
}

#[test]
fn numbers_as_items() {
    let items = vec![10, -3, 0];
    let call = DMenu::default().execute(&items);
    assert_eq!(call.command, "echo -e '10\n-3\n0\n' | dmenu");
    assert_eq!(call.resolve(answer("-3\n")), Ok(&-3));
}

#[test]
fn of_two_items_with_the_same_text_the_later_wins() {
    let items = vec![complex(1, "Twin"), complex(2, "Twin")];
    let call = DMenu::default().execute(&items);
    assert_eq!(call.command, "echo -e 'Twin\nTwin\n' | dmenu");
    let chosen = call.resolve(answer("Twin\n")).unwrap();
    assert_eq!(chosen.id, 2);
    assert!(std::ptr::eq(chosen, &items[1]));
}

#[test]
fn the_last_of_several_twins_wins() {
    let items = vec![complex(1, "a"), complex(2, "b"), complex(3, "a"), complex(4, "c"), complex(5, "a"), complex(6, "b")];
    assert_eq!(DMenu::default().execute(&items).resolve(answer("a\n")).unwrap().id, 5);
    assert_eq!(DMenu::default().execute(&items).resolve(answer("b\n")).unwrap().id, 6);
    assert_eq!(DMenu::default().execute(&items).resolve(answer("c\n")).unwrap().id, 4);
}

#[test]
fn a_text_that_no_item_has_is_not_found() {
    let items = vec!["Hello", "World"];
    assert_eq!(DMenu::default().execute(&items).resolve(answer("Mars\n")), not_found());
}

#[test]
fn the_answer_is_matched_with_its_newline() {
    let items = vec!["Hello", "World"];
    assert_eq!(DMenu::default().execute(&items).resolve(answer("World")), not_found());
    assert_eq!(DMenu::default().execute(&items).resolve(answer("World\n\n")), not_found());
    assert_eq!(DMenu::default().execute(&items).resolve(answer(" World\n")), not_found());
    assert_eq!(DMenu::default().execute(&items).resolve(answer("world\n")), not_found());
    assert_eq!(DMenu::default().execute(&items).resolve(answer("Hello\nWorld\n")), not_found());
}

#[test]
fn a_cancelled_menu_is_not_found() {
    let items = vec!["Hello", "World"];
    assert_eq!(DMenu::default().execute(&items).resolve(answer("")), not_found());
}

#[test]
fn an_empty_list_never_matches() {
    let items: Vec<&str> = Vec::new();
    assert_eq!(DMenu::default().execute(&items).resolve(answer("")), not_found());
    assert_eq!(DMenu::default().execute(&items).resolve(answer("\n")), not_found());
    assert_eq!(DMenu::default().execute(&items).resolve(answer("Hello\n")), not_found());
    let owned: Vec<String> = Vec::new();
    assert_eq!(DMenu::default().execute_consume(owned).resolve(answer("Hello\n")), not_found());
}

#[test]
fn an_empty_list_still_fails_on_broken_bytes_first() {
    let items: Vec<&str> = Vec::new();
    let output: Result<Vec<u8>, String> = Ok(vec![0xff]);
    let result = DMenu::default().execute(&items).resolve(output);
    assert!(matches!(result, Err(ExecuteError::Decode(_))));
}

#[test]
fn an_item_with_empty_text_is_chosen_by_a_bare_newline() {
    let items = vec!["", "x"];
    let call = DMenu::default().execute(&items);
    assert_eq!(call.command, "echo -e '\nx\n' | dmenu");
    assert!(std::ptr::eq(call.resolve(answer("\n")).unwrap(), &items[0]));
}

#[test]
fn bytes_that_are_not_utf8_are_a_decode_error() {
    let items = vec!["Hello", "World"];
    let broken: Vec<Vec<u8>> = vec![
        vec![0xff],
        vec![b'H', b'i', 0x80, b'\n'],
        vec![0xc3],
        vec![0xc0, 0xaf],
        vec![0xed, 0xa0, 0x80],
        vec![0xf4, 0x90, 0x80, 0x80],
    ];
    for bytes in broken {
        let expected = String::from_utf8(bytes.clone()).unwrap_err();
        let output: Result<Vec<u8>, String> = Ok(bytes);
        let result = DMenu::default().execute(&items).resolve(output);
        assert_eq!(result, Err(ExecuteError::Decode(expected)));
    }
}

#[test]
fn a_shell_that_did_not_start_is_a_launch_error() {
    let items = vec!["Hello", "World"];
    let output: Result<Vec<u8>, String> = Err("sh: not found".to_string());
    assert_eq!(
        DMenu::default().execute(&items).resolve(output),
        Err(ExecuteError::Launch("sh: not found".to_string()))
    );
}

#[test]
fn text_beyond_ascii_finds_its_item() {
    let items = vec!["Grüße", "日本語", "☃ snow"];
    let call = DMenu::default().execute(&items);
    assert_eq!(call.command, "echo -e 'Grüße\n日本語\n☃ snow\n' | dmenu");
    assert!(std::ptr::eq(call.resolve(answer("日本語\n")).unwrap(), &items[1]));
}

#[test]
fn the_chosen_item_comes_back_by_value() {
    let items = vec![complex(1, "Complex thingy"), complex(2, "Somewhat Complex"), complex(3, "Third")];
    let call = DMenu::default().display_bottom().execute_consume(items);
    assert_eq!(call.command, "echo -e 'Complex thingy\nSomewhat Complex\nThird\n' | dmenu -b");
    assert_eq!(call.entries.len(), 3);
    assert_eq!(call.entries[0], ("Complex thingy\n".to_string(), complex(1, "Complex thingy")));
    assert_eq!(call.resolve(answer("Complex thingy\n")), Ok(complex(1, "Complex thingy")));
}

#[test]
fn consuming_every_position() {
    let names = ["a", "b", "c", "d"];
    for k in 0..names.len() {
        let items: Vec<String> = names.iter().map(|s| s.to_string()).collect();
        let chosen = DMenu::default().execute_consume(items).resolve(answer(&format!("{}\n", names[k])));
        assert_eq!(chosen, Ok(names[k].to_string()));
    }
}

#[test]
fn consuming_twins_gives_the_later() {
    let items = vec![complex(1, "Twin"), complex(2, "Other"), complex(3, "Twin")];
    assert_eq!(
        DMenu::default().execute_consume(items).resolve(answer("Twin\n")),
        Ok(complex(3, "Twin"))
    );
}

#[test]
fn consuming_fails_as_borrowing_does() {
    let items = vec!["Hello".to_string(), "World".to_string()];
    assert_eq!(DMenu::default().execute_consume(items.clone()).resolve(answer("Mars\n")), not_found());
    let launch: Result<Vec<u8>, String> = Err("no shell".to_string());
    assert_eq!(
        DMenu::default().execute_consume(items.clone()).resolve(launch),
        Err(ExecuteError::Launch("no shell".to_string()))
    );
    let broken: Result<Vec<u8>, String> = Ok(vec![b'W', 0xfe]);
    assert!(matches!(
        DMenu::default().execute_consume(items).resolve(broken),
        Err(ExecuteError::Decode(_))
    ));
}

#[test]
fn a_selection_written_by_hand() {
    let call = Selection {
        command: String::new(),
        entries: vec![("one\n".to_string(), 1), ("two\n".to_string(), 2), ("one\n".to_string(), 3)],
    };
    assert_eq!(call.resolve(answer("one\n")), Ok(3));
}

#[test]
fn find_entry_gives_the_last_position() {
    let entries = vec![
        ("a\n".to_string(), 'x'),
        ("b\n".to_string(), 'y'),
        ("a\n".to_string(), 'z'),
        ("c\n".to_string(), 'w'),
    ];
    assert_eq!(find_entry(&entries, &"a\n".to_string()), Some(2));
    assert_eq!(find_entry(&entries, &"b\n".to_string()), Some(1));
    assert_eq!(find_entry(&entries, &"c\n".to_string()), Some(3));
    assert_eq!(find_entry(&entries, &"a".to_string()), None);
    assert_eq!(find_entry(&entries, &"".to_string()), None);
    let none: Vec<(String, char)> = Vec::new();
    assert_eq!(find_entry(&none, &"a\n".to_string()), None);
}

#[test]
fn the_error_has_its_sentence() {
    assert_eq!(
        ItemNotFoundError.message(),
        "The returned item by DMenu is not found in the original set"
    );
}
