use dmenu_facade::{DMenu, ExecuteError, TextPrompt};

fn answer(text: &str) -> Result<Vec<u8>, String> {
    Ok(text.as_bytes().to_vec())
}

#[test]
fn the_prompt_pipes_a_blank_line() {
    let call = DMenu::default().with_prompt("Name:").execute_as_input();
    assert_eq!(call.command, "echo -e '\n' | dmenu -p 'Name:'");
    assert_eq!(DMenu::default().execute_as_input().command, "echo -e '\n' | dmenu");
}

#[test]
fn the_trailing_newline_is_taken_off() {
    let call = DMenu::default().execute_as_input();
    assert_eq!(call.resolve(answer("answer\n")), Ok("answer".to_string()));
}

#[test]
fn only_one_newline_is_taken_off() {
    let call = DMenu::default().execute_as_input();
    assert_eq!(call.resolve(answer("answer\n\n")), Ok("answer\n".to_string()));
    let call = DMenu::default().execute_as_input();
    assert_eq!(call.resolve(answer("two\nlines\n")), Ok("two\nlines".to_string()));
}

#[test]
fn nothing_typed_gives_the_empty_text() {
    let call = DMenu::default().execute_as_input();
    assert_eq!(call.resolve(answer("")), Ok(String::new()));
    let call = DMenu::default().execute_as_input();
    assert_eq!(call.resolve(answer("\n")), Ok(String::new()));
}

#[test]
fn a_text_without_a_newline_comes_back_whole() {
    let call = DMenu::default().execute_as_input();
    assert_eq!(call.resolve(answer("answer")), Ok("answer".to_string()));
    let call = DMenu::default().execute_as_input();
    assert_eq!(call.resolve(answer("caf\u{e9}")), Ok("caf\u{e9}".to_string()));
    let call = DMenu::default().execute_as_input();
    assert_eq!(call.resolve(answer("a\nb")), Ok("a\nb".to_string()));
    let call = DMenu::default().execute_as_input();
    assert_eq!(call.resolve(answer("x")), Ok("x".to_string()));
}

#[test]
fn free_text_beyond_ascii() {
    let call = DMenu::default().execute_as_input();
    assert_eq!(call.resolve(answer("Grüße ☃\n")), Ok("Grüße ☃".to_string()));
}

#[test]
fn free_text_is_never_looked_up() {
    let call = TextPrompt { command: String::new() };
    assert_eq!(call.resolve(answer("anything at all\n")), Ok("anything at all".to_string()));
}

#[test]
fn free_text_that_is_not_utf8_is_a_decode_error() {
    let bytes = vec![b'o', b'k', 0xff, b'\n'];
    let expected = String::from_utf8(bytes.clone()).unwrap_err();
    let output: Result<Vec<u8>, String> = Ok(bytes);
    assert_eq!(
        DMenu::default().execute_as_input().resolve(output),
        Err(ExecuteError::Decode(expected))
    );
}

#[test]
fn free_text_without_a_shell_is_a_launch_error() {
    let output: Result<Vec<u8>, u32> = Err(2);
    assert_eq!(DMenu::default().execute_as_input().resolve(output), Err(ExecuteError::Launch(2)));
}
