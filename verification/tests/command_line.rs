use dvup::command_line::{
    format_command, format_editable_command, quote_editable_argument, split_command_line,
};
use dvup::language::Language;

fn owned(words: &[&str]) -> Vec<String> {
    words.iter().map(|word| (*word).to_owned()).collect()
}

#[test]
fn splits_custom_command_with_quoted_path() {
    assert_eq!(
        split_command_line(
            r#""C:\Program Files\Codex\codex.exe" install --channel stable"#,
            Language::English,
        )
        .expect("split command"),
        [
            r#"C:\Program Files\Codex\codex.exe"#,
            "install",
            "--channel",
            "stable"
        ]
    );

    let editable = format_editable_command(
        r#"C:\Program Files\Example\example.exe"#,
        &[
            "update".to_owned(),
            "two words".to_owned(),
            "a\"b".to_owned(),
        ],
    );
    assert_eq!(
        split_command_line(&editable, Language::English).expect("editable command"),
        [
            r#"C:\Program Files\Example\example.exe"#,
            "update",
            "two words",
            "a\"b"
        ]
    );
}

#[test]
fn rejects_unclosed_quote() {
    assert!(split_command_line("codex 'install", Language::English).is_err());
    assert!(
        split_command_line("codex 'install", Language::Chinese)
            .expect_err("unclosed quote")
            .contains("未闭合")
    );
}

#[test]
fn an_editable_command_splits_into_the_words_it_was_made_of() {
    for words in [
        owned(&["a", "", "b c"]),
        owned(&["x\"y", "it's", "tab\there"]),
        owned(&["\\", "'"]),
    ] {
        let line = format_editable_command("prog ram", &words);
        let mut expected = owned(&["prog ram"]);
        expected.extend(words);
        assert_eq!(split_command_line(&line, Language::English), Ok(expected));
    }
    assert_eq!(quote_editable_argument("plain"), "plain");
    assert_eq!(format_command("npm", &owned(&["i", "-g"])), "npm i -g");
}
