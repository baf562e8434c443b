//! The command lines that dvup runs itself with.

use crate::search::{lemma_texts_push, texts};
use vstd::prelude::*;
use vstd::string::*;

verus! {

/// The words that start the update of `name`.
pub open spec fn update_words(
    name: Seq<char>,
    config_path: Option<Seq<char>>,
    terminate: bool,
    target_version: Option<Seq<char>>,
) -> Seq<Seq<char>> {
    let head = seq!["update"@, "--background"@, "auto"@];
    let policy = if terminate {
        seq!["--terminate-locking-processes"@]
    } else {
        Seq::empty()
    };
    let config = match config_path {
        Some(path) => seq!["--config"@, path],
        None => Seq::empty(),
    };
    let version = match target_version {
        Some(target) => seq!["--to"@, target],
        None => Seq::empty(),
    };
    head + policy + config + version + seq![name]
}

/// The words that save the command of `name`.
pub open spec fn add_words(
    name: Seq<char>,
    command: Seq<Seq<char>>,
    force: bool,
) -> Seq<Seq<char>> {
    let head = if force {
        seq!["add"@, "--force"@, name]
    } else {
        seq!["add"@, name]
    };
    head + command
}

/// The words that change the command of `original` into that of `name`.
pub open spec fn edit_words(
    original: Seq<char>,
    name: Seq<char>,
    command: Seq<Seq<char>>,
) -> Seq<Seq<char>> {
    seq!["edit"@, original, name] + command
}

/// Adds a word.
fn add_word(words: &mut Vec<String>, word: &str)
    ensures
        texts(final(words)@) == texts(old(words)@).push(word@),
{
    let text = word.to_owned();
    proof {
        lemma_texts_push(words@, text);
    }
    words.push(text);
}

/// Adds the words of a command.
fn add_command(words: &mut Vec<String>, command: Vec<String>)
    ensures
        texts(final(words)@) == texts(old(words)@) + texts(command@),
{
    let ghost before = words@;
    let ghost added = command@;
    let mut rest = command;
    words.append(&mut rest);
    assert(texts(words@) =~= texts(before) + texts(added));
}

pub fn update_arguments(
    name: &str,
    config_path: Option<&str>,
    terminate_locking_processes: bool,
    target_version: Option<&str>,
) -> (r: Vec<String>)
    ensures
        texts(r@) == update_words(
            name@,
            match config_path {
                Some(path) => Some(path@),
                None => None,
            },
            terminate_locking_processes,
            match target_version {
                Some(version) => Some(version@),
                None => None,
            },
        ),
{
    let mut words: Vec<String> = Vec::new();
    assert(texts(words@) =~= Seq::<Seq<char>>::empty());
    add_word(&mut words, "update");
    add_word(&mut words, "--background");
    add_word(&mut words, "auto");
    if terminate_locking_processes {
        add_word(&mut words, "--terminate-locking-processes");
    }
    if let Some(path) = config_path {
        add_word(&mut words, "--config");
        add_word(&mut words, path);
    }
    if let Some(version) = target_version {
        add_word(&mut words, "--to");
        add_word(&mut words, version);
    }
    add_word(&mut words, name);
    assert(texts(words@) =~= update_words(
        name@,
        match config_path {
            Some(path) => Some(path@),
            None => None,
        },
        terminate_locking_processes,
        match target_version {
            Some(version) => Some(version@),
            None => None,
        },
    ));
    words
}

pub fn add_arguments(name: &str, command: Vec<String>, force: bool) -> (r: Vec<String>)
    ensures
        texts(r@) == add_words(name@, texts(command@), force),
{
    let ghost added = texts(command@);
    let mut words: Vec<String> = Vec::new();
    assert(texts(words@) =~= Seq::<Seq<char>>::empty());
    add_word(&mut words, "add");
    if force {
        add_word(&mut words, "--force");
    }
    add_word(&mut words, name);
    add_command(&mut words, command);
    assert(texts(words@) =~= add_words(name@, added, force));
    words
}

pub fn edit_arguments(original_name: &str, name: &str, command: Vec<String>) -> (r: Vec<String>)
    ensures
        texts(r@) == edit_words(original_name@, name@, texts(command@)),
{
    let ghost added = texts(command@);
    let mut words: Vec<String> = Vec::new();
    assert(texts(words@) =~= Seq::<Seq<char>>::empty());
    add_word(&mut words, "edit");
    add_word(&mut words, original_name);
    add_word(&mut words, name);
    add_command(&mut words, command);
    assert(texts(words@) =~= edit_words(original_name@, name@, added));
    words
}

/// The words that remove the command of `name`.
pub open spec fn remove_words(name: Seq<char>) -> Seq<Seq<char>> {
    seq!["remove"@, name]
}

pub fn remove_arguments(name: &str) -> (r: Vec<String>)
    ensures
        texts(r@) == remove_words(name@),
{
    let mut words: Vec<String> = Vec::new();
    assert(texts(words@) =~= Seq::<Seq<char>>::empty());
    add_word(&mut words, "remove");
    add_word(&mut words, name);
    assert(texts(words@) =~= remove_words(name@));
    words
}

/// The words that uninstall `name`.
pub open spec fn uninstall_words(
    name: Seq<char>,
    config_path: Option<Seq<char>>,
    terminate: bool,
) -> Seq<Seq<char>> {
    let head = seq!["uninstall"@, "--background"@, "auto"@];
    let policy = if terminate {
        seq!["--terminate-locking-processes"@]
    } else {
        Seq::empty()
    };
    let config = match config_path {
        Some(path) => seq!["--config"@, path],
        None => Seq::empty(),
    };
    head + policy + config + seq![name]
}

pub fn uninstall_arguments(
    name: &str,
    config_path: Option<&str>,
    terminate_locking_processes: bool,
) -> (r: Vec<String>)
    ensures
        texts(r@) == uninstall_words(
            name@,
            match config_path {
                Some(path) => Some(path@),
                None => None,
            },
            terminate_locking_processes,
        ),
{
    let mut words: Vec<String> = Vec::new();
    assert(texts(words@) =~= Seq::<Seq<char>>::empty());
    add_word(&mut words, "uninstall");
    add_word(&mut words, "--background");
    add_word(&mut words, "auto");
    if terminate_locking_processes {
        add_word(&mut words, "--terminate-locking-processes");
    }
    if let Some(path) = config_path {
        add_word(&mut words, "--config");
        add_word(&mut words, path);
    }
    add_word(&mut words, name);
    assert(texts(words@) =~= uninstall_words(
        name@,
        match config_path {
            Some(path) => Some(path@),
            None => None,
        },
        terminate_locking_processes,
    ));
    words
}

/// Adding or changing a command never runs an update.
pub proof fn law_saving_a_command_does_not_run_it(
    original: Seq<char>,
    name: Seq<char>,
    command: Seq<Seq<char>>,
    force: bool,
)
    ensures
        add_words(name, command, force)[0] == "add"@,
        edit_words(original, name, command)[0] == "edit"@,
        "add"@ != "update"@,
        "edit"@ != "update"@,
        remove_words(name)[0] == "remove"@,
{
    reveal_strlit("add");
    reveal_strlit("edit");
    reveal_strlit("update");
    assert("add"@.len() != "update"@.len());
    assert("edit"@.len() != "update"@.len());
}

/// Names one behind the other with `separator` between them.
pub open spec fn joined(names: Seq<Seq<char>>, separator: Seq<char>) -> Seq<char>
    decreases names.len(),
{
    if names.len() == 0 {
        Seq::empty()
    } else if names.len() == 1 {
        names[0]
    } else {
        joined(names.drop_last(), separator) + separator + names.last()
    }
}

/// Names one behind the other with `separator` between them.
pub fn join_names(names: &Vec<String>, separator: &str) -> (r: String)
    ensures
        r@ == joined(texts(names@), separator@),
{
    let ghost all = texts(names@);
    if names.len() == 0 {
        let r = String::new();
        assert(r@ =~= Seq::<char>::empty());
        return r;
    }
    let mut text = names[0].clone();
    let mut i: usize = 1;
    assert(all[0] == names@[0]@);
    assert(all.take(1)[0] == all[0]);
    while i < names.len()
        invariant
            1 <= i <= names@.len(),
            all == texts(names@),
            text@ == joined(all.take(i as int), separator@),
        decreases names@.len() - i,
    {
        assert(all.take(i + 1).drop_last() =~= all.take(i as int));
        assert(all[i as int] == names@[i as int]@);
        text.append(separator);
        text.append(names[i].as_str());
        i += 1;
    }
    assert(all.take(i as int) =~= all);
    text
}

} // verus!
