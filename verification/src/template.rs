//! The entry points of the library: the names under which a source file may
//! ask for generated code, and the language of the instructions each stands
//! for. All names of one language behave alike.

use crate::{english_message, english_message_text, japanese_message, japanese_message_text};
use vstd::prelude::*;
use vstd::string::StringExecFns;

verus! {

/// The language of the instructions sent to the generation service.
#[derive(Clone, Copy, Debug, PartialEq, Eq, Structural)]
pub enum Language {
    English,
    Japanese,
}

/// One entry point: its name and the language it stands for.
#[derive(Clone, Debug, PartialEq, Eq)]
pub struct EntryPoint {
    pub name: String,
    pub language: Language,
}

/// What an `EntryPoint` is in contracts.
pub struct EntryPointView {
    pub name: Seq<char>,
    pub language: Language,
}

impl View for EntryPoint {
    type V = EntryPointView;

    open spec fn view(&self) -> EntryPointView {
        EntryPointView { name: self.name@, language: self.language }
    }
}

/// The names that stand for the English instructions; the first is the
/// primary one.
pub open spec fn english_names() -> Seq<Seq<char>> {
    seq![
        "take_care_of_the_rest"@,
        "do_it"@,
        "go_ahead"@,
        "try_it"@,
        "just_do_it"@,
        "give_it_a_go"@,
        "help_me"@,
        "lend_a_hand"@,
        "back_me_up"@,
        "save_me"@,
        "magic"@,
        "abracadabra"@,
        "wave_your_wand"@,
        "perform_miracle"@,
        "finish_it"@,
        "wrap_it_up"@,
        "get_it_done"@,
        "make_it_happen"@,
        "deliver_it"@,
    ]
}

/// The names that stand for the Japanese instructions; the first is the
/// primary one.
pub open spec fn japanese_names() -> Seq<Seq<char>> {
    seq![
        "あとは任せた"@,
        "やって"@,
        "これやって"@,
        "進めて"@,
        "頼む"@,
        "手を貸して"@,
        "助けて"@,
        "手伝って"@,
        "魔法を見せて"@,
        "奇跡を起こして"@,
        "何とかして"@,
        "仕上げて"@,
        "完成させて"@,
        "終わらせて"@,
        "最後まで頼む"@,
        "実現して"@,
        "作って"@,
        "やり遂げて"@,
    ]
}

/// The language that the entry point called `name` stands for, if there is
/// such an entry point.
pub open spec fn language_named(name: Seq<char>) -> Option<Language> {
    if english_names().contains(name) {
        Some(Language::English)
    } else if japanese_names().contains(name) {
        Some(Language::Japanese)
    } else {
        None
    }
}

/// The system message of an entry point: the instructions in its language,
/// with its name filled in.
pub open spec fn system_message_text(entry: EntryPointView) -> Seq<char> {
    match entry.language {
        Language::English => english_message_text(entry.name),
        Language::Japanese => japanese_message_text(entry.name),
    }
}

/// The characters of each name in a table.
pub open spec fn names_in(table: Seq<&'static str>) -> Seq<Seq<char>> {
    Seq::new(table.len(), |i: int| table[i]@)
}

/// The table of English names.
pub fn english_entry_points() -> (table: Vec<&'static str>)
    ensures
        names_in(table@) == english_names(),
{
    let table = vec![
        "take_care_of_the_rest",
        "do_it",
        "go_ahead",
        "try_it",
        "just_do_it",
        "give_it_a_go",
        "help_me",
        "lend_a_hand",
        "back_me_up",
        "save_me",
        "magic",
        "abracadabra",
        "wave_your_wand",
        "perform_miracle",
        "finish_it",
        "wrap_it_up",
        "get_it_done",
        "make_it_happen",
        "deliver_it",
    ];
    assert(names_in(table@) =~= english_names());
    table
}

/// The table of Japanese names.
pub fn japanese_entry_points() -> (table: Vec<&'static str>)
    ensures
        names_in(table@) == japanese_names(),
{
    let table = vec![
        "あとは任せた",
        "やって",
        "これやって",
        "進めて",
        "頼む",
        "手を貸して",
        "助けて",
        "手伝って",
        "魔法を見せて",
        "奇跡を起こして",
        "何とかして",
        "仕上げて",
        "完成させて",
        "終わらせて",
        "最後まで頼む",
        "実現して",
        "作って",
        "やり遂げて",
    ];
    assert(names_in(table@) =~= japanese_names());
    table
}

/// Whether `table` holds `name`.
fn holds_name(table: &Vec<&'static str>, name: &str) -> (found: bool)
    ensures
        found == names_in(table@).contains(name@),
{
    let wanted = String::from_str(name);
    let mut index: usize = 0;
    while index < table.len()
        invariant
            index <= table.len(),
            wanted@ == name@,
            forall|i: int| 0 <= i < index ==> names_in(table@)[i] != name@,
        decreases table.len() - index,
    {
        let candidate = String::from_str(table[index]);
        if candidate == wanted {
            assert(names_in(table@)[index as int] == name@);
            return true;
        }
        index = index + 1;
    }
    false
}

/// The entry point called `name`, or `None` where no entry point has that
/// name.
pub fn entry_point(name: &str) -> (entry: Option<EntryPoint>)
    ensures
        match entry {
            Some(entry) => language_named(name@) == Some(entry.language) && entry.name@ == name@,
            None => language_named(name@) is None,
        },
{
    if holds_name(&english_entry_points(), name) {
        Some(EntryPoint { name: String::from_str(name), language: Language::English })
    } else if holds_name(&japanese_entry_points(), name) {
        Some(EntryPoint { name: String::from_str(name), language: Language::Japanese })
    } else {
        None
    }
}

/// Builds the system message of an entry point.
pub fn system_message(entry: &EntryPoint) -> (message: String)
    ensures
        message@ == system_message_text(entry@),
{
    match entry.language {
        Language::English => english_message(entry.name.as_str()),
        Language::Japanese => japanese_message(entry.name.as_str()),
    }
}

} // verus!
