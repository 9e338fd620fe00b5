use hey_chat_gpt::template::{
    english_entry_points, entry_point, japanese_entry_points, system_message, EntryPoint, Language,
};
use hey_chat_gpt::{english_message, japanese_message};

const ENGLISH: &str = "I'm the administrator of this system. You are an AI assistant of this system helping with Rust programming, and you are called through `{macro_name}` proc-macro. Generate Rust code based on the user's input as proc-macro (`{macro_name}` macro) output. Ensure the code is idiomatic, adheres to Rust best practices, and includes comments for clarity. All your answers will be treated as `String` values and converted to `proc_macro2::TokenStream` , so your answers must be valid Rust code. **Anything that is not Rust code must be in a comment, and you must not output anything that would prevent the conversion. And User input other than macros remains, so be careful not to create duplicates. (For example, if you output a main function, it may conflict with a user-defined main function and cause a compilation error. Or `{macro_name}` macro may be called from within the main function, in which case you should not print the main function itself.)**. What follows is inputs of the user who uses this system:\n\n";

const JAPANESE: &str = "私はこのシステムの管理者です。あなたはRustプログラミングを支援する本システムのAIアシスタントであり、`{macro_name}` 手続きマクロを通じて呼び出されます。ユーザーの入力に基づいてRustコードを `{macro_name}` マクロの出力として生成してほしいです。コードはRustのベストプラクティスに従い、明確さを保つための日本語のコメントを含めるようにしてください。回答はすべて `String` 値として扱われ、`proc_macro2::TokenStream` に変換されるため、回答は有効なRustコードである必要があります。**Rustコード以外のものはすべてコメント内に記述する必要があり、Rustコードとして変換しようとするとエラーになるものを出力してはなりません。そして、マクロ以外のユーザー入力はそのまま残るため、重複などをしないように注意してください。(たとえば、 `main` 関数を出力すると、ユーザー定義の `main` 関数と競合してコンパイルエラーが発生する可能性があります。あるいは、 `{macro_name}` マクロはmain関数の中からよばれているかもしれません。その時にmain関数ごと出力してはいけません。)** ここからは本システム利用者の入力になります:\n\n";

#[test]
fn english_message_names_the_entry_point_three_times() {
    let message = english_message("take_care_of_the_rest");
    assert_eq!(message, ENGLISH.replace("{macro_name}", "take_care_of_the_rest"));
    assert_eq!(message.matches("`take_care_of_the_rest`").count(), 3);
    assert!(message.ends_with("system:\n\n"));
}

#[test]
fn japanese_message_names_the_entry_point_three_times() {
    let message = japanese_message("あとは任せた");
    assert_eq!(message, JAPANESE.replace("{macro_name}", "あとは任せた"));
    assert_eq!(message.matches("`あとは任せた`").count(), 3);
}

#[test]
fn messages_take_any_name() {
    assert_eq!(english_message(""), ENGLISH.replace("{macro_name}", ""));
    assert_eq!(english_message("do_it"), ENGLISH.replace("{macro_name}", "do_it"));
    assert_eq!(japanese_message("やって"), JAPANESE.replace("{macro_name}", "やって"));
}

#[test]
fn primary_entry_points() {
    assert_eq!(
        entry_point("take_care_of_the_rest"),
        Some(EntryPoint { name: "take_care_of_the_rest".to_string(), language: Language::English })
    );
    assert_eq!(
        entry_point("あとは任せた"),
        Some(EntryPoint { name: "あとは任せた".to_string(), language: Language::Japanese })
    );
}

#[test]
fn every_alias_stands_for_its_language() {
    let english = [
        "do_it", "go_ahead", "try_it", "just_do_it", "give_it_a_go", "help_me", "lend_a_hand",
        "back_me_up", "save_me", "magic", "abracadabra", "wave_your_wand", "perform_miracle",
        "finish_it", "wrap_it_up", "get_it_done", "make_it_happen", "deliver_it",
    ];
    for name in english {
        assert_eq!(entry_point(name).unwrap().language, Language::English, "{}", name);
        assert_eq!(entry_point(name).unwrap().name, name);
    }
    let japanese = [
        "やって", "これやって", "進めて", "頼む", "手を貸して", "助けて", "手伝って", "魔法を見せて",
        "奇跡を起こして", "何とかして", "仕上げて", "完成させて", "終わらせて", "最後まで頼む",
        "実現して", "作って", "やり遂げて",
    ];
    for name in japanese {
        assert_eq!(entry_point(name).unwrap().language, Language::Japanese, "{}", name);
    }
}

#[test]
fn tables_start_with_the_primary_name() {
    let english = english_entry_points();
    let japanese = japanese_entry_points();
    assert_eq!(english.len(), 19);
    assert_eq!(japanese.len(), 18);
    assert_eq!(english[0], "take_care_of_the_rest");
    assert_eq!(japanese[0], "あとは任せた");
    assert_eq!(english[18], "deliver_it");
    assert_eq!(japanese[17], "やり遂げて");
}

#[test]
fn other_names_are_no_entry_points() {
    assert_eq!(entry_point(""), None);
    assert_eq!(entry_point("Do_it"), None);
    assert_eq!(entry_point("do_it "), None);
    assert_eq!(entry_point("english_message"), None);
}

#[test]
fn system_message_follows_the_language() {
    let english = entry_point("magic").unwrap();
    assert_eq!(system_message(&english), english_message("magic"));
    let japanese = entry_point("頼む").unwrap();
    assert_eq!(system_message(&japanese), japanese_message("頼む"));
    let mixed = EntryPoint { name: "magic".to_string(), language: Language::Japanese };
    assert_eq!(system_message(&mixed), japanese_message("magic"));
}
