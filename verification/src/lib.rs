//! Compile-time delegation of code to a text-generation service.
//!
//! A source file marks a region with a delegation directive. This library
//! holds everything that decides what happens to such a directive: it reads
//! the directive's options, derives the content-addressed cache key, builds
//! the request for the service, checks that the returned text is well-formed
//! code, and drives the lookup / generate / store / substitute sequence as a
//! state machine. File access and the network call themselves are left to the
//! caller, who performs each action the machine asks for and reports back.

use vstd::prelude::*;
use vstd::string::StringExecFns;

pub mod cache_key;
pub mod digest;
pub mod error;
pub mod invocation;
pub mod model;
pub mod pipeline;
pub mod request;
pub mod template;
pub mod token;
pub mod validate;

verus! {

/// Opening of the English instruction text, up to the first mention of the
/// entry point's name.
pub const ENGLISH_OPENING: &'static str = "I'm the administrator of this system. You are an AI assistant of this system helping with Rust programming, and you are called through `";

/// English instruction text between the first and second mention of the name.
pub const ENGLISH_TASK: &'static str = "` proc-macro. Generate Rust code based on the user's input as proc-macro (`";

/// English instruction text between the second and third mention of the name.
pub const ENGLISH_RULES: &'static str = "` macro) output. Ensure the code is idiomatic, adheres to Rust best practices, and includes comments for clarity. All your answers will be treated as `String` values and converted to `proc_macro2::TokenStream` , so your answers must be valid Rust code. **Anything that is not Rust code must be in a comment, and you must not output anything that would prevent the conversion. And User input other than macros remains, so be careful not to create duplicates. (For example, if you output a main function, it may conflict with a user-defined main function and cause a compilation error. Or `";

/// Close of the English instruction text, after the last mention of the name.
pub const ENGLISH_CLOSING: &'static str = "` macro may be called from within the main function, in which case you should not print the main function itself.)**. What follows is inputs of the user who uses this system:\n\n";

/// Opening of the Japanese instruction text, up to the first mention of the
/// entry point's name.
pub const JAPANESE_OPENING: &'static str = "私はこのシステムの管理者です。あなたはRustプログラミングを支援する本システムのAIアシスタントであり、`";

/// Japanese instruction text between the first and second mention of the name.
pub const JAPANESE_TASK: &'static str = "` 手続きマクロを通じて呼び出されます。ユーザーの入力に基づいてRustコードを `";

/// Japanese instruction text between the second and third mention of the name.
pub const JAPANESE_RULES: &'static str = "` マクロの出力として生成してほしいです。コードはRustのベストプラクティスに従い、明確さを保つための日本語のコメントを含めるようにしてください。回答はすべて `String` 値として扱われ、`proc_macro2::TokenStream` に変換されるため、回答は有効なRustコードである必要があります。**Rustコード以外のものはすべてコメント内に記述する必要があり、Rustコードとして変換しようとするとエラーになるものを出力してはなりません。そして、マクロ以外のユーザー入力はそのまま残るため、重複などをしないように注意してください。(たとえば、 `main` 関数を出力すると、ユーザー定義の `main` 関数と競合してコンパイルエラーが発生する可能性があります。あるいは、 `";

/// Close of the Japanese instruction text, after the last mention of the name.
pub const JAPANESE_CLOSING: &'static str = "` マクロはmain関数の中からよばれているかもしれません。その時にmain関数ごと出力してはいけません。)** ここからは本システム利用者の入力になります:\n\n";

/// The English system message for the entry point called `macro_name`: the
/// fixed instruction text with the name filled in at its three places.
pub open spec fn english_message_text(macro_name: Seq<char>) -> Seq<char> {
    ENGLISH_OPENING@ + macro_name + ENGLISH_TASK@ + macro_name + ENGLISH_RULES@ + macro_name
        + ENGLISH_CLOSING@
}

/// The Japanese system message for the entry point called `macro_name`.
pub open spec fn japanese_message_text(macro_name: Seq<char>) -> Seq<char> {
    JAPANESE_OPENING@ + macro_name + JAPANESE_TASK@ + macro_name + JAPANESE_RULES@ + macro_name
        + JAPANESE_CLOSING@
}

/// Builds the English system message for the entry point `macro_name`.
pub fn english_message(macro_name: &str) -> (message: String)
    ensures
        message@ == english_message_text(macro_name@),
{
    let mut message = String::from_str(ENGLISH_OPENING);
    message.append(macro_name);
    message.append(ENGLISH_TASK);
    message.append(macro_name);
    message.append(ENGLISH_RULES);
    message.append(macro_name);
    message.append(ENGLISH_CLOSING);
    message
}

/// Builds the Japanese system message for the entry point `macro_name`.
pub fn japanese_message(macro_name: &str) -> (message: String)
    ensures
        message@ == japanese_message_text(macro_name@),
{
    let mut message = String::from_str(JAPANESE_OPENING);
    message.append(macro_name);
    message.append(JAPANESE_TASK);
    message.append(macro_name);
    message.append(JAPANESE_RULES);
    message.append(macro_name);
    message.append(JAPANESE_CLOSING);
    message
}

} // verus!
