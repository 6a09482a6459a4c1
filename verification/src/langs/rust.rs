use vstd::prelude::*;

use crate::language::argv4;
use crate::language::default_out_path;
use crate::language::one_step;
use crate::language::spec_default_out_path;
use crate::language::Language;
use crate::pattern::regex_is_match;
use crate::pattern::regex_match;
use crate::strutil::concat3;

verus! {

#[derive(Debug, Clone, Copy, PartialEq, Eq, Structural)]
pub struct Rust;

/// Pattern recognizing a Rust `main` definition.
pub open spec fn rust_main_pattern() -> Seq<char> {
    r"(?s)(fn\s+main\s*\(.*\))"@
}

impl Language for Rust {
    open spec fn spec_lang_name(&self) -> Seq<char> {
        "Rust"@
    }

    open spec fn spec_image_name(&self) -> Seq<char> {
        "rustacean-rust"@
    }

    open spec fn spec_source_file_ext(&self) -> Seq<char> {
        ".rs"@
    }

    open spec fn spec_pre_process_code(&self, code: Seq<char>, src_path: Seq<char>) -> Option<
        Seq<char>,
    > {
        if regex_match(rust_main_pattern(), code) {
            None
        } else {
            Some("fn main() {\r\n"@ + code + "\r\n}"@)
        }
    }

    open spec fn spec_out_path(&self, src_path: Seq<char>) -> Seq<char> {
        spec_default_out_path(src_path)
    }

    open spec fn spec_compiler_command(&self, src_path: Seq<char>, exe_path: Seq<char>) -> Option<
        Seq<Seq<Seq<char>>>,
    > {
        Some(seq![seq!["rustc"@, src_path, "-o"@, exe_path]])
    }

    open spec fn spec_execution_command(&self, path: Seq<char>) -> Seq<Seq<char>> {
        seq![path]
    }

    open spec fn spec_check_compiler_or_interpreter(&self) -> Seq<char> {
        "rustc --version"@
    }

    fn get_lang_name(&self) -> String {
        "Rust".to_owned()
    }

    fn get_image_name(&self) -> String {
        "rustacean-rust".to_owned()
    }

    fn get_source_file_ext(&self) -> String {
        ".rs".to_owned()
    }

    fn pre_process_code(&self, code: &str, src_path: &str) -> Option<String> {
        if regex_is_match(r"(?s)(fn\s+main\s*\(.*\))", code) {
            None
        } else {
            Some(concat3("fn main() {\r\n", code, "\r\n}"))
        }
    }

    fn get_out_path(&self, src_path: &str) -> String {
        default_out_path(src_path)
    }

    fn get_compiler_command(&self, src_path: &str, exe_path: &str) -> Option<Vec<Vec<String>>> {
        Some(one_step(argv4("rustc", src_path, "-o", exe_path)))
    }

    fn get_execution_command(&self, path: &str) -> Vec<String> {
        crate::language::argv1(path)
    }

    fn check_compiler_or_interpreter(&self) -> String {
        "rustc --version".to_owned()
    }
}

} // verus!
