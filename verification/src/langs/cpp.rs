use vstd::prelude::*;

use crate::language::argv4;
use crate::language::default_out_path;
use crate::language::one_step;
use crate::language::spec_default_out_path;
use crate::language::Language;
use crate::pattern::regex_is_match;
use crate::pattern::regex_match;
use crate::strutil::concat3;

verus! {

#[derive(Debug, Clone, Copy, PartialEq, Eq, Structural)]
pub struct Cpp;

/// Pattern recognizing a C++ `main` definition.
pub open spec fn cpp_main_pattern() -> Seq<char> {
    r"int\s*main\s*\(.*\)"@
}

impl Language for Cpp {
    open spec fn spec_lang_name(&self) -> Seq<char> {
        "C++"@
    }

    open spec fn spec_image_name(&self) -> Seq<char> {
        "rustacean-c++"@
    }

    open spec fn spec_source_file_ext(&self) -> Seq<char> {
        ".cpp"@
    }

    open spec fn spec_pre_process_code(&self, code: Seq<char>, src_path: Seq<char>) -> Option<
        Seq<char>,
    > {
        if regex_match(cpp_main_pattern(), code) {
            None
        } else {
            Some("#include <iostream>\r\nint main(int argc, char* argv[]) {\r\n"@ + code + "\r\n}"@)
        }
    }

    open spec fn spec_out_path(&self, src_path: Seq<char>) -> Seq<char> {
        spec_default_out_path(src_path)
    }

    open spec fn spec_compiler_command(&self, src_path: Seq<char>, exe_path: Seq<char>) -> Option<
        Seq<Seq<Seq<char>>>,
    > {
        Some(seq![seq!["g++"@, src_path, "-o"@, exe_path]])
    }

    open spec fn spec_execution_command(&self, path: Seq<char>) -> Seq<Seq<char>> {
        seq![path]
    }

    open spec fn spec_check_compiler_or_interpreter(&self) -> Seq<char> {
        "g++ --version"@
    }

    fn get_lang_name(&self) -> String {
        "C++".to_owned()
    }

    fn get_image_name(&self) -> String {
        "rustacean-c++".to_owned()
    }

    fn get_source_file_ext(&self) -> String {
        ".cpp".to_owned()
    }

    fn pre_process_code(&self, code: &str, src_path: &str) -> Option<String> {
        if regex_is_match(r"int\s*main\s*\(.*\)", code) {
            None
        } else {
            Some(
                concat3("#include <iostream>\r\nint main(int argc, char* argv[]) {\r\n", code, "\r\n}"),
            )
        }
    }

    fn get_out_path(&self, src_path: &str) -> String {
        default_out_path(src_path)
    }

    fn get_compiler_command(&self, src_path: &str, exe_path: &str) -> Option<Vec<Vec<String>>> {
        Some(one_step(argv4("g++", src_path, "-o", exe_path)))
    }

    fn get_execution_command(&self, path: &str) -> Vec<String> {
        crate::language::argv1(path)
    }

    fn check_compiler_or_interpreter(&self) -> String {
        "g++ --version".to_owned()
    }
}

} // verus!
