use vstd::prelude::*;

use crate::language::argv1;
use crate::language::argv4;
use crate::language::one_step;
use crate::language::Language;
use crate::pattern::regex_is_match;
use crate::pattern::regex_match;
use crate::strutil::concat2;
use crate::strutil::concat3;
use crate::strutil::parent_dir;
use crate::strutil::spec_parent_dir;

verus! {

#[derive(Debug, Clone, Copy, PartialEq, Eq, Structural)]
pub struct Pony;

/// Pattern recognizing a `Main` actor with a `create` constructor.
pub open spec fn pony_main_pattern() -> Seq<char> {
    r"(\s*)actor\s*Main\s*new\s*create*\(\s*env\s*:\s*Env\s*\)\s*=>\s*(.|\s)*"@
}

impl Language for Pony {
    open spec fn spec_lang_name(&self) -> Seq<char> {
        "Pony"@
    }

    open spec fn spec_image_name(&self) -> Seq<char> {
        "rustacean-pony"@
    }

    open spec fn spec_source_file_ext(&self) -> Seq<char> {
        ".pony"@
    }

    open spec fn spec_pre_process_code(&self, code: Seq<char>, src_path: Seq<char>) -> Option<
        Seq<char>,
    > {
        if regex_match(pony_main_pattern(), code) {
            Some(code)
        } else {
            Some(
                "use \"random\"\r\n use \"json\" \r\n use \"itertools\"\r\n actor Main\r\nnew create(env: Env)=>\r\n"@
                    + code,
            )
        }
    }

    open spec fn spec_out_path(&self, src_path: Seq<char>) -> Seq<char> {
        spec_parent_dir(src_path) + "/"@ + spec_parent_dir(src_path)
    }

    open spec fn spec_compiler_command(&self, src_path: Seq<char>, exe_path: Seq<char>) -> Option<
        Seq<Seq<Seq<char>>>,
    > {
        Some(seq![seq!["ponyc"@, spec_parent_dir(src_path), "-V"@, "0"@]])
    }

    open spec fn spec_execution_command(&self, path: Seq<char>) -> Seq<Seq<char>> {
        seq![path]
    }

    open spec fn spec_check_compiler_or_interpreter(&self) -> Seq<char> {
        "ponyc --version"@
    }

    fn get_lang_name(&self) -> String {
        "Pony".to_owned()
    }

    fn get_image_name(&self) -> String {
        "rustacean-pony".to_owned()
    }

    fn get_source_file_ext(&self) -> String {
        ".pony".to_owned()
    }

    fn pre_process_code(&self, code: &str, src_path: &str) -> Option<String> {
        if regex_is_match(
            r"(\s*)actor\s*Main\s*new\s*create*\(\s*env\s*:\s*Env\s*\)\s*=>\s*(.|\s)*",
            code,
        ) {
            Some(code.to_owned())
        } else {
            Some(
                concat2(
                    "use \"random\"\r\n use \"json\" \r\n use \"itertools\"\r\n actor Main\r\nnew create(env: Env)=>\r\n",
                    code,
                ),
            )
        }
    }

    fn get_out_path(&self, src_path: &str) -> String {
        let dir = parent_dir(src_path);
        concat3(dir.as_str(), "/", dir.as_str())
    }

    fn get_compiler_command(&self, src_path: &str, exe_path: &str) -> Option<Vec<Vec<String>>> {
        let dir = parent_dir(src_path);
        Some(one_step(argv4("ponyc", dir.as_str(), "-V", "0")))
    }

    fn get_execution_command(&self, path: &str) -> Vec<String> {
        argv1(path)
    }

    fn check_compiler_or_interpreter(&self) -> String {
        "ponyc --version".to_owned()
    }
}

} // verus!
