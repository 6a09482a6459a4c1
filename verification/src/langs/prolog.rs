use vstd::prelude::*;

use crate::language::argv3;
use crate::language::default_out_path;
use crate::language::spec_default_out_path;
use crate::language::Language;
use crate::pattern::regex_is_match;
use crate::pattern::regex_match;
use crate::strutil::concat2;
use crate::strutil::concat3;

verus! {

#[derive(Debug, Clone, Copy, PartialEq, Eq, Structural)]
pub struct Prolog;

/// Pattern recognizing a query that already halts the interpreter.
pub open spec fn prolog_halt_pattern() -> Seq<char> {
    r"(.|\n)*halt./m"@
}

impl Language for Prolog {
    open spec fn spec_lang_name(&self) -> Seq<char> {
        "Prolog"@
    }

    open spec fn spec_image_name(&self) -> Seq<char> {
        "rustacean-prolog"@
    }

    open spec fn spec_source_file_ext(&self) -> Seq<char> {
        ".pl"@
    }

    open spec fn spec_pre_process_code(&self, code: Seq<char>, src_path: Seq<char>) -> Option<
        Seq<char>,
    > {
        if regex_match(prolog_halt_pattern(), code) {
            Some("sol(Goal):-call(Goal),write(true);write(false).\n"@ + code + "\nhalt."@)
        } else {
            Some("sol(Goal):-call(Goal),write(true); write(false).\n"@ + code)
        }
    }

    open spec fn spec_out_path(&self, src_path: Seq<char>) -> Seq<char> {
        spec_default_out_path(src_path)
    }

    open spec fn spec_compiler_command(&self, src_path: Seq<char>, exe_path: Seq<char>) -> Option<
        Seq<Seq<Seq<char>>>,
    > {
        None
    }

    open spec fn spec_execution_command(&self, path: Seq<char>) -> Seq<Seq<char>> {
        seq!["swipl"@, "-q"@, path]
    }

    open spec fn spec_check_compiler_or_interpreter(&self) -> Seq<char> {
        "prolog --version"@
    }

    fn get_lang_name(&self) -> String {
        "Prolog".to_owned()
    }

    fn get_image_name(&self) -> String {
        "rustacean-prolog".to_owned()
    }

    fn get_source_file_ext(&self) -> String {
        ".pl".to_owned()
    }

    fn pre_process_code(&self, code: &str, src_path: &str) -> Option<String> {
        if regex_is_match(r"(.|\n)*halt./m", code) {
            Some(concat3("sol(Goal):-call(Goal),write(true);write(false).\n", code, "\nhalt."))
        } else {
            Some(concat2("sol(Goal):-call(Goal),write(true); write(false).\n", code))
        }
    }

    fn get_out_path(&self, src_path: &str) -> String {
        default_out_path(src_path)
    }

    fn get_compiler_command(&self, src_path: &str, exe_path: &str) -> Option<Vec<Vec<String>>> {
        None
    }

    fn get_execution_command(&self, path: &str) -> Vec<String> {
        argv3("swipl", "-q", path)
    }

    fn check_compiler_or_interpreter(&self) -> String {
        "prolog --version".to_owned()
    }
}

} // verus!
