use vstd::prelude::*;

use crate::language::argv2;
use crate::language::argv4;
use crate::language::default_out_path;
use crate::language::one_step;
use crate::language::spec_default_out_path;
use crate::language::Language;
use crate::strutil::concat2;

verus! {

#[derive(Debug, Clone, Copy, PartialEq, Eq, Structural)]
pub struct Typescript;

impl Language for Typescript {
    open spec fn spec_lang_name(&self) -> Seq<char> {
        "TypeScript"@
    }

    open spec fn spec_image_name(&self) -> Seq<char> {
        "rustacean-typescript"@
    }

    open spec fn spec_source_file_ext(&self) -> Seq<char> {
        ".ts"@
    }

    open spec fn spec_pre_process_code(&self, code: Seq<char>, src_path: Seq<char>) -> Option<
        Seq<char>,
    > {
        None
    }

    open spec fn spec_out_path(&self, src_path: Seq<char>) -> Seq<char> {
        spec_default_out_path(src_path)
    }

    open spec fn spec_compiler_command(&self, src_path: Seq<char>, exe_path: Seq<char>) -> Option<
        Seq<Seq<Seq<char>>>,
    > {
        Some(seq![seq!["tsc"@, src_path, "--outFile"@, exe_path + ".js"@]])
    }

    open spec fn spec_execution_command(&self, path: Seq<char>) -> Seq<Seq<char>> {
        seq!["node"@, path + ".js"@]
    }

    open spec fn spec_check_compiler_or_interpreter(&self) -> Seq<char> {
        "tsc -v"@
    }

    fn get_lang_name(&self) -> String {
        "TypeScript".to_owned()
    }

    fn get_image_name(&self) -> String {
        "rustacean-typescript".to_owned()
    }

    fn get_source_file_ext(&self) -> String {
        ".ts".to_owned()
    }

    fn pre_process_code(&self, code: &str, src_path: &str) -> Option<String> {
        None
    }

    fn get_out_path(&self, src_path: &str) -> String {
        default_out_path(src_path)
    }

    fn get_compiler_command(&self, src_path: &str, exe_path: &str) -> Option<Vec<Vec<String>>> {
        let with_js = concat2(exe_path, ".js");
        Some(one_step(argv4("tsc", src_path, "--outFile", with_js.as_str())))
    }

    fn get_execution_command(&self, path: &str) -> Vec<String> {
        let with_js = concat2(path, ".js");
        argv2("node", with_js.as_str())
    }

    fn check_compiler_or_interpreter(&self) -> String {
        "tsc -v".to_owned()
    }
}

} // verus!
