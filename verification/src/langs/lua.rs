use vstd::prelude::*;

use crate::language::argv2;
use crate::language::default_out_path;
use crate::language::spec_default_out_path;
use crate::language::Language;

verus! {

#[derive(Debug, Clone, Copy, PartialEq, Eq, Structural)]
pub struct Lua;

impl Lua {
    /// The interpreter binary used inside the container image.
    pub fn get_interpreter(&self) -> (r: String)
        ensures
            r@ == "lua5.3"@,
    {
        "lua5.3".to_owned()
    }
}

impl Language for Lua {
    open spec fn spec_lang_name(&self) -> Seq<char> {
        "Lua"@
    }

    open spec fn spec_image_name(&self) -> Seq<char> {
        "rustacean-lua"@
    }

    open spec fn spec_source_file_ext(&self) -> Seq<char> {
        ".lua"@
    }

    open spec fn spec_pre_process_code(&self, code: Seq<char>, src_path: Seq<char>) -> Option<
        Seq<char>,
    > {
        None
    }

    open spec fn spec_out_path(&self, src_path: Seq<char>) -> Seq<char> {
        spec_default_out_path(src_path)
    }

    open spec fn spec_compiler_command(&self, src_path: Seq<char>, exe_path: Seq<char>) -> Option<
        Seq<Seq<Seq<char>>>,
    > {
        None
    }

    open spec fn spec_execution_command(&self, path: Seq<char>) -> Seq<Seq<char>> {
        seq!["lua5.3"@, path]
    }

    open spec fn spec_check_compiler_or_interpreter(&self) -> Seq<char> {
        "lua5.3 -v"@
    }

    fn get_lang_name(&self) -> String {
        "Lua".to_owned()
    }

    fn get_image_name(&self) -> String {
        "rustacean-lua".to_owned()
    }

    fn get_source_file_ext(&self) -> String {
        ".lua".to_owned()
    }

    fn pre_process_code(&self, code: &str, src_path: &str) -> Option<String> {
        None
    }

    fn get_out_path(&self, src_path: &str) -> String {
        default_out_path(src_path)
    }

    fn get_compiler_command(&self, src_path: &str, exe_path: &str) -> Option<Vec<Vec<String>>> {
        None
    }

    fn get_execution_command(&self, path: &str) -> Vec<String> {
        argv2("lua5.3", path)
    }

    fn check_compiler_or_interpreter(&self) -> String {
        "lua5.3 -v".to_owned()
    }
}

} // verus!
