use vstd::prelude::*;

use crate::language::argv2;
use crate::language::default_out_path;
use crate::language::spec_default_out_path;
use crate::language::Language;

verus! {

#[derive(Debug, Clone, Copy, PartialEq, Eq, Structural)]
pub struct JavaScript;

impl JavaScript {
    /// The interpreter binary used inside the container image.
    pub fn get_interpreter(&self) -> (r: String)
        ensures
            r@ == "nodejs"@,
    {
        "nodejs".to_owned()
    }
}

impl Language for JavaScript {
    open spec fn spec_lang_name(&self) -> Seq<char> {
        "JavaScript"@
    }

    open spec fn spec_image_name(&self) -> Seq<char> {
        "rustacean-javascript"@
    }

    open spec fn spec_source_file_ext(&self) -> Seq<char> {
        ".js"@
    }

    open spec fn spec_pre_process_code(&self, code: Seq<char>, src_path: Seq<char>) -> Option<
        Seq<char>,
    > {
        None
    }

    open spec fn spec_out_path(&self, src_path: Seq<char>) -> Seq<char> {
        spec_default_out_path(src_path)
    }

    open spec fn spec_compiler_command(&self, src_path: Seq<char>, exe_path: Seq<char>) -> Option<
        Seq<Seq<Seq<char>>>,
    > {
        None
    }

    open spec fn spec_execution_command(&self, path: Seq<char>) -> Seq<Seq<char>> {
        seq!["nodejs"@, path]
    }

    open spec fn spec_check_compiler_or_interpreter(&self) -> Seq<char> {
        "nodejs --version"@
    }

    fn get_lang_name(&self) -> String {
        "JavaScript".to_owned()
    }

    fn get_image_name(&self) -> String {
        "rustacean-javascript".to_owned()
    }

    fn get_source_file_ext(&self) -> String {
        ".js".to_owned()
    }

    fn pre_process_code(&self, code: &str, src_path: &str) -> Option<String> {
        None
    }

    fn get_out_path(&self, src_path: &str) -> String {
        default_out_path(src_path)
    }

    fn get_compiler_command(&self, src_path: &str, exe_path: &str) -> Option<Vec<Vec<String>>> {
        None
    }

    fn get_execution_command(&self, path: &str) -> Vec<String> {
        argv2("nodejs", path)
    }

    fn check_compiler_or_interpreter(&self) -> String {
        "nodejs --version".to_owned()
    }
}

} // verus!
