use vstd::prelude::*;

use crate::language::argv2;
use crate::language::default_out_path;
use crate::language::spec_default_out_path;
use crate::language::Language;
use crate::pattern::regex_is_match;
use crate::pattern::regex_match;
use crate::strutil::concat2;

verus! {

#[derive(Debug, Clone, Copy, PartialEq, Eq, Structural)]
pub struct Php;

/// Pattern recognizing an opening PHP tag.
pub open spec fn php_tag_pattern() -> Seq<char> {
    r"(<\?php|<\?=)"@
}

impl Language for Php {
    open spec fn spec_lang_name(&self) -> Seq<char> {
        "PHP"@
    }

    open spec fn spec_image_name(&self) -> Seq<char> {
        "rustacean-php"@
    }

    open spec fn spec_source_file_ext(&self) -> Seq<char> {
        ".php"@
    }

    open spec fn spec_pre_process_code(&self, code: Seq<char>, src_path: Seq<char>) -> Option<
        Seq<char>,
    > {
        if regex_match(php_tag_pattern(), code) {
            None
        } else {
            Some("<?php\r\n"@ + code)
        }
    }

    open spec fn spec_out_path(&self, src_path: Seq<char>) -> Seq<char> {
        spec_default_out_path(src_path)
    }

    open spec fn spec_compiler_command(&self, src_path: Seq<char>, exe_path: Seq<char>) -> Option<
        Seq<Seq<Seq<char>>>,
    > {
        None
    }

    open spec fn spec_execution_command(&self, path: Seq<char>) -> Seq<Seq<char>> {
        seq!["php"@, path]
    }

    open spec fn spec_check_compiler_or_interpreter(&self) -> Seq<char> {
        "php --version"@
    }

    fn get_lang_name(&self) -> String {
        "PHP".to_owned()
    }

    fn get_image_name(&self) -> String {
        "rustacean-php".to_owned()
    }

    fn get_source_file_ext(&self) -> String {
        ".php".to_owned()
    }

    fn pre_process_code(&self, code: &str, src_path: &str) -> Option<String> {
        if regex_is_match(r"(<\?php|<\?=)", code) {
            None
        } else {
            Some(concat2("<?php\r\n", code))
        }
    }

    fn get_out_path(&self, src_path: &str) -> String {
        default_out_path(src_path)
    }

    fn get_compiler_command(&self, src_path: &str, exe_path: &str) -> Option<Vec<Vec<String>>> {
        None
    }

    fn get_execution_command(&self, path: &str) -> Vec<String> {
        argv2("php", path)
    }

    fn check_compiler_or_interpreter(&self) -> String {
        "php --version".to_owned()
    }
}

} // verus!
