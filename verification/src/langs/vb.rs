use vstd::prelude::*;

use crate::language::argv2;
use crate::language::argv6;
use crate::language::default_out_path;
use crate::language::one_step;
use crate::language::spec_default_out_path;
use crate::language::Language;
use crate::pattern::regex_is_match;
use crate::pattern::regex_match;
use crate::strutil::concat2;
use crate::strutil::concat3;

verus! {

#[derive(Debug, Clone, Copy, PartialEq, Eq, Structural)]
pub struct Vb;

/// Pattern recognizing a module with a `Sub Main` entry point.
pub open spec fn vb_main_pattern() -> Seq<char> {
    r"Module\s*.*\s*Sub\s*Main\s*\(\s*\)"@
}

impl Vb {
    /// The compiler binary used inside the container image.
    pub fn get_compiler(&self) -> (r: String)
        ensures
            r@ == "vbnc"@,
    {
        "vbnc".to_owned()
    }
}

impl Language for Vb {
    open spec fn spec_lang_name(&self) -> Seq<char> {
        "VB.Net"@
    }

    open spec fn spec_image_name(&self) -> Seq<char> {
        "rustacean-vb.net"@
    }

    open spec fn spec_source_file_ext(&self) -> Seq<char> {
        ".vb"@
    }

    open spec fn spec_pre_process_code(&self, code: Seq<char>, src_path: Seq<char>) -> Option<
        Seq<char>,
    > {
        if regex_match(vb_main_pattern(), code) {
            None
        } else {
            Some(
                "\nImports System\n\nModule Program\n    Sub Main()\n        "@ + code
                    + "\n    End Sub\nEnd Module"@,
            )
        }
    }

    open spec fn spec_out_path(&self, src_path: Seq<char>) -> Seq<char> {
        spec_default_out_path(src_path)
    }

    open spec fn spec_compiler_command(&self, src_path: Seq<char>, exe_path: Seq<char>) -> Option<
        Seq<Seq<Seq<char>>>,
    > {
        Some(
            seq![
                seq![
                    "vbnc"@,
                    "/out:"@ + exe_path,
                    "/target:winexe"@,
                    "/nologo"@,
                    "/quiet"@,
                    src_path,
                ],
            ],
        )
    }

    open spec fn spec_execution_command(&self, path: Seq<char>) -> Seq<Seq<char>> {
        seq!["mono"@, path]
    }

    open spec fn spec_check_compiler_or_interpreter(&self) -> Seq<char> {
        "vbnc /nologo /?"@
    }

    fn get_lang_name(&self) -> String {
        "VB.Net".to_owned()
    }

    fn get_image_name(&self) -> String {
        "rustacean-vb.net".to_owned()
    }

    fn get_source_file_ext(&self) -> String {
        ".vb".to_owned()
    }

    fn pre_process_code(&self, code: &str, src_path: &str) -> Option<String> {
        if regex_is_match(r"Module\s*.*\s*Sub\s*Main\s*\(\s*\)", code) {
            None
        } else {
            Some(
                concat3(
                    "\nImports System\n\nModule Program\n    Sub Main()\n        ",
                    code,
                    "\n    End Sub\nEnd Module",
                ),
            )
        }
    }

    fn get_out_path(&self, src_path: &str) -> String {
        default_out_path(src_path)
    }

    fn get_compiler_command(&self, src_path: &str, exe_path: &str) -> Option<Vec<Vec<String>>> {
        let out_arg = concat2("/out:", exe_path);
        Some(
            one_step(
                argv6("vbnc", out_arg.as_str(), "/target:winexe", "/nologo", "/quiet", src_path),
            ),
        )
    }

    fn get_execution_command(&self, path: &str) -> Vec<String> {
        argv2("mono", path)
    }

    fn check_compiler_or_interpreter(&self) -> String {
        "vbnc /nologo /?".to_owned()
    }
}

} // verus!
