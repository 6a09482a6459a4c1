use vstd::prelude::*;

use crate::language::argv2;
use crate::language::argv5;
use crate::language::default_out_path;
use crate::language::one_step;
use crate::language::spec_default_out_path;
use crate::language::Language;
use crate::pattern::regex_is_match;
use crate::pattern::regex_match;
use crate::strutil::concat2;
use crate::strutil::concat3;

verus! {

#[derive(Debug, Clone, Copy, PartialEq, Eq, Structural)]
pub struct Csharp;

/// Pattern recognizing a class with a static `Main` method.
pub open spec fn csharp_main_pattern() -> Seq<char> {
    r"(?s)(class\s+.*\{.*static\s+void\s+Main\s*\(.*\))"@
}

impl Language for Csharp {
    open spec fn spec_lang_name(&self) -> Seq<char> {
        "CSharp"@
    }

    open spec fn spec_image_name(&self) -> Seq<char> {
        "rustacean-csharp"@
    }

    open spec fn spec_source_file_ext(&self) -> Seq<char> {
        ".cs"@
    }

    open spec fn spec_pre_process_code(&self, code: Seq<char>, src_path: Seq<char>) -> Option<
        Seq<char>,
    > {
        if regex_match(csharp_main_pattern(), code) {
            None
        } else {
            Some(
                "\nusing System;\n\npublic class Program\n{\n    public static void Main()\n    {\n        "@
                    + code + "\n    }\n}"@,
            )
        }
    }

    open spec fn spec_out_path(&self, src_path: Seq<char>) -> Seq<char> {
        spec_default_out_path(src_path)
    }

    open spec fn spec_compiler_command(&self, src_path: Seq<char>, exe_path: Seq<char>) -> Option<
        Seq<Seq<Seq<char>>>,
    > {
        Some(seq![seq!["mcs"@, "-out:"@ + exe_path, "-target:winexe"@, "-nologo"@, src_path]])
    }

    open spec fn spec_execution_command(&self, path: Seq<char>) -> Seq<Seq<char>> {
        seq!["mono"@, path]
    }

    open spec fn spec_check_compiler_or_interpreter(&self) -> Seq<char> {
        "mcs --version"@
    }

    fn get_lang_name(&self) -> String {
        "CSharp".to_owned()
    }

    fn get_image_name(&self) -> String {
        "rustacean-csharp".to_owned()
    }

    fn get_source_file_ext(&self) -> String {
        ".cs".to_owned()
    }

    fn pre_process_code(&self, code: &str, src_path: &str) -> Option<String> {
        if regex_is_match(r"(?s)(class\s+.*\{.*static\s+void\s+Main\s*\(.*\))", code) {
            None
        } else {
            Some(
                concat3(
                    "\nusing System;\n\npublic class Program\n{\n    public static void Main()\n    {\n        ",
                    code,
                    "\n    }\n}",
                ),
            )
        }
    }

    fn get_out_path(&self, src_path: &str) -> String {
        default_out_path(src_path)
    }

    fn get_compiler_command(&self, src_path: &str, exe_path: &str) -> Option<Vec<Vec<String>>> {
        let out_arg = concat2("-out:", exe_path);
        Some(one_step(argv5("mcs", out_arg.as_str(), "-target:winexe", "-nologo", src_path)))
    }

    fn get_execution_command(&self, path: &str) -> Vec<String> {
        argv2("mono", path)
    }

    fn check_compiler_or_interpreter(&self) -> String {
        "mcs --version".to_owned()
    }
}

} // verus!
