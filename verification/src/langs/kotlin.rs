use vstd::prelude::*;

use crate::language::argv3;
use crate::language::argv5;
use crate::language::one_step;
use crate::language::Language;
use crate::pattern::regex_is_match;
use crate::pattern::regex_match;
use crate::strutil::concat2;
use crate::strutil::concat3;
use crate::strutil::file_stem;
use crate::strutil::spec_file_stem;

verus! {

#[derive(Debug, Clone, Copy, PartialEq, Eq, Structural)]
pub struct Kotlin;

/// Pattern recognizing a Kotlin `main` definition.
pub open spec fn kotlin_main_pattern() -> Seq<char> {
    r"(?s)(fun\s+main\s*\(.*\))"@
}

impl Kotlin {
    /// The jar name is derived from the source file's stem.
    pub fn get_class_name(&self, src_path: &str) -> (r: String)
        ensures
            r@ == spec_file_stem(src_path@),
    {
        file_stem(src_path)
    }

    /// The compiler binary used inside the container image.
    pub fn get_compiler(&self) -> (r: String)
        ensures
            r@ == "kotlinc"@,
    {
        "kotlinc".to_owned()
    }
}

impl Language for Kotlin {
    open spec fn spec_lang_name(&self) -> Seq<char> {
        "Kotlin"@
    }

    open spec fn spec_image_name(&self) -> Seq<char> {
        "rustacean-kotlin"@
    }

    open spec fn spec_source_file_ext(&self) -> Seq<char> {
        ".kt"@
    }

    open spec fn spec_pre_process_code(&self, code: Seq<char>, src_path: Seq<char>) -> Option<
        Seq<char>,
    > {
        if regex_match(kotlin_main_pattern(), code) {
            None
        } else {
            Some("fun main() {\r\n"@ + code + "\r\n}"@)
        }
    }

    open spec fn spec_out_path(&self, src_path: Seq<char>) -> Seq<char> {
        spec_file_stem(src_path)
    }

    open spec fn spec_compiler_command(&self, src_path: Seq<char>, exe_path: Seq<char>) -> Option<
        Seq<Seq<Seq<char>>>,
    > {
        Some(
            seq![
                seq![
                    "kotlinc"@,
                    src_path,
                    "-include-runtime"@,
                    "-d"@,
                    spec_file_stem(src_path) + ".jar"@,
                ],
            ],
        )
    }

    open spec fn spec_execution_command(&self, path: Seq<char>) -> Seq<Seq<char>> {
        seq!["java"@, "-jar"@, path + ".jar"@]
    }

    open spec fn spec_check_compiler_or_interpreter(&self) -> Seq<char> {
        "kotlinc -version"@
    }

    fn get_lang_name(&self) -> String {
        "Kotlin".to_owned()
    }

    fn get_image_name(&self) -> String {
        "rustacean-kotlin".to_owned()
    }

    fn get_source_file_ext(&self) -> String {
        ".kt".to_owned()
    }

    fn pre_process_code(&self, code: &str, src_path: &str) -> Option<String> {
        if regex_is_match(r"(?s)(fun\s+main\s*\(.*\))", code) {
            None
        } else {
            Some(concat3("fun main() {\r\n", code, "\r\n}"))
        }
    }

    fn get_out_path(&self, src_path: &str) -> String {
        file_stem(src_path)
    }

    fn get_compiler_command(&self, src_path: &str, exe_path: &str) -> Option<Vec<Vec<String>>> {
        let stem = self.get_class_name(src_path);
        let jar = concat2(stem.as_str(), ".jar");
        Some(one_step(argv5("kotlinc", src_path, "-include-runtime", "-d", jar.as_str())))
    }

    fn get_execution_command(&self, path: &str) -> Vec<String> {
        let jar = concat2(path, ".jar");
        argv3("java", "-jar", jar.as_str())
    }

    fn check_compiler_or_interpreter(&self) -> String {
        "kotlinc -version".to_owned()
    }
}

} // verus!
