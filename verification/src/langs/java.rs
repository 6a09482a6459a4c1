use vstd::prelude::*;

use crate::language::argv2;
use crate::language::one_step;
use crate::language::Language;
use crate::pattern::regex_is_match;
use crate::pattern::regex_is_replaced;
use crate::pattern::regex_match;
use crate::pattern::regex_replaced;
use crate::strutil::concat3;
use crate::strutil::file_stem;
use crate::strutil::spec_file_stem;

verus! {

#[derive(Debug, Clone, Copy, PartialEq, Eq, Structural)]
pub struct Java;

/// Pattern recognizing (and capturing, around its name) a class with a
/// `public static void main` method.
pub open spec fn java_main_pattern() -> Seq<char> {
    r"(?s)((?P<start>.*class\s+)(?P<name>.*?)(?P<end>\s*\{\s*public\s+static\s+void\s+main\s*\(.*\).*))"@
}

impl Java {
    /// Java requires the public class to be named after the file.
    pub fn get_class_name(&self, src_path: &str) -> (r: String)
        ensures
            r@ == spec_file_stem(src_path@),
    {
        file_stem(src_path)
    }
}

impl Language for Java {
    open spec fn spec_lang_name(&self) -> Seq<char> {
        "Java"@
    }

    open spec fn spec_image_name(&self) -> Seq<char> {
        "rustacean-java"@
    }

    open spec fn spec_source_file_ext(&self) -> Seq<char> {
        ".java"@
    }

    open spec fn spec_pre_process_code(&self, code: Seq<char>, src_path: Seq<char>) -> Option<
        Seq<char>,
    > {
        let stem = spec_file_stem(src_path);
        if regex_match(java_main_pattern(), code) {
            Some(regex_replaced(java_main_pattern(), code, "$start "@ + stem + " $end"@))
        } else {
            Some(
                "\npublic class "@ + stem
                    + " {\n    public static void main(String[] args) {\n        "@ + code
                    + "\n    }\n}"@,
            )
        }
    }

    open spec fn spec_out_path(&self, src_path: Seq<char>) -> Seq<char> {
        spec_file_stem(src_path)
    }

    open spec fn spec_compiler_command(&self, src_path: Seq<char>, exe_path: Seq<char>) -> Option<
        Seq<Seq<Seq<char>>>,
    > {
        Some(seq![seq!["javac"@, src_path]])
    }

    open spec fn spec_execution_command(&self, path: Seq<char>) -> Seq<Seq<char>> {
        seq!["java"@, path]
    }

    open spec fn spec_check_compiler_or_interpreter(&self) -> Seq<char> {
        "javac -version"@
    }

    fn get_lang_name(&self) -> String {
        "Java".to_owned()
    }

    fn get_image_name(&self) -> String {
        "rustacean-java".to_owned()
    }

    fn get_source_file_ext(&self) -> String {
        ".java".to_owned()
    }

    fn pre_process_code(&self, code: &str, src_path: &str) -> Option<String> {
        let class_name = self.get_class_name(src_path);
        let pattern =
            r"(?s)((?P<start>.*class\s+)(?P<name>.*?)(?P<end>\s*\{\s*public\s+static\s+void\s+main\s*\(.*\).*))";
        if regex_is_match(pattern, code) {
            let template = concat3("$start ", class_name.as_str(), " $end");
            Some(regex_is_replaced(pattern, code, template.as_str()))
        } else {
            let head = concat3(
                "\npublic class ",
                class_name.as_str(),
                " {\n    public static void main(String[] args) {\n        ",
            );
            Some(concat3(head.as_str(), code, "\n    }\n}"))
        }
    }

    fn get_out_path(&self, src_path: &str) -> String {
        file_stem(src_path)
    }

    fn get_compiler_command(&self, src_path: &str, exe_path: &str) -> Option<Vec<Vec<String>>> {
        Some(one_step(argv2("javac", src_path)))
    }

    fn get_execution_command(&self, path: &str) -> Vec<String> {
        argv2("java", path)
    }

    fn check_compiler_or_interpreter(&self) -> String {
        "javac -version".to_owned()
    }
}

} // verus!
