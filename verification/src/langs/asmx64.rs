use vstd::prelude::*;

use crate::language::argv1;
use crate::language::argv4;
use crate::language::default_out_path;
use crate::language::spec_default_out_path;
use crate::language::two_steps;
use crate::language::Language;
use crate::strutil::concat2;
use crate::strutil::file_stem;
use crate::strutil::spec_file_stem;

verus! {

#[derive(Debug, Clone, Copy, PartialEq, Eq, Structural)]
pub struct Asmx64;

impl Asmx64 {
    /// The object file produced by the assembler is named after the
    /// source file's stem.
    pub fn get_file_name(&self, src_path: &str) -> (r: String)
        ensures
            r@ == spec_file_stem(src_path@),
    {
        file_stem(src_path)
    }
}

impl Language for Asmx64 {
    open spec fn spec_lang_name(&self) -> Seq<char> {
        "Asm64"@
    }

    open spec fn spec_image_name(&self) -> Seq<char> {
        "rustacean-asm64"@
    }

    open spec fn spec_source_file_ext(&self) -> Seq<char> {
        ".asm"@
    }

    open spec fn spec_pre_process_code(&self, code: Seq<char>, src_path: Seq<char>) -> Option<
        Seq<char>,
    > {
        None
    }

    open spec fn spec_out_path(&self, src_path: Seq<char>) -> Seq<char> {
        spec_default_out_path(src_path)
    }

    open spec fn spec_compiler_command(&self, src_path: Seq<char>, exe_path: Seq<char>) -> Option<
        Seq<Seq<Seq<char>>>,
    > {
        Some(
            seq![
                seq!["nasm"@, "-f"@, "elf32"@, src_path],
                seq!["ld"@, spec_file_stem(src_path) + ".o"@, "-o"@, exe_path],
            ],
        )
    }

    open spec fn spec_execution_command(&self, path: Seq<char>) -> Seq<Seq<char>> {
        seq![path]
    }

    open spec fn spec_check_compiler_or_interpreter(&self) -> Seq<char> {
        "nasm -version && ld -version"@
    }

    fn get_lang_name(&self) -> String {
        "Asm64".to_owned()
    }

    fn get_image_name(&self) -> String {
        "rustacean-asm64".to_owned()
    }

    fn get_source_file_ext(&self) -> String {
        ".asm".to_owned()
    }

    fn pre_process_code(&self, code: &str, src_path: &str) -> Option<String> {
        None
    }

    fn get_out_path(&self, src_path: &str) -> String {
        default_out_path(src_path)
    }

    fn get_compiler_command(&self, src_path: &str, exe_path: &str) -> Option<Vec<Vec<String>>> {
        let stem = self.get_file_name(src_path);
        let object = concat2(stem.as_str(), ".o");
        Some(
            two_steps(
                argv4("nasm", "-f", "elf32", src_path),
                argv4("ld", object.as_str(), "-o", exe_path),
            ),
        )
    }

    fn get_execution_command(&self, path: &str) -> Vec<String> {
        argv1(path)
    }

    fn check_compiler_or_interpreter(&self) -> String {
        "nasm -version && ld -version".to_owned()
    }
}

} // verus!
