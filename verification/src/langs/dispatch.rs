use vstd::prelude::*;

use crate::language::Language;

use crate::langs::apl::Apl;
use crate::langs::assembly::Asm;
use crate::langs::asmx64::Asmx64;
use crate::langs::asmx86::Asmx86;
use crate::langs::c::C;
use crate::langs::cpp::Cpp;
use crate::langs::csharp::Csharp;
use crate::langs::go::Go;
use crate::langs::haskell::Haskell;
use crate::langs::java::Java;
use crate::langs::javascript::JavaScript;
use crate::langs::julia::Julia;
use crate::langs::kotlin::Kotlin;
use crate::langs::lua::Lua;
use crate::langs::ocaml::OCaml;
use crate::langs::php::Php;
use crate::langs::pony::Pony;
use crate::langs::prolog::Prolog;
use crate::langs::python::Python;
use crate::langs::ruby::Ruby;
use crate::langs::rust::Rust;
use crate::langs::shell::Shell;
use crate::langs::typescript::Typescript;
use crate::langs::vb::Vb;

verus! {

/// One registered language, dispatching the capability interface to the
/// per-language policy object it carries.
#[derive(Debug, Clone, Copy, PartialEq, Eq, Structural)]
pub enum Lang {
    Apl(Apl),
    Asm(Asm),
    Asmx64(Asmx64),
    Asmx86(Asmx86),
    C(C),
    Cpp(Cpp),
    Csharp(Csharp),
    Go(Go),
    Haskell(Haskell),
    Java(Java),
    JavaScript(JavaScript),
    Julia(Julia),
    Kotlin(Kotlin),
    Lua(Lua),
    OCaml(OCaml),
    Php(Php),
    Pony(Pony),
    Prolog(Prolog),
    Python(Python),
    Ruby(Ruby),
    Rust(Rust),
    Shell(Shell),
    Typescript(Typescript),
    Vb(Vb),
}

impl Language for Lang {
    open spec fn spec_lang_name(&self) -> Seq<char> {
        match self {
            Lang::Apl(l) => l.spec_lang_name(),
            Lang::Asm(l) => l.spec_lang_name(),
            Lang::Asmx64(l) => l.spec_lang_name(),
            Lang::Asmx86(l) => l.spec_lang_name(),
            Lang::C(l) => l.spec_lang_name(),
            Lang::Cpp(l) => l.spec_lang_name(),
            Lang::Csharp(l) => l.spec_lang_name(),
            Lang::Go(l) => l.spec_lang_name(),
            Lang::Haskell(l) => l.spec_lang_name(),
            Lang::Java(l) => l.spec_lang_name(),
            Lang::JavaScript(l) => l.spec_lang_name(),
            Lang::Julia(l) => l.spec_lang_name(),
            Lang::Kotlin(l) => l.spec_lang_name(),
            Lang::Lua(l) => l.spec_lang_name(),
            Lang::OCaml(l) => l.spec_lang_name(),
            Lang::Php(l) => l.spec_lang_name(),
            Lang::Pony(l) => l.spec_lang_name(),
            Lang::Prolog(l) => l.spec_lang_name(),
            Lang::Python(l) => l.spec_lang_name(),
            Lang::Ruby(l) => l.spec_lang_name(),
            Lang::Rust(l) => l.spec_lang_name(),
            Lang::Shell(l) => l.spec_lang_name(),
            Lang::Typescript(l) => l.spec_lang_name(),
            Lang::Vb(l) => l.spec_lang_name(),
        }
    }

    open spec fn spec_image_name(&self) -> Seq<char> {
        match self {
            Lang::Apl(l) => l.spec_image_name(),
            Lang::Asm(l) => l.spec_image_name(),
            Lang::Asmx64(l) => l.spec_image_name(),
            Lang::Asmx86(l) => l.spec_image_name(),
            Lang::C(l) => l.spec_image_name(),
            Lang::Cpp(l) => l.spec_image_name(),
            Lang::Csharp(l) => l.spec_image_name(),
            Lang::Go(l) => l.spec_image_name(),
            Lang::Haskell(l) => l.spec_image_name(),
            Lang::Java(l) => l.spec_image_name(),
            Lang::JavaScript(l) => l.spec_image_name(),
            Lang::Julia(l) => l.spec_image_name(),
            Lang::Kotlin(l) => l.spec_image_name(),
            Lang::Lua(l) => l.spec_image_name(),
            Lang::OCaml(l) => l.spec_image_name(),
            Lang::Php(l) => l.spec_image_name(),
            Lang::Pony(l) => l.spec_image_name(),
            Lang::Prolog(l) => l.spec_image_name(),
            Lang::Python(l) => l.spec_image_name(),
            Lang::Ruby(l) => l.spec_image_name(),
            Lang::Rust(l) => l.spec_image_name(),
            Lang::Shell(l) => l.spec_image_name(),
            Lang::Typescript(l) => l.spec_image_name(),
            Lang::Vb(l) => l.spec_image_name(),
        }
    }

    open spec fn spec_source_file_ext(&self) -> Seq<char> {
        match self {
            Lang::Apl(l) => l.spec_source_file_ext(),
            Lang::Asm(l) => l.spec_source_file_ext(),
            Lang::Asmx64(l) => l.spec_source_file_ext(),
            Lang::Asmx86(l) => l.spec_source_file_ext(),
            Lang::C(l) => l.spec_source_file_ext(),
            Lang::Cpp(l) => l.spec_source_file_ext(),
            Lang::Csharp(l) => l.spec_source_file_ext(),
            Lang::Go(l) => l.spec_source_file_ext(),
            Lang::Haskell(l) => l.spec_source_file_ext(),
            Lang::Java(l) => l.spec_source_file_ext(),
            Lang::JavaScript(l) => l.spec_source_file_ext(),
            Lang::Julia(l) => l.spec_source_file_ext(),
            Lang::Kotlin(l) => l.spec_source_file_ext(),
            Lang::Lua(l) => l.spec_source_file_ext(),
            Lang::OCaml(l) => l.spec_source_file_ext(),
            Lang::Php(l) => l.spec_source_file_ext(),
            Lang::Pony(l) => l.spec_source_file_ext(),
            Lang::Prolog(l) => l.spec_source_file_ext(),
            Lang::Python(l) => l.spec_source_file_ext(),
            Lang::Ruby(l) => l.spec_source_file_ext(),
            Lang::Rust(l) => l.spec_source_file_ext(),
            Lang::Shell(l) => l.spec_source_file_ext(),
            Lang::Typescript(l) => l.spec_source_file_ext(),
            Lang::Vb(l) => l.spec_source_file_ext(),
        }
    }

    open spec fn spec_pre_process_code(&self, code: Seq<char>, src_path: Seq<char>) -> Option<
        Seq<char>,
    > {
        match self {
            Lang::Apl(l) => l.spec_pre_process_code(code, src_path),
            Lang::Asm(l) => l.spec_pre_process_code(code, src_path),
            Lang::Asmx64(l) => l.spec_pre_process_code(code, src_path),
            Lang::Asmx86(l) => l.spec_pre_process_code(code, src_path),
            Lang::C(l) => l.spec_pre_process_code(code, src_path),
            Lang::Cpp(l) => l.spec_pre_process_code(code, src_path),
            Lang::Csharp(l) => l.spec_pre_process_code(code, src_path),
            Lang::Go(l) => l.spec_pre_process_code(code, src_path),
            Lang::Haskell(l) => l.spec_pre_process_code(code, src_path),
            Lang::Java(l) => l.spec_pre_process_code(code, src_path),
            Lang::JavaScript(l) => l.spec_pre_process_code(code, src_path),
            Lang::Julia(l) => l.spec_pre_process_code(code, src_path),
            Lang::Kotlin(l) => l.spec_pre_process_code(code, src_path),
            Lang::Lua(l) => l.spec_pre_process_code(code, src_path),
            Lang::OCaml(l) => l.spec_pre_process_code(code, src_path),
            Lang::Php(l) => l.spec_pre_process_code(code, src_path),
            Lang::Pony(l) => l.spec_pre_process_code(code, src_path),
            Lang::Prolog(l) => l.spec_pre_process_code(code, src_path),
            Lang::Python(l) => l.spec_pre_process_code(code, src_path),
            Lang::Ruby(l) => l.spec_pre_process_code(code, src_path),
            Lang::Rust(l) => l.spec_pre_process_code(code, src_path),
            Lang::Shell(l) => l.spec_pre_process_code(code, src_path),
            Lang::Typescript(l) => l.spec_pre_process_code(code, src_path),
            Lang::Vb(l) => l.spec_pre_process_code(code, src_path),
        }
    }

    open spec fn spec_out_path(&self, src_path: Seq<char>) -> Seq<char> {
        match self {
            Lang::Apl(l) => l.spec_out_path(src_path),
            Lang::Asm(l) => l.spec_out_path(src_path),
            Lang::Asmx64(l) => l.spec_out_path(src_path),
            Lang::Asmx86(l) => l.spec_out_path(src_path),
            Lang::C(l) => l.spec_out_path(src_path),
            Lang::Cpp(l) => l.spec_out_path(src_path),
            Lang::Csharp(l) => l.spec_out_path(src_path),
            Lang::Go(l) => l.spec_out_path(src_path),
            Lang::Haskell(l) => l.spec_out_path(src_path),
            Lang::Java(l) => l.spec_out_path(src_path),
            Lang::JavaScript(l) => l.spec_out_path(src_path),
            Lang::Julia(l) => l.spec_out_path(src_path),
            Lang::Kotlin(l) => l.spec_out_path(src_path),
            Lang::Lua(l) => l.spec_out_path(src_path),
            Lang::OCaml(l) => l.spec_out_path(src_path),
            Lang::Php(l) => l.spec_out_path(src_path),
            Lang::Pony(l) => l.spec_out_path(src_path),
            Lang::Prolog(l) => l.spec_out_path(src_path),
            Lang::Python(l) => l.spec_out_path(src_path),
            Lang::Ruby(l) => l.spec_out_path(src_path),
            Lang::Rust(l) => l.spec_out_path(src_path),
            Lang::Shell(l) => l.spec_out_path(src_path),
            Lang::Typescript(l) => l.spec_out_path(src_path),
            Lang::Vb(l) => l.spec_out_path(src_path),
        }
    }

    open spec fn spec_compiler_command(&self, src_path: Seq<char>, exe_path: Seq<char>) -> Option<
        Seq<Seq<Seq<char>>>,
    > {
        match self {
            Lang::Apl(l) => l.spec_compiler_command(src_path, exe_path),
            Lang::Asm(l) => l.spec_compiler_command(src_path, exe_path),
            Lang::Asmx64(l) => l.spec_compiler_command(src_path, exe_path),
            Lang::Asmx86(l) => l.spec_compiler_command(src_path, exe_path),
            Lang::C(l) => l.spec_compiler_command(src_path, exe_path),
            Lang::Cpp(l) => l.spec_compiler_command(src_path, exe_path),
            Lang::Csharp(l) => l.spec_compiler_command(src_path, exe_path),
            Lang::Go(l) => l.spec_compiler_command(src_path, exe_path),
            Lang::Haskell(l) => l.spec_compiler_command(src_path, exe_path),
            Lang::Java(l) => l.spec_compiler_command(src_path, exe_path),
            Lang::JavaScript(l) => l.spec_compiler_command(src_path, exe_path),
            Lang::Julia(l) => l.spec_compiler_command(src_path, exe_path),
            Lang::Kotlin(l) => l.spec_compiler_command(src_path, exe_path),
            Lang::Lua(l) => l.spec_compiler_command(src_path, exe_path),
            Lang::OCaml(l) => l.spec_compiler_command(src_path, exe_path),
            Lang::Php(l) => l.spec_compiler_command(src_path, exe_path),
            Lang::Pony(l) => l.spec_compiler_command(src_path, exe_path),
            Lang::Prolog(l) => l.spec_compiler_command(src_path, exe_path),
            Lang::Python(l) => l.spec_compiler_command(src_path, exe_path),
            Lang::Ruby(l) => l.spec_compiler_command(src_path, exe_path),
            Lang::Rust(l) => l.spec_compiler_command(src_path, exe_path),
            Lang::Shell(l) => l.spec_compiler_command(src_path, exe_path),
            Lang::Typescript(l) => l.spec_compiler_command(src_path, exe_path),
            Lang::Vb(l) => l.spec_compiler_command(src_path, exe_path),
        }
    }

    open spec fn spec_execution_command(&self, path: Seq<char>) -> Seq<Seq<char>> {
        match self {
            Lang::Apl(l) => l.spec_execution_command(path),
            Lang::Asm(l) => l.spec_execution_command(path),
            Lang::Asmx64(l) => l.spec_execution_command(path),
            Lang::Asmx86(l) => l.spec_execution_command(path),
            Lang::C(l) => l.spec_execution_command(path),
            Lang::Cpp(l) => l.spec_execution_command(path),
            Lang::Csharp(l) => l.spec_execution_command(path),
            Lang::Go(l) => l.spec_execution_command(path),
            Lang::Haskell(l) => l.spec_execution_command(path),
            Lang::Java(l) => l.spec_execution_command(path),
            Lang::JavaScript(l) => l.spec_execution_command(path),
            Lang::Julia(l) => l.spec_execution_command(path),
            Lang::Kotlin(l) => l.spec_execution_command(path),
            Lang::Lua(l) => l.spec_execution_command(path),
            Lang::OCaml(l) => l.spec_execution_command(path),
            Lang::Php(l) => l.spec_execution_command(path),
            Lang::Pony(l) => l.spec_execution_command(path),
            Lang::Prolog(l) => l.spec_execution_command(path),
            Lang::Python(l) => l.spec_execution_command(path),
            Lang::Ruby(l) => l.spec_execution_command(path),
            Lang::Rust(l) => l.spec_execution_command(path),
            Lang::Shell(l) => l.spec_execution_command(path),
            Lang::Typescript(l) => l.spec_execution_command(path),
            Lang::Vb(l) => l.spec_execution_command(path),
        }
    }

    open spec fn spec_check_compiler_or_interpreter(&self) -> Seq<char> {
        match self {
            Lang::Apl(l) => l.spec_check_compiler_or_interpreter(),
            Lang::Asm(l) => l.spec_check_compiler_or_interpreter(),
            Lang::Asmx64(l) => l.spec_check_compiler_or_interpreter(),
            Lang::Asmx86(l) => l.spec_check_compiler_or_interpreter(),
            Lang::C(l) => l.spec_check_compiler_or_interpreter(),
            Lang::Cpp(l) => l.spec_check_compiler_or_interpreter(),
            Lang::Csharp(l) => l.spec_check_compiler_or_interpreter(),
            Lang::Go(l) => l.spec_check_compiler_or_interpreter(),
            Lang::Haskell(l) => l.spec_check_compiler_or_interpreter(),
            Lang::Java(l) => l.spec_check_compiler_or_interpreter(),
            Lang::JavaScript(l) => l.spec_check_compiler_or_interpreter(),
            Lang::Julia(l) => l.spec_check_compiler_or_interpreter(),
            Lang::Kotlin(l) => l.spec_check_compiler_or_interpreter(),
            Lang::Lua(l) => l.spec_check_compiler_or_interpreter(),
            Lang::OCaml(l) => l.spec_check_compiler_or_interpreter(),
            Lang::Php(l) => l.spec_check_compiler_or_interpreter(),
            Lang::Pony(l) => l.spec_check_compiler_or_interpreter(),
            Lang::Prolog(l) => l.spec_check_compiler_or_interpreter(),
            Lang::Python(l) => l.spec_check_compiler_or_interpreter(),
            Lang::Ruby(l) => l.spec_check_compiler_or_interpreter(),
            Lang::Rust(l) => l.spec_check_compiler_or_interpreter(),
            Lang::Shell(l) => l.spec_check_compiler_or_interpreter(),
            Lang::Typescript(l) => l.spec_check_compiler_or_interpreter(),
            Lang::Vb(l) => l.spec_check_compiler_or_interpreter(),
        }
    }

    fn get_lang_name(&self) -> String {
        match self {
            Lang::Apl(l) => l.get_lang_name(),
            Lang::Asm(l) => l.get_lang_name(),
            Lang::Asmx64(l) => l.get_lang_name(),
            Lang::Asmx86(l) => l.get_lang_name(),
            Lang::C(l) => l.get_lang_name(),
            Lang::Cpp(l) => l.get_lang_name(),
            Lang::Csharp(l) => l.get_lang_name(),
            Lang::Go(l) => l.get_lang_name(),
            Lang::Haskell(l) => l.get_lang_name(),
            Lang::Java(l) => l.get_lang_name(),
            Lang::JavaScript(l) => l.get_lang_name(),
            Lang::Julia(l) => l.get_lang_name(),
            Lang::Kotlin(l) => l.get_lang_name(),
            Lang::Lua(l) => l.get_lang_name(),
            Lang::OCaml(l) => l.get_lang_name(),
            Lang::Php(l) => l.get_lang_name(),
            Lang::Pony(l) => l.get_lang_name(),
            Lang::Prolog(l) => l.get_lang_name(),
            Lang::Python(l) => l.get_lang_name(),
            Lang::Ruby(l) => l.get_lang_name(),
            Lang::Rust(l) => l.get_lang_name(),
            Lang::Shell(l) => l.get_lang_name(),
            Lang::Typescript(l) => l.get_lang_name(),
            Lang::Vb(l) => l.get_lang_name(),
        }
    }

    fn get_image_name(&self) -> String {
        match self {
            Lang::Apl(l) => l.get_image_name(),
            Lang::Asm(l) => l.get_image_name(),
            Lang::Asmx64(l) => l.get_image_name(),
            Lang::Asmx86(l) => l.get_image_name(),
            Lang::C(l) => l.get_image_name(),
            Lang::Cpp(l) => l.get_image_name(),
            Lang::Csharp(l) => l.get_image_name(),
            Lang::Go(l) => l.get_image_name(),
            Lang::Haskell(l) => l.get_image_name(),
            Lang::Java(l) => l.get_image_name(),
            Lang::JavaScript(l) => l.get_image_name(),
            Lang::Julia(l) => l.get_image_name(),
            Lang::Kotlin(l) => l.get_image_name(),
            Lang::Lua(l) => l.get_image_name(),
            Lang::OCaml(l) => l.get_image_name(),
            Lang::Php(l) => l.get_image_name(),
            Lang::Pony(l) => l.get_image_name(),
            Lang::Prolog(l) => l.get_image_name(),
            Lang::Python(l) => l.get_image_name(),
            Lang::Ruby(l) => l.get_image_name(),
            Lang::Rust(l) => l.get_image_name(),
            Lang::Shell(l) => l.get_image_name(),
            Lang::Typescript(l) => l.get_image_name(),
            Lang::Vb(l) => l.get_image_name(),
        }
    }

    fn get_source_file_ext(&self) -> String {
        match self {
            Lang::Apl(l) => l.get_source_file_ext(),
            Lang::Asm(l) => l.get_source_file_ext(),
            Lang::Asmx64(l) => l.get_source_file_ext(),
            Lang::Asmx86(l) => l.get_source_file_ext(),
            Lang::C(l) => l.get_source_file_ext(),
            Lang::Cpp(l) => l.get_source_file_ext(),
            Lang::Csharp(l) => l.get_source_file_ext(),
            Lang::Go(l) => l.get_source_file_ext(),
            Lang::Haskell(l) => l.get_source_file_ext(),
            Lang::Java(l) => l.get_source_file_ext(),
            Lang::JavaScript(l) => l.get_source_file_ext(),
            Lang::Julia(l) => l.get_source_file_ext(),
            Lang::Kotlin(l) => l.get_source_file_ext(),
            Lang::Lua(l) => l.get_source_file_ext(),
            Lang::OCaml(l) => l.get_source_file_ext(),
            Lang::Php(l) => l.get_source_file_ext(),
            Lang::Pony(l) => l.get_source_file_ext(),
            Lang::Prolog(l) => l.get_source_file_ext(),
            Lang::Python(l) => l.get_source_file_ext(),
            Lang::Ruby(l) => l.get_source_file_ext(),
            Lang::Rust(l) => l.get_source_file_ext(),
            Lang::Shell(l) => l.get_source_file_ext(),
            Lang::Typescript(l) => l.get_source_file_ext(),
            Lang::Vb(l) => l.get_source_file_ext(),
        }
    }

    fn pre_process_code(&self, code: &str, src_path: &str) -> Option<String> {
        match self {
            Lang::Apl(l) => l.pre_process_code(code, src_path),
            Lang::Asm(l) => l.pre_process_code(code, src_path),
            Lang::Asmx64(l) => l.pre_process_code(code, src_path),
            Lang::Asmx86(l) => l.pre_process_code(code, src_path),
            Lang::C(l) => l.pre_process_code(code, src_path),
            Lang::Cpp(l) => l.pre_process_code(code, src_path),
            Lang::Csharp(l) => l.pre_process_code(code, src_path),
            Lang::Go(l) => l.pre_process_code(code, src_path),
            Lang::Haskell(l) => l.pre_process_code(code, src_path),
            Lang::Java(l) => l.pre_process_code(code, src_path),
            Lang::JavaScript(l) => l.pre_process_code(code, src_path),
            Lang::Julia(l) => l.pre_process_code(code, src_path),
            Lang::Kotlin(l) => l.pre_process_code(code, src_path),
            Lang::Lua(l) => l.pre_process_code(code, src_path),
            Lang::OCaml(l) => l.pre_process_code(code, src_path),
            Lang::Php(l) => l.pre_process_code(code, src_path),
            Lang::Pony(l) => l.pre_process_code(code, src_path),
            Lang::Prolog(l) => l.pre_process_code(code, src_path),
            Lang::Python(l) => l.pre_process_code(code, src_path),
            Lang::Ruby(l) => l.pre_process_code(code, src_path),
            Lang::Rust(l) => l.pre_process_code(code, src_path),
            Lang::Shell(l) => l.pre_process_code(code, src_path),
            Lang::Typescript(l) => l.pre_process_code(code, src_path),
            Lang::Vb(l) => l.pre_process_code(code, src_path),
        }
    }

    fn get_out_path(&self, src_path: &str) -> String {
        match self {
            Lang::Apl(l) => l.get_out_path(src_path),
            Lang::Asm(l) => l.get_out_path(src_path),
            Lang::Asmx64(l) => l.get_out_path(src_path),
            Lang::Asmx86(l) => l.get_out_path(src_path),
            Lang::C(l) => l.get_out_path(src_path),
            Lang::Cpp(l) => l.get_out_path(src_path),
            Lang::Csharp(l) => l.get_out_path(src_path),
            Lang::Go(l) => l.get_out_path(src_path),
            Lang::Haskell(l) => l.get_out_path(src_path),
            Lang::Java(l) => l.get_out_path(src_path),
            Lang::JavaScript(l) => l.get_out_path(src_path),
            Lang::Julia(l) => l.get_out_path(src_path),
            Lang::Kotlin(l) => l.get_out_path(src_path),
            Lang::Lua(l) => l.get_out_path(src_path),
            Lang::OCaml(l) => l.get_out_path(src_path),
            Lang::Php(l) => l.get_out_path(src_path),
            Lang::Pony(l) => l.get_out_path(src_path),
            Lang::Prolog(l) => l.get_out_path(src_path),
            Lang::Python(l) => l.get_out_path(src_path),
            Lang::Ruby(l) => l.get_out_path(src_path),
            Lang::Rust(l) => l.get_out_path(src_path),
            Lang::Shell(l) => l.get_out_path(src_path),
            Lang::Typescript(l) => l.get_out_path(src_path),
            Lang::Vb(l) => l.get_out_path(src_path),
        }
    }

    fn get_compiler_command(&self, src_path: &str, exe_path: &str) -> Option<Vec<Vec<String>>> {
        match self {
            Lang::Apl(l) => l.get_compiler_command(src_path, exe_path),
            Lang::Asm(l) => l.get_compiler_command(src_path, exe_path),
            Lang::Asmx64(l) => l.get_compiler_command(src_path, exe_path),
            Lang::Asmx86(l) => l.get_compiler_command(src_path, exe_path),
            Lang::C(l) => l.get_compiler_command(src_path, exe_path),
            Lang::Cpp(l) => l.get_compiler_command(src_path, exe_path),
            Lang::Csharp(l) => l.get_compiler_command(src_path, exe_path),
            Lang::Go(l) => l.get_compiler_command(src_path, exe_path),
            Lang::Haskell(l) => l.get_compiler_command(src_path, exe_path),
            Lang::Java(l) => l.get_compiler_command(src_path, exe_path),
            Lang::JavaScript(l) => l.get_compiler_command(src_path, exe_path),
            Lang::Julia(l) => l.get_compiler_command(src_path, exe_path),
            Lang::Kotlin(l) => l.get_compiler_command(src_path, exe_path),
            Lang::Lua(l) => l.get_compiler_command(src_path, exe_path),
            Lang::OCaml(l) => l.get_compiler_command(src_path, exe_path),
            Lang::Php(l) => l.get_compiler_command(src_path, exe_path),
            Lang::Pony(l) => l.get_compiler_command(src_path, exe_path),
            Lang::Prolog(l) => l.get_compiler_command(src_path, exe_path),
            Lang::Python(l) => l.get_compiler_command(src_path, exe_path),
            Lang::Ruby(l) => l.get_compiler_command(src_path, exe_path),
            Lang::Rust(l) => l.get_compiler_command(src_path, exe_path),
            Lang::Shell(l) => l.get_compiler_command(src_path, exe_path),
            Lang::Typescript(l) => l.get_compiler_command(src_path, exe_path),
            Lang::Vb(l) => l.get_compiler_command(src_path, exe_path),
        }
    }

    fn get_execution_command(&self, path: &str) -> Vec<String> {
        match self {
            Lang::Apl(l) => l.get_execution_command(path),
            Lang::Asm(l) => l.get_execution_command(path),
            Lang::Asmx64(l) => l.get_execution_command(path),
            Lang::Asmx86(l) => l.get_execution_command(path),
            Lang::C(l) => l.get_execution_command(path),
            Lang::Cpp(l) => l.get_execution_command(path),
            Lang::Csharp(l) => l.get_execution_command(path),
            Lang::Go(l) => l.get_execution_command(path),
            Lang::Haskell(l) => l.get_execution_command(path),
            Lang::Java(l) => l.get_execution_command(path),
            Lang::JavaScript(l) => l.get_execution_command(path),
            Lang::Julia(l) => l.get_execution_command(path),
            Lang::Kotlin(l) => l.get_execution_command(path),
            Lang::Lua(l) => l.get_execution_command(path),
            Lang::OCaml(l) => l.get_execution_command(path),
            Lang::Php(l) => l.get_execution_command(path),
            Lang::Pony(l) => l.get_execution_command(path),
            Lang::Prolog(l) => l.get_execution_command(path),
            Lang::Python(l) => l.get_execution_command(path),
            Lang::Ruby(l) => l.get_execution_command(path),
            Lang::Rust(l) => l.get_execution_command(path),
            Lang::Shell(l) => l.get_execution_command(path),
            Lang::Typescript(l) => l.get_execution_command(path),
            Lang::Vb(l) => l.get_execution_command(path),
        }
    }

    fn check_compiler_or_interpreter(&self) -> String {
        match self {
            Lang::Apl(l) => l.check_compiler_or_interpreter(),
            Lang::Asm(l) => l.check_compiler_or_interpreter(),
            Lang::Asmx64(l) => l.check_compiler_or_interpreter(),
            Lang::Asmx86(l) => l.check_compiler_or_interpreter(),
            Lang::C(l) => l.check_compiler_or_interpreter(),
            Lang::Cpp(l) => l.check_compiler_or_interpreter(),
            Lang::Csharp(l) => l.check_compiler_or_interpreter(),
            Lang::Go(l) => l.check_compiler_or_interpreter(),
            Lang::Haskell(l) => l.check_compiler_or_interpreter(),
            Lang::Java(l) => l.check_compiler_or_interpreter(),
            Lang::JavaScript(l) => l.check_compiler_or_interpreter(),
            Lang::Julia(l) => l.check_compiler_or_interpreter(),
            Lang::Kotlin(l) => l.check_compiler_or_interpreter(),
            Lang::Lua(l) => l.check_compiler_or_interpreter(),
            Lang::OCaml(l) => l.check_compiler_or_interpreter(),
            Lang::Php(l) => l.check_compiler_or_interpreter(),
            Lang::Pony(l) => l.check_compiler_or_interpreter(),
            Lang::Prolog(l) => l.check_compiler_or_interpreter(),
            Lang::Python(l) => l.check_compiler_or_interpreter(),
            Lang::Ruby(l) => l.check_compiler_or_interpreter(),
            Lang::Rust(l) => l.check_compiler_or_interpreter(),
            Lang::Shell(l) => l.check_compiler_or_interpreter(),
            Lang::Typescript(l) => l.check_compiler_or_interpreter(),
            Lang::Vb(l) => l.check_compiler_or_interpreter(),
        }
    }
}

} // verus!
