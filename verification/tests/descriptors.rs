use rustacean::langs::{
    Apl, Asm, Asmx64, Asmx86, C, Cpp, Csharp, Go, Haskell, Java, JavaScript, Julia, Kotlin, Lua,
    OCaml, Php, Pony, Prolog, Python, Ruby, Rust, Shell, Typescript, Vb,
};
use rustacean::language::Language;

fn argv(parts: &[&str]) -> Vec<String> {
    parts.iter().map(|p| p.to_string()).collect()
}

#[test]
fn names_images_and_extensions() {
    assert_eq!(C.get_lang_name(), "C");
    assert_eq!(C.get_image_name(), "rustacean-c");
    assert_eq!(C.get_source_file_ext(), ".c");
    assert_eq!(Cpp.get_lang_name(), "C++");
    assert_eq!(Cpp.get_image_name(), "rustacean-c++");
    assert_eq!(Rust.get_source_file_ext(), ".rs");
    assert_eq!(Csharp.get_lang_name(), "CSharp");
    assert_eq!(Vb.get_image_name(), "rustacean-vb.net");
    assert_eq!(Asmx86.get_lang_name(), "Asm32");
    assert_eq!(Asmx64.get_lang_name(), "Asm64");
    assert_eq!(Asm.get_lang_name(), "Asm");
    assert_eq!(Apl.get_lang_name(), "apl");
    assert_eq!(OCaml.get_source_file_ext(), ".ml");
    assert_eq!(Pony.get_image_name(), "rustacean-pony");
    assert_eq!(JavaScript.get_interpreter(), "nodejs");
    assert_eq!(Python.get_interpreter(), "python3");
    assert_eq!(Lua.get_interpreter(), "lua5.3");
    assert_eq!(Ruby.get_interpreter(), "ruby");
    assert_eq!(Kotlin.get_compiler(), "kotlinc");
    assert_eq!(Vb.get_compiler(), "vbnc");
}

#[test]
fn default_out_path_appends_out() {
    assert_eq!(C.get_out_path("/home/x.c"), "/home/x.c.out");
    assert_eq!(Shell.get_out_path("/home/x.sh"), "/home/x.sh.out");
    // languages that need a fixed artifact name override it
    assert_eq!(Java.get_out_path("/home/Xy9.java"), "Xy9");
    assert_eq!(Kotlin.get_out_path("/home/Kq2.kt"), "Kq2");
    assert_eq!(Pony.get_out_path("/home/p.pony"), "/home//home");
}

#[test]
fn compile_commands_are_structured_argv_steps() {
    assert_eq!(
        C.get_compiler_command("/home/x.c", "/home/x.c.out"),
        Some(vec![argv(&["gcc", "/home/x.c", "-o", "/home/x.c.out"])])
    );
    assert_eq!(
        Asmx64.get_compiler_command("/home/a.asm", "/home/a.asm.out"),
        Some(vec![
            argv(&["nasm", "-f", "elf32", "/home/a.asm"]),
            argv(&["ld", "a.o", "-o", "/home/a.asm.out"]),
        ])
    );
    assert_eq!(
        Asm.get_compiler_command("/home/a.asm", "/home/a.asm.out"),
        Some(vec![
            argv(&["nasm", "-f", "elf64", "/home/a.asm"]),
            argv(&["ld", "a.o", "-o", "/home/a.asm.out"]),
        ])
    );
    assert_eq!(
        Csharp.get_compiler_command("/home/x.cs", "/home/x.cs.out"),
        Some(vec![argv(&[
            "mcs",
            "-out:/home/x.cs.out",
            "-target:winexe",
            "-nologo",
            "/home/x.cs"
        ])])
    );
    assert_eq!(
        Vb.get_compiler_command("/home/x.vb", "/home/x.vb.out"),
        Some(vec![argv(&[
            "vbnc",
            "/out:/home/x.vb.out",
            "/target:winexe",
            "/nologo",
            "/quiet",
            "/home/x.vb"
        ])])
    );
    assert_eq!(
        Kotlin.get_compiler_command("/home/Kq2.kt", "Kq2"),
        Some(vec![argv(&[
            "kotlinc",
            "/home/Kq2.kt",
            "-include-runtime",
            "-d",
            "Kq2.jar"
        ])])
    );
    assert_eq!(
        Go.get_compiler_command("/home/x.go", "/home/x.go.out"),
        Some(vec![argv(&["go", "build", "-o", "/home/x.go.out"])])
    );
    assert_eq!(
        Pony.get_compiler_command("/home/p.pony", "ignored"),
        Some(vec![argv(&["ponyc", "/home", "-V", "0"])])
    );
    // interpreted languages have no compile phase at all
    assert_eq!(Python.get_compiler_command("/home/x.py", "/home/x.py.out"), None);
    assert_eq!(Php.get_compiler_command("a", "b"), None);
    assert_eq!(Ruby.get_compiler_command("a", "b"), None);
    assert_eq!(JavaScript.get_compiler_command("a", "b"), None);
    assert_eq!(Julia.get_compiler_command("a", "b"), None);
    assert_eq!(Shell.get_compiler_command("a", "b"), None);
    assert_eq!(OCaml.get_compiler_command("a", "b"), None);
    assert_eq!(Prolog.get_compiler_command("a", "b"), None);
}

#[test]
fn execution_commands_accept_the_artifact_path() {
    assert_eq!(C.get_execution_command("/home/x.c.out"), argv(&["/home/x.c.out"]));
    assert_eq!(Python.get_execution_command("/home/x.py.out"), argv(&["python3", "/home/x.py.out"]));
    assert_eq!(Java.get_execution_command("Xy9"), argv(&["java", "Xy9"]));
    assert_eq!(Kotlin.get_execution_command("Kq2"), argv(&["java", "-jar", "Kq2.jar"]));
    assert_eq!(Typescript.get_execution_command("/home/x.ts.out"), argv(&["node", "/home/x.ts.out.js"]));
    assert_eq!(Prolog.get_execution_command("/home/x.pl.out"), argv(&["swipl", "-q", "/home/x.pl.out"]));
    assert_eq!(Vb.get_execution_command("/home/x.vb.out"), argv(&["mono", "/home/x.vb.out"]));
}

#[test]
fn probes_are_cheap_version_checks() {
    assert_eq!(C.check_compiler_or_interpreter(), "gcc --version");
    assert_eq!(Rust.check_compiler_or_interpreter(), "rustc --version");
    assert_eq!(Shell.check_compiler_or_interpreter(), "$SHELL --version");
    assert_eq!(Asmx86.check_compiler_or_interpreter(), "nasm -version && ld -version");
    assert_eq!(Typescript.check_compiler_or_interpreter(), "tsc -v");
}

#[test]
fn c_fragment_is_wrapped_but_full_program_is_kept() {
    let wrapped = C.pre_process_code("printf(\"test\");\nreturn 5;", "/home/x.c");
    assert_eq!(
        wrapped,
        Some(
            "#include <stdio.h>\r\n#include <stdlib.h>\r\nint main(int argc, char** argv) {\r\n\
             printf(\"test\");\nreturn 5;\r\n}"
                .to_string()
        )
    );
    let full = "#include <stdio.h>\n int main() { \nprintf(\"test\");\n return 0;\n }";
    assert_eq!(C.pre_process_code(full, "/home/x.c"), None);
}

#[test]
fn rust_and_kotlin_wrap_bare_fragments() {
    assert_eq!(
        Rust.pre_process_code("print!(\"test\");", "/home/x.rs"),
        Some("fn main() {\r\nprint!(\"test\");\r\n}".to_string())
    );
    assert_eq!(Rust.pre_process_code("fn main() { print!(\"test\"); }", "/home/x.rs"), None);
    assert_eq!(
        Kotlin.pre_process_code("print(\"test\")", "/home/x.kt"),
        Some("fun main() {\r\nprint(\"test\")\r\n}".to_string())
    );
    assert_eq!(
        Kotlin.pre_process_code("fun main(args: Array<String>) {\nprint(\"test\")\n}", "/home/x.kt"),
        None
    );
}

#[test]
fn php_prepends_an_opening_tag_only_when_missing() {
    assert_eq!(
        Php.pre_process_code("abc <?php echo \"test\";", "/home/x.php"),
        None
    );
    assert_eq!(
        Php.pre_process_code("echo \"test\";", "/home/x.php"),
        Some("<?php\r\necho \"test\";".to_string())
    );
}

#[test]
fn java_renames_the_class_after_the_file() {
    let code = "public class HelloWorld { public static void main(String[] args) { System.out.print(\"test\"); } }";
    let renamed = Java.pre_process_code(code, "/home/Xy9.java").unwrap();
    assert!(renamed.contains("Xy9"));
    assert!(!renamed.contains("HelloWorld"));
    assert!(renamed.contains("public static void main"));

    let wrapped = Java
        .pre_process_code("System.out.print(\"test\");", "/home/Xy9.java")
        .unwrap();
    assert_eq!(
        wrapped,
        "\npublic class Xy9 {\n    public static void main(String[] args) {\n        \
         System.out.print(\"test\");\n    }\n}"
    );
}

#[test]
fn csharp_and_vb_wrap_fragments_in_modules() {
    let wrapped = Csharp
        .pre_process_code("Console.Write(\"test\");", "/home/x.cs")
        .unwrap();
    assert_eq!(
        wrapped,
        "\nusing System;\n\npublic class Program\n{\n    public static void Main()\n    {\n        \
         Console.Write(\"test\");\n    }\n}"
    );
    assert_eq!(
        Csharp.pre_process_code(
            "using System; class Hello { static void Main() { Console.Write(\"test\"); } }",
            "/home/x.cs"
        ),
        None
    );
    let vb = Vb.pre_process_code("Console.Write(\"test\")", "/home/x.vb").unwrap();
    assert_eq!(
        vb,
        "\nImports System\n\nModule Program\n    Sub Main()\n        Console.Write(\"test\")\
         \n    End Sub\nEnd Module"
    );
    assert_eq!(
        Vb.pre_process_code(
            "Imports System\r\nModule HelloWorld\r\nSub Main()\r\nConsole.Write(\"test\")\r\nEnd Sub\r\nEnd Module",
            "/home/x.vb"
        ),
        None
    );
}

#[test]
fn prolog_always_adds_its_solver_prelude() {
    assert_eq!(
        Prolog.pre_process_code("likes(tom, jerry).", "/home/x.pl"),
        Some("sol(Goal):-call(Goal),write(true); write(false).\nlikes(tom, jerry).".to_string())
    );
    // the halt pattern asks for a literal "/m" tail after "halt."
    assert_eq!(
        Prolog.pre_process_code("main.\nhalt./m", "/home/x.pl"),
        Some(
            "sol(Goal):-call(Goal),write(true);write(false).\nmain.\nhalt./m\nhalt."
                .to_string()
        )
    );
}

#[test]
fn pony_wraps_fragments_and_keeps_programs() {
    let wrapped = Pony.pre_process_code("env.out.print(\"test\")", "/home/p.pony").unwrap();
    assert!(wrapped.starts_with("use \"random\""));
    assert!(wrapped.ends_with("env.out.print(\"test\")"));
    let full = "actor Main new create(env: Env) => env.out.print(\"hi\")";
    assert_eq!(Pony.pre_process_code(full, "/home/p.pony"), Some(full.to_string()));
}

#[test]
fn languages_without_preprocessing_keep_the_code() {
    assert_eq!(Python.pre_process_code("print('test')", "/home/x.py"), None);
    assert_eq!(Go.pre_process_code("package main", "/home/x.go"), None);
    assert_eq!(Haskell.pre_process_code("main = putStr \"t\"", "/home/x.hs"), None);
    assert_eq!(Julia.pre_process_code("print(\"t\")", "/home/x.jl"), None);
}

#[test]
fn logo_urls_use_the_lowercased_name() {
    assert_eq!(
        Cpp.get_logo_url(),
        "https://raw.githubusercontent.com/Kryod/rustacean/master/logos/c++.png"
    );
    assert_eq!(
        Rust.get_logo_url(),
        "https://raw.githubusercontent.com/Kryod/rustacean/master/logos/rust.png"
    );
    assert_eq!(
        Vb.get_logo_url(),
        "https://raw.githubusercontent.com/Kryod/rustacean/master/logos/vb.net.png"
    );
}
