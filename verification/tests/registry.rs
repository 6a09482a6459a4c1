use rustacean::lang_manager::{get_lang, ExecError, LangManager};
use rustacean::langs::Lang;
use rustacean::language::Language;

fn all_available() -> LangManager {
    let mut mngr = LangManager::new();
    let mut names: Vec<String> = Vec::new();
    for entry in mngr.get_languages() {
        names.push(entry.lang.get_lang_name());
    }
    for name in names {
        mngr.set_language_available(name, true);
    }
    mngr
}

#[test]
fn lookup_finds_each_code() {
    let mngr = LangManager::new();
    assert!(matches!(mngr.get("rs"), Some(Lang::Rust(_))));
    assert!(matches!(mngr.get("rust"), Some(Lang::Rust(_))));
    assert!(matches!(mngr.get("c"), Some(Lang::C(_))));
    assert!(matches!(mngr.get("cpp"), Some(Lang::Cpp(_))));
    assert!(matches!(mngr.get("asm_x86_64"), Some(Lang::Asmx64(_))));
    assert!(matches!(mngr.get("kt"), Some(Lang::Kotlin(_))));
    assert!(matches!(mngr.get("prolog"), Some(Lang::Prolog(_))));
    assert!(mngr.get("brainfck").is_none());
    assert!(mngr.get("").is_none());
}

#[test]
fn lookup_is_case_insensitive() {
    let mngr = all_available();
    assert!(matches!(get_lang(&mngr, "RuSt"), Ok(Lang::Rust(_))));
    assert!(matches!(get_lang(&mngr, "RS"), Ok(Lang::Rust(_))));
    assert!(matches!(get_lang(&mngr, "rs"), Ok(Lang::Rust(_))));
    assert!(matches!(get_lang(&mngr, "PYTHON"), Ok(Lang::Python(_))));
    assert!(matches!(get_lang(&mngr, "Asm_X86_64"), Ok(Lang::Asmx64(_))));
}

#[test]
fn unknown_language_lists_sorted_available_codes() {
    let mut mngr = LangManager::new();
    mngr.set_language_available("Rust".to_string(), true);
    mngr.set_language_available("C".to_string(), true);
    mngr.set_language_available("C++".to_string(), true);
    match get_lang(&mngr, "brainfck") {
        Err(ExecError::UnknownLanguage { available }) => {
            assert_eq!(available, "c, cpp, rs, rust");
        }
        other => panic!("expected an unknown-language error, got {:?}", other),
    }
}

#[test]
fn unavailable_language_is_still_resolvable_but_refused() {
    let mngr = LangManager::new();
    assert!(matches!(mngr.get("rs"), Some(Lang::Rust(_))));
    assert!(matches!(get_lang(&mngr, "rs"), Err(ExecError::LanguageUnavailable)));
    let msg = ExecError::LanguageUnavailable.message();
    assert_eq!(msg, "This programming language is currently unavailable.");
}

#[test]
fn unknown_language_message_embeds_codes() {
    let err = ExecError::UnknownLanguage { available: "c, rs".to_string() };
    assert_eq!(
        err.message(),
        "Unknown programming language\nHere are the languages available: c, rs"
    );
}

#[test]
fn languages_list_is_sorted_and_complete() {
    let mngr = all_available();
    assert_eq!(
        mngr.get_languages_list(),
        "asm_x64, asm_x86, asm_x86_64, asmx64, asmx86, asmx86_64, c, cpp, cs, csharp, go, \
         haskell, hs, java, javascript, js, julia, kotlin, kt, lua, php, prolog, py, python, \
         rb, rs, ruby, rust, sh, shell, ts, typescript, vb, vbnet"
    );
}

#[test]
fn languages_list_empty_when_nothing_probed() {
    let mngr = LangManager::new();
    assert_eq!(mngr.get_languages_list(), "");
}

#[test]
fn availability_flips_with_probe_outcomes() {
    let mut mngr = LangManager::new();
    let rust = Lang::Rust(rustacean::langs::Rust);
    assert!(!mngr.is_language_available(&rust));
    mngr.set_language_available("Rust".to_string(), true);
    assert!(mngr.is_language_available(&rust));
    mngr.set_language_available("Rust".to_string(), false);
    assert!(!mngr.is_language_available(&rust));
}

#[test]
fn version_cache_round_trip() {
    let mut mngr = LangManager::new();
    let rust = Lang::Rust(rustacean::langs::Rust);
    assert!(mngr.get_language_version(&rust).is_none());
    mngr.set_language_version("Rust".to_string(), Some("rustc 1.41.0".to_string()));
    assert_eq!(mngr.get_language_version(&rust), Some("rustc 1.41.0".to_string()));
    let go = Lang::Go(rustacean::langs::Go);
    assert!(mngr.get_language_version(&go).is_none());
}

#[test]
fn probe_commands_name_the_image_by_convention() {
    let build = rustacean::lang_manager::image_build_command("C++");
    assert_eq!(
        build,
        vec![
            "build".to_string(),
            "-t".to_string(),
            "rustacean-c++".to_string(),
            "-f".to_string(),
            "images/Dockerfile.c++".to_string(),
            ".".to_string(),
        ]
    );
    let probe = rustacean::lang_manager::version_probe_command("Rust", "rustc --version");
    assert_eq!(
        probe,
        vec![
            "run".to_string(),
            "-t".to_string(),
            "rustacean-rust".to_string(),
            "/bin/bash".to_string(),
            "-c".to_string(),
            "rustc --version".to_string(),
        ]
    );
}
