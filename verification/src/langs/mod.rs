//! One policy object per supported language.

pub mod apl;
pub mod asmx64;
pub mod asmx86;
pub mod assembly;
pub mod c;
pub mod dispatch;
pub mod cpp;
pub mod csharp;
pub mod go;
pub mod haskell;
pub mod java;
pub mod javascript;
pub mod julia;
pub mod kotlin;
pub mod lua;
pub mod ocaml;
pub mod php;
pub mod pony;
pub mod prolog;
pub mod python;
pub mod ruby;
pub mod rust;
pub mod shell;
pub mod typescript;
pub mod vb;

pub use apl::Apl;
pub use asmx64::Asmx64;
pub use asmx86::Asmx86;
pub use assembly::Asm;
pub use c::C;
pub use cpp::Cpp;
pub use dispatch::Lang;
pub use csharp::Csharp;
pub use go::Go;
pub use haskell::Haskell;
pub use java::Java;
pub use javascript::JavaScript;
pub use julia::Julia;
pub use kotlin::Kotlin;
pub use lua::Lua;
pub use ocaml::OCaml;
pub use php::Php;
pub use pony::Pony;
pub use prolog::Prolog;
pub use python::Python;
pub use ruby::Ruby;
pub use rust::Rust;
pub use shell::Shell;
pub use typescript::Typescript;
pub use vb::Vb;
