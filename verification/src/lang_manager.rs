//! The language registry: descriptors keyed by case-folded lookup codes,
//! with per-language availability and cached version strings, probed by an
//! explicit pass and read on every lookup.

use vstd::prelude::*;

use crate::langs::Asmx64;
use crate::langs::Asmx86;
use crate::langs::C;
use crate::langs::Cpp;
use crate::langs::Csharp;
use crate::langs::Go;
use crate::langs::Haskell;
use crate::langs::Java;
use crate::langs::JavaScript;
use crate::langs::Julia;
use crate::langs::Kotlin;
use crate::langs::Lang;
use crate::langs::Lua;
use crate::langs::Php;
use crate::langs::Prolog;
use crate::langs::Python;
use crate::langs::Ruby;
use crate::langs::Rust;
use crate::langs::Shell;
use crate::langs::Typescript;
use crate::langs::Vb;
use crate::language::argv1;
use crate::language::argv2;
use crate::language::argv4;
use crate::language::Language;
use crate::strutil::join_strings;
use crate::strutil::join_with;
use crate::strutil::lower_seq;
use crate::strutil::sort_codes;
use crate::strutil::sort_strings;
use crate::strutil::str_eq;
use crate::strutil::to_lower_str;

verus! {

/// One registered language: its lookup codes and its policy object.
#[derive(Debug)]
pub struct LangEntry {
    pub codes: Vec<String>,
    pub lang: Lang,
}

impl LangEntry {
    /// The entry declares this lookup code.
    pub open spec fn has_code(&self, code: Seq<char>) -> bool {
        exists|j: int| 0 <= j < self.codes@.len() && self.codes@[j]@ == code
    }
}

/// The registry: the descriptor table plus the availability map and the
/// version cache, both indexed like the table.
pub struct LangManager {
    pub entries: Vec<LangEntry>,
    pub availability: Vec<bool>,
    pub versions: Vec<Option<String>>,
}

/// The first registered descriptor declaring `code`, scanning the table in
/// registration order.
pub open spec fn spec_lookup(entries: Seq<LangEntry>, code: Seq<char>) -> Option<Lang>
    decreases entries.len(),
{
    if entries.len() == 0 {
        None
    } else if entries[0].has_code(code) {
        Some(entries[0].lang)
    } else {
        spec_lookup(entries.drop_first(), code)
    }
}

/// The index of the first entry whose language carries `name`.
pub open spec fn spec_name_index(entries: Seq<LangEntry>, name: Seq<char>) -> Option<int>
    decreases entries.len(),
{
    if entries.len() == 0 {
        None
    } else if entries[0].lang.spec_lang_name() == name {
        Some(0)
    } else {
        match spec_name_index(entries.drop_first(), name) {
            Some(i) => Some(i + 1),
            None => None,
        }
    }
}

/// The full registration table: each supported language with its lookup
/// codes, in registration order.
pub open spec fn registry_table() -> Seq<(Seq<Seq<char>>, Lang)> {
    seq![
        (seq!["rs"@, "rust"@], Lang::Rust(Rust)),
        (seq!["c"@], Lang::C(C)),
        (seq!["cpp"@], Lang::Cpp(Cpp)),
        (seq!["php"@], Lang::Php(Php)),
        (seq!["lua"@], Lang::Lua(Lua)),
        (seq!["asmx86"@, "asm_x86"@], Lang::Asmx86(Asmx86)),
        (seq!["hs"@, "haskell"@], Lang::Haskell(Haskell)),
        (seq!["asmx64"@, "asm_x64"@, "asm_x86_64"@, "asmx86_64"@], Lang::Asmx64(Asmx64)),
        (seq!["kt"@, "kotlin"@], Lang::Kotlin(Kotlin)),
        (seq!["sh"@, "shell"@], Lang::Shell(Shell)),
        (seq!["py"@, "python"@], Lang::Python(Python)),
        (seq!["rb"@, "ruby"@], Lang::Ruby(Ruby)),
        (seq!["js"@, "javascript"@], Lang::JavaScript(JavaScript)),
        (seq!["ts"@, "typescript"@], Lang::Typescript(Typescript)),
        (seq!["cs"@, "csharp"@], Lang::Csharp(Csharp)),
        (seq!["vb"@, "vbnet"@], Lang::Vb(Vb)),
        (seq!["java"@], Lang::Java(Java)),
        (seq!["julia"@], Lang::Julia(Julia)),
        (seq!["go"@], Lang::Go(Go)),
        (seq!["prolog"@], Lang::Prolog(Prolog)),
    ]
}

fn entry1(a: &str, lang: Lang) -> (r: LangEntry)
    ensures
        r.codes.deep_view() == seq![a@],
        r.lang == lang,
{
    LangEntry { codes: argv1(a), lang }
}

fn entry2(a: &str, b: &str, lang: Lang) -> (r: LangEntry)
    ensures
        r.codes.deep_view() == seq![a@, b@],
        r.lang == lang,
{
    LangEntry { codes: argv2(a, b), lang }
}

fn entry4(a: &str, b: &str, c: &str, d: &str, lang: Lang) -> (r: LangEntry)
    ensures
        r.codes.deep_view() == seq![a@, b@, c@, d@],
        r.lang == lang,
{
    LangEntry { codes: argv4(a, b, c, d), lang }
}

impl LangManager {
    /// The three columns of the registry stay aligned.
    pub open spec fn wf(&self) -> bool {
        &&& self.availability@.len() == self.entries@.len()
        &&& self.versions@.len() == self.entries@.len()
    }

    /// Whether the language called `name` has been probed available.
    pub open spec fn spec_available(&self, name: Seq<char>) -> bool {
        match spec_name_index(self.entries@, name) {
            Some(i) => 0 <= i < self.availability@.len() && self.availability@[i],
            None => false,
        }
    }

    /// The cached version string of the language called `name`.
    pub open spec fn spec_version(&self, name: Seq<char>) -> Option<Seq<char>> {
        match spec_name_index(self.entries@, name) {
            Some(i) => if 0 <= i < self.versions@.len() && self.versions@[i] is Some {
                Some(self.versions@[i]->0@)
            } else {
                None
            },
            None => None,
        }
    }

    /// The registered codes and languages, without the mutable columns.
    pub open spec fn codes_table(&self) -> Seq<(Seq<Seq<char>>, Lang)> {
        self.entries@.map_values(|e: LangEntry| (e.codes.deep_view(), e.lang))
    }

    /// Builds the registry with every supported language, none probed yet.
    pub fn new() -> (r: LangManager)
        ensures
            r.wf(),
            r.codes_table() == registry_table(),
            forall|i: int| 0 <= i < r.availability@.len() ==> !r.availability@[i],
            forall|i: int| 0 <= i < r.versions@.len() ==> r.versions@[i] is None,
    {
        let mut entries: Vec<LangEntry> = Vec::new();
        entries.push(entry2("rs", "rust", Lang::Rust(Rust)));
        entries.push(entry1("c", Lang::C(C)));
        entries.push(entry1("cpp", Lang::Cpp(Cpp)));
        entries.push(entry1("php", Lang::Php(Php)));
        entries.push(entry1("lua", Lang::Lua(Lua)));
        entries.push(entry2("asmx86", "asm_x86", Lang::Asmx86(Asmx86)));
        entries.push(entry2("hs", "haskell", Lang::Haskell(Haskell)));
        entries.push(entry4("asmx64", "asm_x64", "asm_x86_64", "asmx86_64", Lang::Asmx64(Asmx64)));
        entries.push(entry2("kt", "kotlin", Lang::Kotlin(Kotlin)));
        entries.push(entry2("sh", "shell", Lang::Shell(Shell)));
        entries.push(entry2("py", "python", Lang::Python(Python)));
        entries.push(entry2("rb", "ruby", Lang::Ruby(Ruby)));
        entries.push(entry2("js", "javascript", Lang::JavaScript(JavaScript)));
        entries.push(entry2("ts", "typescript", Lang::Typescript(Typescript)));
        entries.push(entry2("cs", "csharp", Lang::Csharp(Csharp)));
        entries.push(entry2("vb", "vbnet", Lang::Vb(Vb)));
        entries.push(entry1("java", Lang::Java(Java)));
        entries.push(entry1("julia", Lang::Julia(Julia)));
        entries.push(entry1("go", Lang::Go(Go)));
        entries.push(entry1("prolog", Lang::Prolog(Prolog)));
        let n: usize = entries.len();
        let mut availability: Vec<bool> = Vec::new();
        let mut versions: Vec<Option<String>> = Vec::new();
        for i in 0..n
            invariant
                availability@.len() == i,
                versions@.len() == i,
                forall|k: int| 0 <= k < i ==> !availability@[k],
                forall|k: int| 0 <= k < i ==> versions@[k] is None,
        {
            availability.push(false);
            versions.push(None);
        }
        let r = LangManager { entries, availability, versions };
        proof {
            assert(r.codes_table() =~= registry_table());
        }
        r
    }

    /// Resolves a lookup code (already case-folded by the caller) to its
    /// descriptor.
    pub fn get(&self, lang: &str) -> (r: Option<Lang>)
        ensures
            r == spec_lookup(self.entries@, lang@),
    {
        let n: usize = self.entries.len();
        proof {
            assert(self.entries@.skip(0) =~= self.entries@);
        }
        for i in 0..n
            invariant
                n == self.entries@.len(),
                spec_lookup(self.entries@, lang@) == spec_lookup(
                    self.entries@.skip(i as int),
                    lang@,
                ),
        {
            let entry = &self.entries[i];
            let m: usize = entry.codes.len();
            for j in 0..m
                invariant
                    n == self.entries@.len(),
                    i < n,
                    m == self.entries@[i as int].codes@.len(),
                    entry == self.entries@[i as int],
                    spec_lookup(self.entries@, lang@) == spec_lookup(
                        self.entries@.skip(i as int),
                        lang@,
                    ),
                    forall|k: int| 0 <= k < j ==> self.entries@[i as int].codes@[k]@ != lang@,
            {
                if str_eq(entry.codes[j].as_str(), lang) {
                    proof {
                        let tail = self.entries@.skip(i as int);
                        assert(tail[0] == self.entries@[i as int]);
                        assert(tail[0].has_code(lang@));
                    }
                    return Some(entry.lang);
                }
            }
            proof {
                let tail = self.entries@.skip(i as int);
                assert(tail[0] == self.entries@[i as int]);
                assert(!tail[0].has_code(lang@));
                assert(tail.drop_first() =~= self.entries@.skip(i + 1));
            }
        }
        proof {
            assert(self.entries@.skip(n as int) =~= Seq::<LangEntry>::empty());
        }
        None
    }

    /// The availability gate consulted before any execution.
    pub fn is_language_available(&self, lang: &Lang) -> (r: bool)
        requires
            self.wf(),
        ensures
            r == self.spec_available(lang.spec_lang_name()),
    {
        let name = lang.get_lang_name();
        let n: usize = self.entries.len();
        proof {
            assert(self.entries@.skip(0) =~= self.entries@);
        }
        for i in 0..n
            invariant
                self.wf(),
                n == self.entries@.len(),
                name@ == lang.spec_lang_name(),
                spec_name_index(self.entries@, name@) == match spec_name_index(
                    self.entries@.skip(i as int),
                    name@,
                ) {
                    Some(k) => Some(k + i),
                    None => None::<int>,
                },
                forall|k: int| 0 <= k < i ==> self.entries@[k].lang.spec_lang_name() != name@,
        {
            let entry_name = self.entries[i].lang.get_lang_name();
            let ghost tail = self.entries@.skip(i as int);
            proof {
                assert(tail[0] == self.entries@[i as int]);
            }
            if str_eq(entry_name.as_str(), name.as_str()) {
                return self.availability[i];
            }
            proof {
                assert(tail.drop_first() =~= self.entries@.skip(i + 1));
            }
        }
        proof {
            assert(self.entries@.skip(n as int) =~= Seq::<LangEntry>::empty());
        }
        false
    }

    /// The cached version string for a descriptor, if it was probed.
    pub fn get_language_version(&self, lang: &Lang) -> (r: Option<String>)
        requires
            self.wf(),
        ensures
            match (r, self.spec_version(lang.spec_lang_name())) {
                (Some(a), Some(b)) => a@ == b,
                (None, None) => true,
                _ => false,
            },
    {
        let name = lang.get_lang_name();
        let n: usize = self.entries.len();
        proof {
            assert(self.entries@.skip(0) =~= self.entries@);
        }
        for i in 0..n
            invariant
                self.wf(),
                n == self.entries@.len(),
                name@ == lang.spec_lang_name(),
                spec_name_index(self.entries@, name@) == match spec_name_index(
                    self.entries@.skip(i as int),
                    name@,
                ) {
                    Some(k) => Some(k + i),
                    None => None::<int>,
                },
                forall|k: int| 0 <= k < i ==> self.entries@[k].lang.spec_lang_name() != name@,
        {
            let entry_name = self.entries[i].lang.get_lang_name();
            let ghost tail = self.entries@.skip(i as int);
            proof {
                assert(tail[0] == self.entries@[i as int]);
            }
            if str_eq(entry_name.as_str(), name.as_str()) {
                return match &self.versions[i] {
                    Some(v) => Some(v.clone()),
                    None => None,
                };
            }
            proof {
                assert(tail.drop_first() =~= self.entries@.skip(i + 1));
            }
        }
        proof {
            assert(self.entries@.skip(n as int) =~= Seq::<LangEntry>::empty());
        }
        None
    }

    /// Records a probe outcome for every entry carrying `lang`.
    pub fn set_language_available(&mut self, lang: String, availability: bool)
        requires
            old(self).wf(),
        ensures
            final(self).wf(),
            final(self).entries@ == old(self).entries@,
            final(self).versions@ == old(self).versions@,
            final(self).availability@.len() == old(self).availability@.len(),
            forall|i: int|
                0 <= i < old(self).availability@.len() ==> final(self).availability@[i] == (
                if old(self).entries@[i].lang.spec_lang_name() == lang@ {
                    availability
                } else {
                    old(self).availability@[i]
                }),
    {
        let n: usize = self.entries.len();
        for i in 0..n
            invariant
                self.wf(),
                n == self.entries@.len(),
                self.entries@ == old(self).entries@,
                self.versions@ == old(self).versions@,
                self.availability@.len() == old(self).availability@.len(),
                forall|k: int|
                    i <= k < n ==> self.availability@[k] == old(self).availability@[k],
                forall|k: int|
                    0 <= k < i ==> self.availability@[k] == (
                    if old(self).entries@[k].lang.spec_lang_name() == lang@ {
                        availability
                    } else {
                        old(self).availability@[k]
                    }),
        {
            let entry_name = self.entries[i].lang.get_lang_name();
            if str_eq(entry_name.as_str(), lang.as_str()) {
                self.availability.set(i, availability);
            }
        }
    }

    /// Caches a (possibly truncated) version string for every entry
    /// carrying `lang`.
    pub fn set_language_version(&mut self, lang: String, version: Option<String>)
        requires
            old(self).wf(),
        ensures
            final(self).wf(),
            final(self).entries@ == old(self).entries@,
            final(self).availability@ == old(self).availability@,
            final(self).versions@.len() == old(self).versions@.len(),
            forall|i: int|
                0 <= i < old(self).versions@.len() ==> final(self).versions@[i] == (
                if old(self).entries@[i].lang.spec_lang_name() == lang@ {
                    version
                } else {
                    old(self).versions@[i]
                }),
    {
        let n: usize = self.entries.len();
        for i in 0..n
            invariant
                self.wf(),
                n == self.entries@.len(),
                self.entries@ == old(self).entries@,
                self.availability@ == old(self).availability@,
                self.versions@.len() == old(self).versions@.len(),
                forall|k: int| i <= k < n ==> self.versions@[k] == old(self).versions@[k],
                forall|k: int|
                    0 <= k < i ==> self.versions@[k] == (
                    if old(self).entries@[k].lang.spec_lang_name() == lang@ {
                        version
                    } else {
                        old(self).versions@[k]
                    }),
        {
            let entry_name = self.entries[i].lang.get_lang_name();
            if str_eq(entry_name.as_str(), lang.as_str()) {
                let v = match &version {
                    Some(s) => Some(s.clone()),
                    None => None,
                };
                self.versions.set(i, v);
            }
        }
    }

    /// The descriptor table.
    pub fn get_languages(&self) -> (r: &Vec<LangEntry>)
        ensures
            r@ == self.entries@,
    {
        &self.entries
    }

    /// The lookup codes of every currently available language, from table
    /// position `i` on, in registration order.
    pub open spec fn available_codes_from(&self, i: int) -> Seq<Seq<char>>
        decreases self.entries@.len() - i,
    {
        if i < 0 || i >= self.entries@.len() {
            Seq::<Seq<char>>::empty()
        } else {
            (if self.spec_available(self.entries@[i].lang.spec_lang_name()) {
                self.entries@[i].codes.deep_view()
            } else {
                Seq::<Seq<char>>::empty()
            }) + self.available_codes_from(i + 1)
        }
    }

    /// The sorted, comma-separated list of codes of the currently
    /// available languages, as shown in user-facing messages.
    pub fn get_languages_list(&self) -> (r: String)
        requires
            self.wf(),
        ensures
            r@ == join_with(sort_codes(self.available_codes_from(0)), ", "@),
    {
        let mut codes: Vec<String> = Vec::new();
        let n: usize = self.entries.len();
        for i in 0..n
            invariant
                self.wf(),
                n == self.entries@.len(),
                self.available_codes_from(0) == codes.deep_view() + self.available_codes_from(
                    i as int,
                ),
        {
            let ghost before = codes.deep_view();
            let lang = self.entries[i].lang;
            if self.is_language_available(&lang) {
                let m: usize = self.entries[i].codes.len();
                for j in 0..m
                    invariant
                        n == self.entries@.len(),
                        i < n,
                        m == self.entries@[i as int].codes@.len(),
                        lang == self.entries@[i as int].lang,
                        codes.deep_view() == before + self.entries@[i as int].codes.deep_view()
                            .subrange(0, j as int),
                {
                    codes.push(self.entries[i].codes[j].clone());
                    proof {
                        let cs = self.entries@[i as int].codes.deep_view();
                        assert(codes.deep_view() =~= (before + cs.subrange(0, j as int)).push(
                            cs[j as int],
                        ));
                        assert((before + cs.subrange(0, j as int)).push(cs[j as int]) =~= before
                            + cs.subrange(0, j + 1));
                    }
                }
                proof {
                    let cs = self.entries@[i as int].codes.deep_view();
                    assert(cs.subrange(0, m as int) =~= cs);
                    assert(self.available_codes_from(i as int) == cs + self.available_codes_from(
                        i + 1,
                    ));
                    assert((codes.deep_view()) + self.available_codes_from(i + 1) =~= before + (cs
                        + self.available_codes_from(i + 1)));
                }
            } else {
                proof {
                    assert(self.available_codes_from(i as int) =~= Seq::<Seq<char>>::empty()
                        + self.available_codes_from(i + 1));
                    assert(Seq::<Seq<char>>::empty() + self.available_codes_from(i + 1) =~= self
                        .available_codes_from(i + 1));
                }
            }
        }
        proof {
            assert(codes.deep_view() + self.available_codes_from(n as int) =~= codes.deep_view());
        }
        let sorted = sort_strings(&codes);
        join_strings(&sorted, ", ")
    }
}

/// Arguments, after the container program itself, building one language's
/// toolchain image from its build definition, named by convention after
/// the lowercased language name.
pub open spec fn spec_image_build_args(name: Seq<char>) -> Seq<Seq<char>> {
    seq![
        "build"@,
        "-t"@,
        "rustacean-"@ + lower_seq(name),
        "-f"@,
        "images/Dockerfile."@ + lower_seq(name),
        "."@,
    ]
}

pub fn image_build_command(lang_name: &str) -> (r: Vec<String>)
    ensures
        r.deep_view() == spec_image_build_args(lang_name@),
{
    let low = to_lower_str(lang_name);
    let tag = crate::strutil::concat2("rustacean-", low.as_str());
    let dockerfile = crate::strutil::concat2("images/Dockerfile.", low.as_str());
    crate::language::argv6("build", "-t", tag.as_str(), "-f", dockerfile.as_str(), ".")
}

/// Arguments, after the container program itself, running one language's
/// availability probe inside its freshly built image.
pub open spec fn spec_version_probe_args(name: Seq<char>, probe: Seq<char>) -> Seq<Seq<char>> {
    seq!["run"@, "-t"@, "rustacean-"@ + lower_seq(name), "/bin/bash"@, "-c"@, probe]
}

pub fn version_probe_command(lang_name: &str, probe: &str) -> (r: Vec<String>)
    ensures
        r.deep_view() == spec_version_probe_args(lang_name@, probe@),
{
    let low = to_lower_str(lang_name);
    let tag = crate::strutil::concat2("rustacean-", low.as_str());
    crate::language::argv6("run", "-t", tag.as_str(), "/bin/bash", "-c", probe)
}

impl Default for LangManager {
    fn default() -> (r: Self)
        ensures
            r.wf(),
            r.codes_table() == registry_table(),
            forall|i: int| 0 <= i < r.availability@.len() ==> !r.availability@[i],
            forall|i: int| 0 <= i < r.versions@.len() ==> r.versions@[i] is None,
    {
        Self::new()
    }
}

/// Why a request was refused before any container work was attempted.
#[derive(Debug)]
pub enum ExecError {
    /// The requested code resolves to no registered language; carries the
    /// sorted list of currently available codes.
    UnknownLanguage { available: String },
    /// The language is registered but its toolchain image is not
    /// currently built.
    LanguageUnavailable,
}

impl ExecError {
    /// The user-facing message for this error.
    pub fn message(&self) -> (r: String)
        ensures
            match self {
                ExecError::UnknownLanguage { available } => r@
                    == "Unknown programming language\nHere are the languages available: "@
                    + available@,
                ExecError::LanguageUnavailable => r@
                    == "This programming language is currently unavailable."@,
            },
    {
        match self {
            ExecError::UnknownLanguage { available } => crate::strutil::concat2(
                "Unknown programming language\nHere are the languages available: ",
                available.as_str(),
            ),
            ExecError::LanguageUnavailable => {
                "This programming language is currently unavailable.".to_owned()
            },
        }
    }
}

/// Resolves a caller-supplied code, case-folded, to an available language:
/// the descriptor when it is registered and available, the distinct errors
/// for an unknown code and for a known but unavailable language.
pub fn get_lang(lang_manager: &LangManager, lang_code: &str) -> (r: Result<Lang, ExecError>)
    requires
        lang_manager.wf(),
    ensures
        match spec_lookup(lang_manager.entries@, lower_seq(lang_code@)) {
            Some(l) => {
                if lang_manager.spec_available(l.spec_lang_name()) {
                    r == Ok::<Lang, ExecError>(l)
                } else {
                    r matches Err(e) && e is LanguageUnavailable
                }
            },
            None => r matches Err(e) && e matches ExecError::UnknownLanguage { available }
                && available@ == join_with(
                sort_codes(lang_manager.available_codes_from(0)),
                ", "@,
            ),
        },
{
    let folded = to_lower_str(lang_code);
    match lang_manager.get(folded.as_str()) {
        Some(lang) => {
            if lang_manager.is_language_available(&lang) {
                Ok(lang)
            } else {
                Err(ExecError::LanguageUnavailable)
            }
        },
        None => Err(
            ExecError::UnknownLanguage { available: lang_manager.get_languages_list() },
        ),
    }
}

/// How a caller-supplied code is resolved: case-folded, then looked up in
/// registration order.
pub open spec fn spec_resolve(m: LangManager, code: Seq<char>) -> Option<Lang> {
    spec_lookup(m.entries@, lower_seq(code))
}

/// Lookup is case-insensitive: any two case-variants of one code resolve
/// to the same descriptor in any registry.
pub proof fn lemma_lookup_case_insensitive(m: LangManager, a: Seq<char>, b: Seq<char>)
    requires
        lower_seq(a) == lower_seq(b),
    ensures
        spec_resolve(m, a) == spec_resolve(m, b),
{
}

proof fn lemma_lower_fixed(s: Seq<char>)
    requires
        forall|i: int|
            0 <= i < s.len() ==> !(65 <= #[trigger] s[i] as u32 && s[i] as u32 <= 90),
    ensures
        lower_seq(s) == s,
{
    assert(lower_seq(s) =~= s);
}

/// Every registered code is stored case-folded.
pub proof fn lemma_registry_codes_lower(i: int, j: int)
    requires
        0 <= i < registry_table().len(),
        0 <= j < registry_table()[i].0.len(),
    ensures
        registry_table()[i].0[j] == lower_seq(registry_table()[i].0[j]),
{
    reveal_strlit("rs");
    reveal_strlit("rust");
    reveal_strlit("c");
    reveal_strlit("cpp");
    reveal_strlit("php");
    reveal_strlit("lua");
    reveal_strlit("asmx86");
    reveal_strlit("asm_x86");
    reveal_strlit("hs");
    reveal_strlit("haskell");
    reveal_strlit("asmx64");
    reveal_strlit("asm_x64");
    reveal_strlit("asm_x86_64");
    reveal_strlit("asmx86_64");
    reveal_strlit("kt");
    reveal_strlit("kotlin");
    reveal_strlit("sh");
    reveal_strlit("shell");
    reveal_strlit("py");
    reveal_strlit("python");
    reveal_strlit("rb");
    reveal_strlit("ruby");
    reveal_strlit("js");
    reveal_strlit("javascript");
    reveal_strlit("ts");
    reveal_strlit("typescript");
    reveal_strlit("cs");
    reveal_strlit("csharp");
    reveal_strlit("vb");
    reveal_strlit("vbnet");
    reveal_strlit("java");
    reveal_strlit("julia");
    reveal_strlit("go");
    reveal_strlit("prolog");
    lemma_lower_fixed("rs"@);
    lemma_lower_fixed("rust"@);
    lemma_lower_fixed("c"@);
    lemma_lower_fixed("cpp"@);
    lemma_lower_fixed("php"@);
    lemma_lower_fixed("lua"@);
    lemma_lower_fixed("asmx86"@);
    lemma_lower_fixed("asm_x86"@);
    lemma_lower_fixed("hs"@);
    lemma_lower_fixed("haskell"@);
    lemma_lower_fixed("asmx64"@);
    lemma_lower_fixed("asm_x64"@);
    lemma_lower_fixed("asm_x86_64"@);
    lemma_lower_fixed("asmx86_64"@);
    lemma_lower_fixed("kt"@);
    lemma_lower_fixed("kotlin"@);
    lemma_lower_fixed("sh"@);
    lemma_lower_fixed("shell"@);
    lemma_lower_fixed("py"@);
    lemma_lower_fixed("python"@);
    lemma_lower_fixed("rb"@);
    lemma_lower_fixed("ruby"@);
    lemma_lower_fixed("js"@);
    lemma_lower_fixed("javascript"@);
    lemma_lower_fixed("ts"@);
    lemma_lower_fixed("typescript"@);
    lemma_lower_fixed("cs"@);
    lemma_lower_fixed("csharp"@);
    lemma_lower_fixed("vb"@);
    lemma_lower_fixed("vbnet"@);
    lemma_lower_fixed("java"@);
    lemma_lower_fixed("julia"@);
    lemma_lower_fixed("go"@);
    lemma_lower_fixed("prolog"@);
}

proof fn lemma_code_distinct_rs()
    ensures
        "rs"@ != "rust"@,
        "rs"@ != "c"@,
        "rs"@ != "cpp"@,
        "rs"@ != "php"@,
        "rs"@ != "lua"@,
        "rs"@ != "asmx86"@,
        "rs"@ != "asm_x86"@,
        "rs"@ != "hs"@,
        "rs"@ != "haskell"@,
        "rs"@ != "asmx64"@,
        "rs"@ != "asm_x64"@,
        "rs"@ != "asm_x86_64"@,
        "rs"@ != "asmx86_64"@,
        "rs"@ != "kt"@,
        "rs"@ != "kotlin"@,
        "rs"@ != "sh"@,
        "rs"@ != "shell"@,
        "rs"@ != "py"@,
        "rs"@ != "python"@,
        "rs"@ != "rb"@,
        "rs"@ != "ruby"@,
        "rs"@ != "js"@,
        "rs"@ != "javascript"@,
        "rs"@ != "ts"@,
        "rs"@ != "typescript"@,
        "rs"@ != "cs"@,
        "rs"@ != "csharp"@,
        "rs"@ != "vb"@,
        "rs"@ != "vbnet"@,
        "rs"@ != "java"@,
        "rs"@ != "julia"@,
        "rs"@ != "go"@,
        "rs"@ != "prolog"@,
{
    reveal_strlit("rs");
    reveal_strlit("rust");
    reveal_strlit("c");
    reveal_strlit("cpp");
    reveal_strlit("php");
    reveal_strlit("lua");
    reveal_strlit("asmx86");
    reveal_strlit("asm_x86");
    reveal_strlit("hs");
    reveal_strlit("haskell");
    reveal_strlit("asmx64");
    reveal_strlit("asm_x64");
    reveal_strlit("asm_x86_64");
    reveal_strlit("asmx86_64");
    reveal_strlit("kt");
    reveal_strlit("kotlin");
    reveal_strlit("sh");
    reveal_strlit("shell");
    reveal_strlit("py");
    reveal_strlit("python");
    reveal_strlit("rb");
    reveal_strlit("ruby");
    reveal_strlit("js");
    reveal_strlit("javascript");
    reveal_strlit("ts");
    reveal_strlit("typescript");
    reveal_strlit("cs");
    reveal_strlit("csharp");
    reveal_strlit("vb");
    reveal_strlit("vbnet");
    reveal_strlit("java");
    reveal_strlit("julia");
    reveal_strlit("go");
    reveal_strlit("prolog");
    assert("rs"@.len() == 2);
    assert("rust"@.len() == 4);
    assert("c"@.len() == 1);
    assert("cpp"@.len() == 3);
    assert("php"@.len() == 3);
    assert("lua"@.len() == 3);
    assert("asmx86"@.len() == 6);
    assert("asm_x86"@.len() == 7);
    assert("hs"@.len() == 2);
    assert("haskell"@.len() == 7);
    assert("asmx64"@.len() == 6);
    assert("asm_x64"@.len() == 7);
    assert("asm_x86_64"@.len() == 10);
    assert("asmx86_64"@.len() == 9);
    assert("kt"@.len() == 2);
    assert("kotlin"@.len() == 6);
    assert("sh"@.len() == 2);
    assert("shell"@.len() == 5);
    assert("py"@.len() == 2);
    assert("python"@.len() == 6);
    assert("rb"@.len() == 2);
    assert("ruby"@.len() == 4);
    assert("js"@.len() == 2);
    assert("javascript"@.len() == 10);
    assert("ts"@.len() == 2);
    assert("typescript"@.len() == 10);
    assert("cs"@.len() == 2);
    assert("csharp"@.len() == 6);
    assert("vb"@.len() == 2);
    assert("vbnet"@.len() == 5);
    assert("java"@.len() == 4);
    assert("julia"@.len() == 5);
    assert("go"@.len() == 2);
    assert("prolog"@.len() == 6);
    assert("rs"@[0] != "hs"@[0]);
    assert("rs"@[0] != "kt"@[0]);
    assert("rs"@[0] != "sh"@[0]);
    assert("rs"@[0] != "py"@[0]);
    assert("rs"@[1] != "rb"@[1]);
    assert("rs"@[0] != "js"@[0]);
    assert("rs"@[0] != "ts"@[0]);
    assert("rs"@[0] != "cs"@[0]);
    assert("rs"@[0] != "vb"@[0]);
    assert("rs"@[0] != "go"@[0]);
}
proof fn lemma_code_distinct_rust()
    ensures
        "rust"@ != "c"@,
        "rust"@ != "cpp"@,
        "rust"@ != "php"@,
        "rust"@ != "lua"@,
        "rust"@ != "asmx86"@,
        "rust"@ != "asm_x86"@,
        "rust"@ != "hs"@,
        "rust"@ != "haskell"@,
        "rust"@ != "asmx64"@,
        "rust"@ != "asm_x64"@,
        "rust"@ != "asm_x86_64"@,
        "rust"@ != "asmx86_64"@,
        "rust"@ != "kt"@,
        "rust"@ != "kotlin"@,
        "rust"@ != "sh"@,
        "rust"@ != "shell"@,
        "rust"@ != "py"@,
        "rust"@ != "python"@,
        "rust"@ != "rb"@,
        "rust"@ != "ruby"@,
        "rust"@ != "js"@,
        "rust"@ != "javascript"@,
        "rust"@ != "ts"@,
        "rust"@ != "typescript"@,
        "rust"@ != "cs"@,
        "rust"@ != "csharp"@,
        "rust"@ != "vb"@,
        "rust"@ != "vbnet"@,
        "rust"@ != "java"@,
        "rust"@ != "julia"@,
        "rust"@ != "go"@,
        "rust"@ != "prolog"@,
{
    reveal_strlit("rust");
    reveal_strlit("c");
    reveal_strlit("cpp");
    reveal_strlit("php");
    reveal_strlit("lua");
    reveal_strlit("asmx86");
    reveal_strlit("asm_x86");
    reveal_strlit("hs");
    reveal_strlit("haskell");
    reveal_strlit("asmx64");
    reveal_strlit("asm_x64");
    reveal_strlit("asm_x86_64");
    reveal_strlit("asmx86_64");
    reveal_strlit("kt");
    reveal_strlit("kotlin");
    reveal_strlit("sh");
    reveal_strlit("shell");
    reveal_strlit("py");
    reveal_strlit("python");
    reveal_strlit("rb");
    reveal_strlit("ruby");
    reveal_strlit("js");
    reveal_strlit("javascript");
    reveal_strlit("ts");
    reveal_strlit("typescript");
    reveal_strlit("cs");
    reveal_strlit("csharp");
    reveal_strlit("vb");
    reveal_strlit("vbnet");
    reveal_strlit("java");
    reveal_strlit("julia");
    reveal_strlit("go");
    reveal_strlit("prolog");
    assert("rust"@.len() == 4);
    assert("c"@.len() == 1);
    assert("cpp"@.len() == 3);
    assert("php"@.len() == 3);
    assert("lua"@.len() == 3);
    assert("asmx86"@.len() == 6);
    assert("asm_x86"@.len() == 7);
    assert("hs"@.len() == 2);
    assert("haskell"@.len() == 7);
    assert("asmx64"@.len() == 6);
    assert("asm_x64"@.len() == 7);
    assert("asm_x86_64"@.len() == 10);
    assert("asmx86_64"@.len() == 9);
    assert("kt"@.len() == 2);
    assert("kotlin"@.len() == 6);
    assert("sh"@.len() == 2);
    assert("shell"@.len() == 5);
    assert("py"@.len() == 2);
    assert("python"@.len() == 6);
    assert("rb"@.len() == 2);
    assert("ruby"@.len() == 4);
    assert("js"@.len() == 2);
    assert("javascript"@.len() == 10);
    assert("ts"@.len() == 2);
    assert("typescript"@.len() == 10);
    assert("cs"@.len() == 2);
    assert("csharp"@.len() == 6);
    assert("vb"@.len() == 2);
    assert("vbnet"@.len() == 5);
    assert("java"@.len() == 4);
    assert("julia"@.len() == 5);
    assert("go"@.len() == 2);
    assert("prolog"@.len() == 6);
    assert("rust"@[2] != "ruby"@[2]);
    assert("rust"@[0] != "java"@[0]);
}
proof fn lemma_code_distinct_c()
    ensures
        "c"@ != "cpp"@,
        "c"@ != "php"@,
        "c"@ != "lua"@,
        "c"@ != "asmx86"@,
        "c"@ != "asm_x86"@,
        "c"@ != "hs"@,
        "c"@ != "haskell"@,
        "c"@ != "asmx64"@,
        "c"@ != "asm_x64"@,
        "c"@ != "asm_x86_64"@,
        "c"@ != "asmx86_64"@,
        "c"@ != "kt"@,
        "c"@ != "kotlin"@,
        "c"@ != "sh"@,
        "c"@ != "shell"@,
        "c"@ != "py"@,
        "c"@ != "python"@,
        "c"@ != "rb"@,
        "c"@ != "ruby"@,
        "c"@ != "js"@,
        "c"@ != "javascript"@,
        "c"@ != "ts"@,
        "c"@ != "typescript"@,
        "c"@ != "cs"@,
        "c"@ != "csharp"@,
        "c"@ != "vb"@,
        "c"@ != "vbnet"@,
        "c"@ != "java"@,
        "c"@ != "julia"@,
        "c"@ != "go"@,
        "c"@ != "prolog"@,
{
    reveal_strlit("c");
    reveal_strlit("cpp");
    reveal_strlit("php");
    reveal_strlit("lua");
    reveal_strlit("asmx86");
    reveal_strlit("asm_x86");
    reveal_strlit("hs");
    reveal_strlit("haskell");
    reveal_strlit("asmx64");
    reveal_strlit("asm_x64");
    reveal_strlit("asm_x86_64");
    reveal_strlit("asmx86_64");
    reveal_strlit("kt");
    reveal_strlit("kotlin");
    reveal_strlit("sh");
    reveal_strlit("shell");
    reveal_strlit("py");
    reveal_strlit("python");
    reveal_strlit("rb");
    reveal_strlit("ruby");
    reveal_strlit("js");
    reveal_strlit("javascript");
    reveal_strlit("ts");
    reveal_strlit("typescript");
    reveal_strlit("cs");
    reveal_strlit("csharp");
    reveal_strlit("vb");
    reveal_strlit("vbnet");
    reveal_strlit("java");
    reveal_strlit("julia");
    reveal_strlit("go");
    reveal_strlit("prolog");
    assert("c"@.len() == 1);
    assert("cpp"@.len() == 3);
    assert("php"@.len() == 3);
    assert("lua"@.len() == 3);
    assert("asmx86"@.len() == 6);
    assert("asm_x86"@.len() == 7);
    assert("hs"@.len() == 2);
    assert("haskell"@.len() == 7);
    assert("asmx64"@.len() == 6);
    assert("asm_x64"@.len() == 7);
    assert("asm_x86_64"@.len() == 10);
    assert("asmx86_64"@.len() == 9);
    assert("kt"@.len() == 2);
    assert("kotlin"@.len() == 6);
    assert("sh"@.len() == 2);
    assert("shell"@.len() == 5);
    assert("py"@.len() == 2);
    assert("python"@.len() == 6);
    assert("rb"@.len() == 2);
    assert("ruby"@.len() == 4);
    assert("js"@.len() == 2);
    assert("javascript"@.len() == 10);
    assert("ts"@.len() == 2);
    assert("typescript"@.len() == 10);
    assert("cs"@.len() == 2);
    assert("csharp"@.len() == 6);
    assert("vb"@.len() == 2);
    assert("vbnet"@.len() == 5);
    assert("java"@.len() == 4);
    assert("julia"@.len() == 5);
    assert("go"@.len() == 2);
    assert("prolog"@.len() == 6);
}
proof fn lemma_code_distinct_cpp()
    ensures
        "cpp"@ != "php"@,
        "cpp"@ != "lua"@,
        "cpp"@ != "asmx86"@,
        "cpp"@ != "asm_x86"@,
        "cpp"@ != "hs"@,
        "cpp"@ != "haskell"@,
        "cpp"@ != "asmx64"@,
        "cpp"@ != "asm_x64"@,
        "cpp"@ != "asm_x86_64"@,
        "cpp"@ != "asmx86_64"@,
        "cpp"@ != "kt"@,
        "cpp"@ != "kotlin"@,
        "cpp"@ != "sh"@,
        "cpp"@ != "shell"@,
        "cpp"@ != "py"@,
        "cpp"@ != "python"@,
        "cpp"@ != "rb"@,
        "cpp"@ != "ruby"@,
        "cpp"@ != "js"@,
        "cpp"@ != "javascript"@,
        "cpp"@ != "ts"@,
        "cpp"@ != "typescript"@,
        "cpp"@ != "cs"@,
        "cpp"@ != "csharp"@,
        "cpp"@ != "vb"@,
        "cpp"@ != "vbnet"@,
        "cpp"@ != "java"@,
        "cpp"@ != "julia"@,
        "cpp"@ != "go"@,
        "cpp"@ != "prolog"@,
{
    reveal_strlit("cpp");
    reveal_strlit("php");
    reveal_strlit("lua");
    reveal_strlit("asmx86");
    reveal_strlit("asm_x86");
    reveal_strlit("hs");
    reveal_strlit("haskell");
    reveal_strlit("asmx64");
    reveal_strlit("asm_x64");
    reveal_strlit("asm_x86_64");
    reveal_strlit("asmx86_64");
    reveal_strlit("kt");
    reveal_strlit("kotlin");
    reveal_strlit("sh");
    reveal_strlit("shell");
    reveal_strlit("py");
    reveal_strlit("python");
    reveal_strlit("rb");
    reveal_strlit("ruby");
    reveal_strlit("js");
    reveal_strlit("javascript");
    reveal_strlit("ts");
    reveal_strlit("typescript");
    reveal_strlit("cs");
    reveal_strlit("csharp");
    reveal_strlit("vb");
    reveal_strlit("vbnet");
    reveal_strlit("java");
    reveal_strlit("julia");
    reveal_strlit("go");
    reveal_strlit("prolog");
    assert("cpp"@.len() == 3);
    assert("php"@.len() == 3);
    assert("lua"@.len() == 3);
    assert("asmx86"@.len() == 6);
    assert("asm_x86"@.len() == 7);
    assert("hs"@.len() == 2);
    assert("haskell"@.len() == 7);
    assert("asmx64"@.len() == 6);
    assert("asm_x64"@.len() == 7);
    assert("asm_x86_64"@.len() == 10);
    assert("asmx86_64"@.len() == 9);
    assert("kt"@.len() == 2);
    assert("kotlin"@.len() == 6);
    assert("sh"@.len() == 2);
    assert("shell"@.len() == 5);
    assert("py"@.len() == 2);
    assert("python"@.len() == 6);
    assert("rb"@.len() == 2);
    assert("ruby"@.len() == 4);
    assert("js"@.len() == 2);
    assert("javascript"@.len() == 10);
    assert("ts"@.len() == 2);
    assert("typescript"@.len() == 10);
    assert("cs"@.len() == 2);
    assert("csharp"@.len() == 6);
    assert("vb"@.len() == 2);
    assert("vbnet"@.len() == 5);
    assert("java"@.len() == 4);
    assert("julia"@.len() == 5);
    assert("go"@.len() == 2);
    assert("prolog"@.len() == 6);
    assert("cpp"@[0] != "php"@[0]);
    assert("cpp"@[0] != "lua"@[0]);
}
proof fn lemma_code_distinct_php()
    ensures
        "php"@ != "lua"@,
        "php"@ != "asmx86"@,
        "php"@ != "asm_x86"@,
        "php"@ != "hs"@,
        "php"@ != "haskell"@,
        "php"@ != "asmx64"@,
        "php"@ != "asm_x64"@,
        "php"@ != "asm_x86_64"@,
        "php"@ != "asmx86_64"@,
        "php"@ != "kt"@,
        "php"@ != "kotlin"@,
        "php"@ != "sh"@,
        "php"@ != "shell"@,
        "php"@ != "py"@,
        "php"@ != "python"@,
        "php"@ != "rb"@,
        "php"@ != "ruby"@,
        "php"@ != "js"@,
        "php"@ != "javascript"@,
        "php"@ != "ts"@,
        "php"@ != "typescript"@,
        "php"@ != "cs"@,
        "php"@ != "csharp"@,
        "php"@ != "vb"@,
        "php"@ != "vbnet"@,
        "php"@ != "java"@,
        "php"@ != "julia"@,
        "php"@ != "go"@,
        "php"@ != "prolog"@,
{
    reveal_strlit("php");
    reveal_strlit("lua");
    reveal_strlit("asmx86");
    reveal_strlit("asm_x86");
    reveal_strlit("hs");
    reveal_strlit("haskell");
    reveal_strlit("asmx64");
    reveal_strlit("asm_x64");
    reveal_strlit("asm_x86_64");
    reveal_strlit("asmx86_64");
    reveal_strlit("kt");
    reveal_strlit("kotlin");
    reveal_strlit("sh");
    reveal_strlit("shell");
    reveal_strlit("py");
    reveal_strlit("python");
    reveal_strlit("rb");
    reveal_strlit("ruby");
    reveal_strlit("js");
    reveal_strlit("javascript");
    reveal_strlit("ts");
    reveal_strlit("typescript");
    reveal_strlit("cs");
    reveal_strlit("csharp");
    reveal_strlit("vb");
    reveal_strlit("vbnet");
    reveal_strlit("java");
    reveal_strlit("julia");
    reveal_strlit("go");
    reveal_strlit("prolog");
    assert("php"@.len() == 3);
    assert("lua"@.len() == 3);
    assert("asmx86"@.len() == 6);
    assert("asm_x86"@.len() == 7);
    assert("hs"@.len() == 2);
    assert("haskell"@.len() == 7);
    assert("asmx64"@.len() == 6);
    assert("asm_x64"@.len() == 7);
    assert("asm_x86_64"@.len() == 10);
    assert("asmx86_64"@.len() == 9);
    assert("kt"@.len() == 2);
    assert("kotlin"@.len() == 6);
    assert("sh"@.len() == 2);
    assert("shell"@.len() == 5);
    assert("py"@.len() == 2);
    assert("python"@.len() == 6);
    assert("rb"@.len() == 2);
    assert("ruby"@.len() == 4);
    assert("js"@.len() == 2);
    assert("javascript"@.len() == 10);
    assert("ts"@.len() == 2);
    assert("typescript"@.len() == 10);
    assert("cs"@.len() == 2);
    assert("csharp"@.len() == 6);
    assert("vb"@.len() == 2);
    assert("vbnet"@.len() == 5);
    assert("java"@.len() == 4);
    assert("julia"@.len() == 5);
    assert("go"@.len() == 2);
    assert("prolog"@.len() == 6);
    assert("php"@[0] != "lua"@[0]);
}
proof fn lemma_code_distinct_lua()
    ensures
        "lua"@ != "asmx86"@,
        "lua"@ != "asm_x86"@,
        "lua"@ != "hs"@,
        "lua"@ != "haskell"@,
        "lua"@ != "asmx64"@,
        "lua"@ != "asm_x64"@,
        "lua"@ != "asm_x86_64"@,
        "lua"@ != "asmx86_64"@,
        "lua"@ != "kt"@,
        "lua"@ != "kotlin"@,
        "lua"@ != "sh"@,
        "lua"@ != "shell"@,
        "lua"@ != "py"@,
        "lua"@ != "python"@,
        "lua"@ != "rb"@,
        "lua"@ != "ruby"@,
        "lua"@ != "js"@,
        "lua"@ != "javascript"@,
        "lua"@ != "ts"@,
        "lua"@ != "typescript"@,
        "lua"@ != "cs"@,
        "lua"@ != "csharp"@,
        "lua"@ != "vb"@,
        "lua"@ != "vbnet"@,
        "lua"@ != "java"@,
        "lua"@ != "julia"@,
        "lua"@ != "go"@,
        "lua"@ != "prolog"@,
{
    reveal_strlit("lua");
    reveal_strlit("asmx86");
    reveal_strlit("asm_x86");
    reveal_strlit("hs");
    reveal_strlit("haskell");
    reveal_strlit("asmx64");
    reveal_strlit("asm_x64");
    reveal_strlit("asm_x86_64");
    reveal_strlit("asmx86_64");
    reveal_strlit("kt");
    reveal_strlit("kotlin");
    reveal_strlit("sh");
    reveal_strlit("shell");
    reveal_strlit("py");
    reveal_strlit("python");
    reveal_strlit("rb");
    reveal_strlit("ruby");
    reveal_strlit("js");
    reveal_strlit("javascript");
    reveal_strlit("ts");
    reveal_strlit("typescript");
    reveal_strlit("cs");
    reveal_strlit("csharp");
    reveal_strlit("vb");
    reveal_strlit("vbnet");
    reveal_strlit("java");
    reveal_strlit("julia");
    reveal_strlit("go");
    reveal_strlit("prolog");
    assert("lua"@.len() == 3);
    assert("asmx86"@.len() == 6);
    assert("asm_x86"@.len() == 7);
    assert("hs"@.len() == 2);
    assert("haskell"@.len() == 7);
    assert("asmx64"@.len() == 6);
    assert("asm_x64"@.len() == 7);
    assert("asm_x86_64"@.len() == 10);
    assert("asmx86_64"@.len() == 9);
    assert("kt"@.len() == 2);
    assert("kotlin"@.len() == 6);
    assert("sh"@.len() == 2);
    assert("shell"@.len() == 5);
    assert("py"@.len() == 2);
    assert("python"@.len() == 6);
    assert("rb"@.len() == 2);
    assert("ruby"@.len() == 4);
    assert("js"@.len() == 2);
    assert("javascript"@.len() == 10);
    assert("ts"@.len() == 2);
    assert("typescript"@.len() == 10);
    assert("cs"@.len() == 2);
    assert("csharp"@.len() == 6);
    assert("vb"@.len() == 2);
    assert("vbnet"@.len() == 5);
    assert("java"@.len() == 4);
    assert("julia"@.len() == 5);
    assert("go"@.len() == 2);
    assert("prolog"@.len() == 6);
}
proof fn lemma_code_distinct_asmx86()
    ensures
        "asmx86"@ != "asm_x86"@,
        "asmx86"@ != "hs"@,
        "asmx86"@ != "haskell"@,
        "asmx86"@ != "asmx64"@,
        "asmx86"@ != "asm_x64"@,
        "asmx86"@ != "asm_x86_64"@,
        "asmx86"@ != "asmx86_64"@,
        "asmx86"@ != "kt"@,
        "asmx86"@ != "kotlin"@,
        "asmx86"@ != "sh"@,
        "asmx86"@ != "shell"@,
        "asmx86"@ != "py"@,
        "asmx86"@ != "python"@,
        "asmx86"@ != "rb"@,
        "asmx86"@ != "ruby"@,
        "asmx86"@ != "js"@,
        "asmx86"@ != "javascript"@,
        "asmx86"@ != "ts"@,
        "asmx86"@ != "typescript"@,
        "asmx86"@ != "cs"@,
        "asmx86"@ != "csharp"@,
        "asmx86"@ != "vb"@,
        "asmx86"@ != "vbnet"@,
        "asmx86"@ != "java"@,
        "asmx86"@ != "julia"@,
        "asmx86"@ != "go"@,
        "asmx86"@ != "prolog"@,
{
    reveal_strlit("asmx86");
    reveal_strlit("asm_x86");
    reveal_strlit("hs");
    reveal_strlit("haskell");
    reveal_strlit("asmx64");
    reveal_strlit("asm_x64");
    reveal_strlit("asm_x86_64");
    reveal_strlit("asmx86_64");
    reveal_strlit("kt");
    reveal_strlit("kotlin");
    reveal_strlit("sh");
    reveal_strlit("shell");
    reveal_strlit("py");
    reveal_strlit("python");
    reveal_strlit("rb");
    reveal_strlit("ruby");
    reveal_strlit("js");
    reveal_strlit("javascript");
    reveal_strlit("ts");
    reveal_strlit("typescript");
    reveal_strlit("cs");
    reveal_strlit("csharp");
    reveal_strlit("vb");
    reveal_strlit("vbnet");
    reveal_strlit("java");
    reveal_strlit("julia");
    reveal_strlit("go");
    reveal_strlit("prolog");
    assert("asmx86"@.len() == 6);
    assert("asm_x86"@.len() == 7);
    assert("hs"@.len() == 2);
    assert("haskell"@.len() == 7);
    assert("asmx64"@.len() == 6);
    assert("asm_x64"@.len() == 7);
    assert("asm_x86_64"@.len() == 10);
    assert("asmx86_64"@.len() == 9);
    assert("kt"@.len() == 2);
    assert("kotlin"@.len() == 6);
    assert("sh"@.len() == 2);
    assert("shell"@.len() == 5);
    assert("py"@.len() == 2);
    assert("python"@.len() == 6);
    assert("rb"@.len() == 2);
    assert("ruby"@.len() == 4);
    assert("js"@.len() == 2);
    assert("javascript"@.len() == 10);
    assert("ts"@.len() == 2);
    assert("typescript"@.len() == 10);
    assert("cs"@.len() == 2);
    assert("csharp"@.len() == 6);
    assert("vb"@.len() == 2);
    assert("vbnet"@.len() == 5);
    assert("java"@.len() == 4);
    assert("julia"@.len() == 5);
    assert("go"@.len() == 2);
    assert("prolog"@.len() == 6);
    assert("asmx86"@[4] != "asmx64"@[4]);
    assert("asmx86"@[0] != "kotlin"@[0]);
    assert("asmx86"@[0] != "python"@[0]);
    assert("asmx86"@[0] != "csharp"@[0]);
    assert("asmx86"@[0] != "prolog"@[0]);
}
proof fn lemma_code_distinct_asm_x86()
    ensures
        "asm_x86"@ != "hs"@,
        "asm_x86"@ != "haskell"@,
        "asm_x86"@ != "asmx64"@,
        "asm_x86"@ != "asm_x64"@,
        "asm_x86"@ != "asm_x86_64"@,
        "asm_x86"@ != "asmx86_64"@,
        "asm_x86"@ != "kt"@,
        "asm_x86"@ != "kotlin"@,
        "asm_x86"@ != "sh"@,
        "asm_x86"@ != "shell"@,
        "asm_x86"@ != "py"@,
        "asm_x86"@ != "python"@,
        "asm_x86"@ != "rb"@,
        "asm_x86"@ != "ruby"@,
        "asm_x86"@ != "js"@,
        "asm_x86"@ != "javascript"@,
        "asm_x86"@ != "ts"@,
        "asm_x86"@ != "typescript"@,
        "asm_x86"@ != "cs"@,
        "asm_x86"@ != "csharp"@,
        "asm_x86"@ != "vb"@,
        "asm_x86"@ != "vbnet"@,
        "asm_x86"@ != "java"@,
        "asm_x86"@ != "julia"@,
        "asm_x86"@ != "go"@,
        "asm_x86"@ != "prolog"@,
{
    reveal_strlit("asm_x86");
    reveal_strlit("hs");
    reveal_strlit("haskell");
    reveal_strlit("asmx64");
    reveal_strlit("asm_x64");
    reveal_strlit("asm_x86_64");
    reveal_strlit("asmx86_64");
    reveal_strlit("kt");
    reveal_strlit("kotlin");
    reveal_strlit("sh");
    reveal_strlit("shell");
    reveal_strlit("py");
    reveal_strlit("python");
    reveal_strlit("rb");
    reveal_strlit("ruby");
    reveal_strlit("js");
    reveal_strlit("javascript");
    reveal_strlit("ts");
    reveal_strlit("typescript");
    reveal_strlit("cs");
    reveal_strlit("csharp");
    reveal_strlit("vb");
    reveal_strlit("vbnet");
    reveal_strlit("java");
    reveal_strlit("julia");
    reveal_strlit("go");
    reveal_strlit("prolog");
    assert("asm_x86"@.len() == 7);
    assert("hs"@.len() == 2);
    assert("haskell"@.len() == 7);
    assert("asmx64"@.len() == 6);
    assert("asm_x64"@.len() == 7);
    assert("asm_x86_64"@.len() == 10);
    assert("asmx86_64"@.len() == 9);
    assert("kt"@.len() == 2);
    assert("kotlin"@.len() == 6);
    assert("sh"@.len() == 2);
    assert("shell"@.len() == 5);
    assert("py"@.len() == 2);
    assert("python"@.len() == 6);
    assert("rb"@.len() == 2);
    assert("ruby"@.len() == 4);
    assert("js"@.len() == 2);
    assert("javascript"@.len() == 10);
    assert("ts"@.len() == 2);
    assert("typescript"@.len() == 10);
    assert("cs"@.len() == 2);
    assert("csharp"@.len() == 6);
    assert("vb"@.len() == 2);
    assert("vbnet"@.len() == 5);
    assert("java"@.len() == 4);
    assert("julia"@.len() == 5);
    assert("go"@.len() == 2);
    assert("prolog"@.len() == 6);
    assert("asm_x86"@[0] != "haskell"@[0]);
    assert("asm_x86"@[5] != "asm_x64"@[5]);
}
proof fn lemma_code_distinct_hs()
    ensures
        "hs"@ != "haskell"@,
        "hs"@ != "asmx64"@,
        "hs"@ != "asm_x64"@,
        "hs"@ != "asm_x86_64"@,
        "hs"@ != "asmx86_64"@,
        "hs"@ != "kt"@,
        "hs"@ != "kotlin"@,
        "hs"@ != "sh"@,
        "hs"@ != "shell"@,
        "hs"@ != "py"@,
        "hs"@ != "python"@,
        "hs"@ != "rb"@,
        "hs"@ != "ruby"@,
        "hs"@ != "js"@,
        "hs"@ != "javascript"@,
        "hs"@ != "ts"@,
        "hs"@ != "typescript"@,
        "hs"@ != "cs"@,
        "hs"@ != "csharp"@,
        "hs"@ != "vb"@,
        "hs"@ != "vbnet"@,
        "hs"@ != "java"@,
        "hs"@ != "julia"@,
        "hs"@ != "go"@,
        "hs"@ != "prolog"@,
{
    reveal_strlit("hs");
    reveal_strlit("haskell");
    reveal_strlit("asmx64");
    reveal_strlit("asm_x64");
    reveal_strlit("asm_x86_64");
    reveal_strlit("asmx86_64");
    reveal_strlit("kt");
    reveal_strlit("kotlin");
    reveal_strlit("sh");
    reveal_strlit("shell");
    reveal_strlit("py");
    reveal_strlit("python");
    reveal_strlit("rb");
    reveal_strlit("ruby");
    reveal_strlit("js");
    reveal_strlit("javascript");
    reveal_strlit("ts");
    reveal_strlit("typescript");
    reveal_strlit("cs");
    reveal_strlit("csharp");
    reveal_strlit("vb");
    reveal_strlit("vbnet");
    reveal_strlit("java");
    reveal_strlit("julia");
    reveal_strlit("go");
    reveal_strlit("prolog");
    assert("hs"@.len() == 2);
    assert("haskell"@.len() == 7);
    assert("asmx64"@.len() == 6);
    assert("asm_x64"@.len() == 7);
    assert("asm_x86_64"@.len() == 10);
    assert("asmx86_64"@.len() == 9);
    assert("kt"@.len() == 2);
    assert("kotlin"@.len() == 6);
    assert("sh"@.len() == 2);
    assert("shell"@.len() == 5);
    assert("py"@.len() == 2);
    assert("python"@.len() == 6);
    assert("rb"@.len() == 2);
    assert("ruby"@.len() == 4);
    assert("js"@.len() == 2);
    assert("javascript"@.len() == 10);
    assert("ts"@.len() == 2);
    assert("typescript"@.len() == 10);
    assert("cs"@.len() == 2);
    assert("csharp"@.len() == 6);
    assert("vb"@.len() == 2);
    assert("vbnet"@.len() == 5);
    assert("java"@.len() == 4);
    assert("julia"@.len() == 5);
    assert("go"@.len() == 2);
    assert("prolog"@.len() == 6);
    assert("hs"@[0] != "kt"@[0]);
    assert("hs"@[0] != "sh"@[0]);
    assert("hs"@[0] != "py"@[0]);
    assert("hs"@[0] != "rb"@[0]);
    assert("hs"@[0] != "js"@[0]);
    assert("hs"@[0] != "ts"@[0]);
    assert("hs"@[0] != "cs"@[0]);
    assert("hs"@[0] != "vb"@[0]);
    assert("hs"@[0] != "go"@[0]);
}
proof fn lemma_code_distinct_haskell()
    ensures
        "haskell"@ != "asmx64"@,
        "haskell"@ != "asm_x64"@,
        "haskell"@ != "asm_x86_64"@,
        "haskell"@ != "asmx86_64"@,
        "haskell"@ != "kt"@,
        "haskell"@ != "kotlin"@,
        "haskell"@ != "sh"@,
        "haskell"@ != "shell"@,
        "haskell"@ != "py"@,
        "haskell"@ != "python"@,
        "haskell"@ != "rb"@,
        "haskell"@ != "ruby"@,
        "haskell"@ != "js"@,
        "haskell"@ != "javascript"@,
        "haskell"@ != "ts"@,
        "haskell"@ != "typescript"@,
        "haskell"@ != "cs"@,
        "haskell"@ != "csharp"@,
        "haskell"@ != "vb"@,
        "haskell"@ != "vbnet"@,
        "haskell"@ != "java"@,
        "haskell"@ != "julia"@,
        "haskell"@ != "go"@,
        "haskell"@ != "prolog"@,
{
    reveal_strlit("haskell");
    reveal_strlit("asmx64");
    reveal_strlit("asm_x64");
    reveal_strlit("asm_x86_64");
    reveal_strlit("asmx86_64");
    reveal_strlit("kt");
    reveal_strlit("kotlin");
    reveal_strlit("sh");
    reveal_strlit("shell");
    reveal_strlit("py");
    reveal_strlit("python");
    reveal_strlit("rb");
    reveal_strlit("ruby");
    reveal_strlit("js");
    reveal_strlit("javascript");
    reveal_strlit("ts");
    reveal_strlit("typescript");
    reveal_strlit("cs");
    reveal_strlit("csharp");
    reveal_strlit("vb");
    reveal_strlit("vbnet");
    reveal_strlit("java");
    reveal_strlit("julia");
    reveal_strlit("go");
    reveal_strlit("prolog");
    assert("haskell"@.len() == 7);
    assert("asmx64"@.len() == 6);
    assert("asm_x64"@.len() == 7);
    assert("asm_x86_64"@.len() == 10);
    assert("asmx86_64"@.len() == 9);
    assert("kt"@.len() == 2);
    assert("kotlin"@.len() == 6);
    assert("sh"@.len() == 2);
    assert("shell"@.len() == 5);
    assert("py"@.len() == 2);
    assert("python"@.len() == 6);
    assert("rb"@.len() == 2);
    assert("ruby"@.len() == 4);
    assert("js"@.len() == 2);
    assert("javascript"@.len() == 10);
    assert("ts"@.len() == 2);
    assert("typescript"@.len() == 10);
    assert("cs"@.len() == 2);
    assert("csharp"@.len() == 6);
    assert("vb"@.len() == 2);
    assert("vbnet"@.len() == 5);
    assert("java"@.len() == 4);
    assert("julia"@.len() == 5);
    assert("go"@.len() == 2);
    assert("prolog"@.len() == 6);
    assert("haskell"@[0] != "asm_x64"@[0]);
}
proof fn lemma_code_distinct_asmx64()
    ensures
        "asmx64"@ != "asm_x64"@,
        "asmx64"@ != "asm_x86_64"@,
        "asmx64"@ != "asmx86_64"@,
        "asmx64"@ != "kt"@,
        "asmx64"@ != "kotlin"@,
        "asmx64"@ != "sh"@,
        "asmx64"@ != "shell"@,
        "asmx64"@ != "py"@,
        "asmx64"@ != "python"@,
        "asmx64"@ != "rb"@,
        "asmx64"@ != "ruby"@,
        "asmx64"@ != "js"@,
        "asmx64"@ != "javascript"@,
        "asmx64"@ != "ts"@,
        "asmx64"@ != "typescript"@,
        "asmx64"@ != "cs"@,
        "asmx64"@ != "csharp"@,
        "asmx64"@ != "vb"@,
        "asmx64"@ != "vbnet"@,
        "asmx64"@ != "java"@,
        "asmx64"@ != "julia"@,
        "asmx64"@ != "go"@,
        "asmx64"@ != "prolog"@,
{
    reveal_strlit("asmx64");
    reveal_strlit("asm_x64");
    reveal_strlit("asm_x86_64");
    reveal_strlit("asmx86_64");
    reveal_strlit("kt");
    reveal_strlit("kotlin");
    reveal_strlit("sh");
    reveal_strlit("shell");
    reveal_strlit("py");
    reveal_strlit("python");
    reveal_strlit("rb");
    reveal_strlit("ruby");
    reveal_strlit("js");
    reveal_strlit("javascript");
    reveal_strlit("ts");
    reveal_strlit("typescript");
    reveal_strlit("cs");
    reveal_strlit("csharp");
    reveal_strlit("vb");
    reveal_strlit("vbnet");
    reveal_strlit("java");
    reveal_strlit("julia");
    reveal_strlit("go");
    reveal_strlit("prolog");
    assert("asmx64"@.len() == 6);
    assert("asm_x64"@.len() == 7);
    assert("asm_x86_64"@.len() == 10);
    assert("asmx86_64"@.len() == 9);
    assert("kt"@.len() == 2);
    assert("kotlin"@.len() == 6);
    assert("sh"@.len() == 2);
    assert("shell"@.len() == 5);
    assert("py"@.len() == 2);
    assert("python"@.len() == 6);
    assert("rb"@.len() == 2);
    assert("ruby"@.len() == 4);
    assert("js"@.len() == 2);
    assert("javascript"@.len() == 10);
    assert("ts"@.len() == 2);
    assert("typescript"@.len() == 10);
    assert("cs"@.len() == 2);
    assert("csharp"@.len() == 6);
    assert("vb"@.len() == 2);
    assert("vbnet"@.len() == 5);
    assert("java"@.len() == 4);
    assert("julia"@.len() == 5);
    assert("go"@.len() == 2);
    assert("prolog"@.len() == 6);
    assert("asmx64"@[0] != "kotlin"@[0]);
    assert("asmx64"@[0] != "python"@[0]);
    assert("asmx64"@[0] != "csharp"@[0]);
    assert("asmx64"@[0] != "prolog"@[0]);
}
proof fn lemma_code_distinct_asm_x64()
    ensures
        "asm_x64"@ != "asm_x86_64"@,
        "asm_x64"@ != "asmx86_64"@,
        "asm_x64"@ != "kt"@,
        "asm_x64"@ != "kotlin"@,
        "asm_x64"@ != "sh"@,
        "asm_x64"@ != "shell"@,
        "asm_x64"@ != "py"@,
        "asm_x64"@ != "python"@,
        "asm_x64"@ != "rb"@,
        "asm_x64"@ != "ruby"@,
        "asm_x64"@ != "js"@,
        "asm_x64"@ != "javascript"@,
        "asm_x64"@ != "ts"@,
        "asm_x64"@ != "typescript"@,
        "asm_x64"@ != "cs"@,
        "asm_x64"@ != "csharp"@,
        "asm_x64"@ != "vb"@,
        "asm_x64"@ != "vbnet"@,
        "asm_x64"@ != "java"@,
        "asm_x64"@ != "julia"@,
        "asm_x64"@ != "go"@,
        "asm_x64"@ != "prolog"@,
{
    reveal_strlit("asm_x64");
    reveal_strlit("asm_x86_64");
    reveal_strlit("asmx86_64");
    reveal_strlit("kt");
    reveal_strlit("kotlin");
    reveal_strlit("sh");
    reveal_strlit("shell");
    reveal_strlit("py");
    reveal_strlit("python");
    reveal_strlit("rb");
    reveal_strlit("ruby");
    reveal_strlit("js");
    reveal_strlit("javascript");
    reveal_strlit("ts");
    reveal_strlit("typescript");
    reveal_strlit("cs");
    reveal_strlit("csharp");
    reveal_strlit("vb");
    reveal_strlit("vbnet");
    reveal_strlit("java");
    reveal_strlit("julia");
    reveal_strlit("go");
    reveal_strlit("prolog");
    assert("asm_x64"@.len() == 7);
    assert("asm_x86_64"@.len() == 10);
    assert("asmx86_64"@.len() == 9);
    assert("kt"@.len() == 2);
    assert("kotlin"@.len() == 6);
    assert("sh"@.len() == 2);
    assert("shell"@.len() == 5);
    assert("py"@.len() == 2);
    assert("python"@.len() == 6);
    assert("rb"@.len() == 2);
    assert("ruby"@.len() == 4);
    assert("js"@.len() == 2);
    assert("javascript"@.len() == 10);
    assert("ts"@.len() == 2);
    assert("typescript"@.len() == 10);
    assert("cs"@.len() == 2);
    assert("csharp"@.len() == 6);
    assert("vb"@.len() == 2);
    assert("vbnet"@.len() == 5);
    assert("java"@.len() == 4);
    assert("julia"@.len() == 5);
    assert("go"@.len() == 2);
    assert("prolog"@.len() == 6);
}
proof fn lemma_code_distinct_asm_x86_64()
    ensures
        "asm_x86_64"@ != "asmx86_64"@,
        "asm_x86_64"@ != "kt"@,
        "asm_x86_64"@ != "kotlin"@,
        "asm_x86_64"@ != "sh"@,
        "asm_x86_64"@ != "shell"@,
        "asm_x86_64"@ != "py"@,
        "asm_x86_64"@ != "python"@,
        "asm_x86_64"@ != "rb"@,
        "asm_x86_64"@ != "ruby"@,
        "asm_x86_64"@ != "js"@,
        "asm_x86_64"@ != "javascript"@,
        "asm_x86_64"@ != "ts"@,
        "asm_x86_64"@ != "typescript"@,
        "asm_x86_64"@ != "cs"@,
        "asm_x86_64"@ != "csharp"@,
        "asm_x86_64"@ != "vb"@,
        "asm_x86_64"@ != "vbnet"@,
        "asm_x86_64"@ != "java"@,
        "asm_x86_64"@ != "julia"@,
        "asm_x86_64"@ != "go"@,
        "asm_x86_64"@ != "prolog"@,
{
    reveal_strlit("asm_x86_64");
    reveal_strlit("asmx86_64");
    reveal_strlit("kt");
    reveal_strlit("kotlin");
    reveal_strlit("sh");
    reveal_strlit("shell");
    reveal_strlit("py");
    reveal_strlit("python");
    reveal_strlit("rb");
    reveal_strlit("ruby");
    reveal_strlit("js");
    reveal_strlit("javascript");
    reveal_strlit("ts");
    reveal_strlit("typescript");
    reveal_strlit("cs");
    reveal_strlit("csharp");
    reveal_strlit("vb");
    reveal_strlit("vbnet");
    reveal_strlit("java");
    reveal_strlit("julia");
    reveal_strlit("go");
    reveal_strlit("prolog");
    assert("asm_x86_64"@.len() == 10);
    assert("asmx86_64"@.len() == 9);
    assert("kt"@.len() == 2);
    assert("kotlin"@.len() == 6);
    assert("sh"@.len() == 2);
    assert("shell"@.len() == 5);
    assert("py"@.len() == 2);
    assert("python"@.len() == 6);
    assert("rb"@.len() == 2);
    assert("ruby"@.len() == 4);
    assert("js"@.len() == 2);
    assert("javascript"@.len() == 10);
    assert("ts"@.len() == 2);
    assert("typescript"@.len() == 10);
    assert("cs"@.len() == 2);
    assert("csharp"@.len() == 6);
    assert("vb"@.len() == 2);
    assert("vbnet"@.len() == 5);
    assert("java"@.len() == 4);
    assert("julia"@.len() == 5);
    assert("go"@.len() == 2);
    assert("prolog"@.len() == 6);
    assert("asm_x86_64"@[0] != "javascript"@[0]);
    assert("asm_x86_64"@[0] != "typescript"@[0]);
}
proof fn lemma_code_distinct_asmx86_64()
    ensures
        "asmx86_64"@ != "kt"@,
        "asmx86_64"@ != "kotlin"@,
        "asmx86_64"@ != "sh"@,
        "asmx86_64"@ != "shell"@,
        "asmx86_64"@ != "py"@,
        "asmx86_64"@ != "python"@,
        "asmx86_64"@ != "rb"@,
        "asmx86_64"@ != "ruby"@,
        "asmx86_64"@ != "js"@,
        "asmx86_64"@ != "javascript"@,
        "asmx86_64"@ != "ts"@,
        "asmx86_64"@ != "typescript"@,
        "asmx86_64"@ != "cs"@,
        "asmx86_64"@ != "csharp"@,
        "asmx86_64"@ != "vb"@,
        "asmx86_64"@ != "vbnet"@,
        "asmx86_64"@ != "java"@,
        "asmx86_64"@ != "julia"@,
        "asmx86_64"@ != "go"@,
        "asmx86_64"@ != "prolog"@,
{
    reveal_strlit("asmx86_64");
    reveal_strlit("kt");
    reveal_strlit("kotlin");
    reveal_strlit("sh");
    reveal_strlit("shell");
    reveal_strlit("py");
    reveal_strlit("python");
    reveal_strlit("rb");
    reveal_strlit("ruby");
    reveal_strlit("js");
    reveal_strlit("javascript");
    reveal_strlit("ts");
    reveal_strlit("typescript");
    reveal_strlit("cs");
    reveal_strlit("csharp");
    reveal_strlit("vb");
    reveal_strlit("vbnet");
    reveal_strlit("java");
    reveal_strlit("julia");
    reveal_strlit("go");
    reveal_strlit("prolog");
    assert("asmx86_64"@.len() == 9);
    assert("kt"@.len() == 2);
    assert("kotlin"@.len() == 6);
    assert("sh"@.len() == 2);
    assert("shell"@.len() == 5);
    assert("py"@.len() == 2);
    assert("python"@.len() == 6);
    assert("rb"@.len() == 2);
    assert("ruby"@.len() == 4);
    assert("js"@.len() == 2);
    assert("javascript"@.len() == 10);
    assert("ts"@.len() == 2);
    assert("typescript"@.len() == 10);
    assert("cs"@.len() == 2);
    assert("csharp"@.len() == 6);
    assert("vb"@.len() == 2);
    assert("vbnet"@.len() == 5);
    assert("java"@.len() == 4);
    assert("julia"@.len() == 5);
    assert("go"@.len() == 2);
    assert("prolog"@.len() == 6);
}
proof fn lemma_code_distinct_kt()
    ensures
        "kt"@ != "kotlin"@,
        "kt"@ != "sh"@,
        "kt"@ != "shell"@,
        "kt"@ != "py"@,
        "kt"@ != "python"@,
        "kt"@ != "rb"@,
        "kt"@ != "ruby"@,
        "kt"@ != "js"@,
        "kt"@ != "javascript"@,
        "kt"@ != "ts"@,
        "kt"@ != "typescript"@,
        "kt"@ != "cs"@,
        "kt"@ != "csharp"@,
        "kt"@ != "vb"@,
        "kt"@ != "vbnet"@,
        "kt"@ != "java"@,
        "kt"@ != "julia"@,
        "kt"@ != "go"@,
        "kt"@ != "prolog"@,
{
    reveal_strlit("kt");
    reveal_strlit("kotlin");
    reveal_strlit("sh");
    reveal_strlit("shell");
    reveal_strlit("py");
    reveal_strlit("python");
    reveal_strlit("rb");
    reveal_strlit("ruby");
    reveal_strlit("js");
    reveal_strlit("javascript");
    reveal_strlit("ts");
    reveal_strlit("typescript");
    reveal_strlit("cs");
    reveal_strlit("csharp");
    reveal_strlit("vb");
    reveal_strlit("vbnet");
    reveal_strlit("java");
    reveal_strlit("julia");
    reveal_strlit("go");
    reveal_strlit("prolog");
    assert("kt"@.len() == 2);
    assert("kotlin"@.len() == 6);
    assert("sh"@.len() == 2);
    assert("shell"@.len() == 5);
    assert("py"@.len() == 2);
    assert("python"@.len() == 6);
    assert("rb"@.len() == 2);
    assert("ruby"@.len() == 4);
    assert("js"@.len() == 2);
    assert("javascript"@.len() == 10);
    assert("ts"@.len() == 2);
    assert("typescript"@.len() == 10);
    assert("cs"@.len() == 2);
    assert("csharp"@.len() == 6);
    assert("vb"@.len() == 2);
    assert("vbnet"@.len() == 5);
    assert("java"@.len() == 4);
    assert("julia"@.len() == 5);
    assert("go"@.len() == 2);
    assert("prolog"@.len() == 6);
    assert("kt"@[0] != "sh"@[0]);
    assert("kt"@[0] != "py"@[0]);
    assert("kt"@[0] != "rb"@[0]);
    assert("kt"@[0] != "js"@[0]);
    assert("kt"@[0] != "ts"@[0]);
    assert("kt"@[0] != "cs"@[0]);
    assert("kt"@[0] != "vb"@[0]);
    assert("kt"@[0] != "go"@[0]);
}
proof fn lemma_code_distinct_kotlin()
    ensures
        "kotlin"@ != "sh"@,
        "kotlin"@ != "shell"@,
        "kotlin"@ != "py"@,
        "kotlin"@ != "python"@,
        "kotlin"@ != "rb"@,
        "kotlin"@ != "ruby"@,
        "kotlin"@ != "js"@,
        "kotlin"@ != "javascript"@,
        "kotlin"@ != "ts"@,
        "kotlin"@ != "typescript"@,
        "kotlin"@ != "cs"@,
        "kotlin"@ != "csharp"@,
        "kotlin"@ != "vb"@,
        "kotlin"@ != "vbnet"@,
        "kotlin"@ != "java"@,
        "kotlin"@ != "julia"@,
        "kotlin"@ != "go"@,
        "kotlin"@ != "prolog"@,
{
    reveal_strlit("kotlin");
    reveal_strlit("sh");
    reveal_strlit("shell");
    reveal_strlit("py");
    reveal_strlit("python");
    reveal_strlit("rb");
    reveal_strlit("ruby");
    reveal_strlit("js");
    reveal_strlit("javascript");
    reveal_strlit("ts");
    reveal_strlit("typescript");
    reveal_strlit("cs");
    reveal_strlit("csharp");
    reveal_strlit("vb");
    reveal_strlit("vbnet");
    reveal_strlit("java");
    reveal_strlit("julia");
    reveal_strlit("go");
    reveal_strlit("prolog");
    assert("kotlin"@.len() == 6);
    assert("sh"@.len() == 2);
    assert("shell"@.len() == 5);
    assert("py"@.len() == 2);
    assert("python"@.len() == 6);
    assert("rb"@.len() == 2);
    assert("ruby"@.len() == 4);
    assert("js"@.len() == 2);
    assert("javascript"@.len() == 10);
    assert("ts"@.len() == 2);
    assert("typescript"@.len() == 10);
    assert("cs"@.len() == 2);
    assert("csharp"@.len() == 6);
    assert("vb"@.len() == 2);
    assert("vbnet"@.len() == 5);
    assert("java"@.len() == 4);
    assert("julia"@.len() == 5);
    assert("go"@.len() == 2);
    assert("prolog"@.len() == 6);
    assert("kotlin"@[0] != "python"@[0]);
    assert("kotlin"@[0] != "csharp"@[0]);
    assert("kotlin"@[0] != "prolog"@[0]);
}
proof fn lemma_code_distinct_sh()
    ensures
        "sh"@ != "shell"@,
        "sh"@ != "py"@,
        "sh"@ != "python"@,
        "sh"@ != "rb"@,
        "sh"@ != "ruby"@,
        "sh"@ != "js"@,
        "sh"@ != "javascript"@,
        "sh"@ != "ts"@,
        "sh"@ != "typescript"@,
        "sh"@ != "cs"@,
        "sh"@ != "csharp"@,
        "sh"@ != "vb"@,
        "sh"@ != "vbnet"@,
        "sh"@ != "java"@,
        "sh"@ != "julia"@,
        "sh"@ != "go"@,
        "sh"@ != "prolog"@,
{
    reveal_strlit("sh");
    reveal_strlit("shell");
    reveal_strlit("py");
    reveal_strlit("python");
    reveal_strlit("rb");
    reveal_strlit("ruby");
    reveal_strlit("js");
    reveal_strlit("javascript");
    reveal_strlit("ts");
    reveal_strlit("typescript");
    reveal_strlit("cs");
    reveal_strlit("csharp");
    reveal_strlit("vb");
    reveal_strlit("vbnet");
    reveal_strlit("java");
    reveal_strlit("julia");
    reveal_strlit("go");
    reveal_strlit("prolog");
    assert("sh"@.len() == 2);
    assert("shell"@.len() == 5);
    assert("py"@.len() == 2);
    assert("python"@.len() == 6);
    assert("rb"@.len() == 2);
    assert("ruby"@.len() == 4);
    assert("js"@.len() == 2);
    assert("javascript"@.len() == 10);
    assert("ts"@.len() == 2);
    assert("typescript"@.len() == 10);
    assert("cs"@.len() == 2);
    assert("csharp"@.len() == 6);
    assert("vb"@.len() == 2);
    assert("vbnet"@.len() == 5);
    assert("java"@.len() == 4);
    assert("julia"@.len() == 5);
    assert("go"@.len() == 2);
    assert("prolog"@.len() == 6);
    assert("sh"@[0] != "py"@[0]);
    assert("sh"@[0] != "rb"@[0]);
    assert("sh"@[0] != "js"@[0]);
    assert("sh"@[0] != "ts"@[0]);
    assert("sh"@[0] != "cs"@[0]);
    assert("sh"@[0] != "vb"@[0]);
    assert("sh"@[0] != "go"@[0]);
}
proof fn lemma_code_distinct_shell()
    ensures
        "shell"@ != "py"@,
        "shell"@ != "python"@,
        "shell"@ != "rb"@,
        "shell"@ != "ruby"@,
        "shell"@ != "js"@,
        "shell"@ != "javascript"@,
        "shell"@ != "ts"@,
        "shell"@ != "typescript"@,
        "shell"@ != "cs"@,
        "shell"@ != "csharp"@,
        "shell"@ != "vb"@,
        "shell"@ != "vbnet"@,
        "shell"@ != "java"@,
        "shell"@ != "julia"@,
        "shell"@ != "go"@,
        "shell"@ != "prolog"@,
{
    reveal_strlit("shell");
    reveal_strlit("py");
    reveal_strlit("python");
    reveal_strlit("rb");
    reveal_strlit("ruby");
    reveal_strlit("js");
    reveal_strlit("javascript");
    reveal_strlit("ts");
    reveal_strlit("typescript");
    reveal_strlit("cs");
    reveal_strlit("csharp");
    reveal_strlit("vb");
    reveal_strlit("vbnet");
    reveal_strlit("java");
    reveal_strlit("julia");
    reveal_strlit("go");
    reveal_strlit("prolog");
    assert("shell"@.len() == 5);
    assert("py"@.len() == 2);
    assert("python"@.len() == 6);
    assert("rb"@.len() == 2);
    assert("ruby"@.len() == 4);
    assert("js"@.len() == 2);
    assert("javascript"@.len() == 10);
    assert("ts"@.len() == 2);
    assert("typescript"@.len() == 10);
    assert("cs"@.len() == 2);
    assert("csharp"@.len() == 6);
    assert("vb"@.len() == 2);
    assert("vbnet"@.len() == 5);
    assert("java"@.len() == 4);
    assert("julia"@.len() == 5);
    assert("go"@.len() == 2);
    assert("prolog"@.len() == 6);
    assert("shell"@[0] != "vbnet"@[0]);
    assert("shell"@[0] != "julia"@[0]);
}
proof fn lemma_code_distinct_py()
    ensures
        "py"@ != "python"@,
        "py"@ != "rb"@,
        "py"@ != "ruby"@,
        "py"@ != "js"@,
        "py"@ != "javascript"@,
        "py"@ != "ts"@,
        "py"@ != "typescript"@,
        "py"@ != "cs"@,
        "py"@ != "csharp"@,
        "py"@ != "vb"@,
        "py"@ != "vbnet"@,
        "py"@ != "java"@,
        "py"@ != "julia"@,
        "py"@ != "go"@,
        "py"@ != "prolog"@,
{
    reveal_strlit("py");
    reveal_strlit("python");
    reveal_strlit("rb");
    reveal_strlit("ruby");
    reveal_strlit("js");
    reveal_strlit("javascript");
    reveal_strlit("ts");
    reveal_strlit("typescript");
    reveal_strlit("cs");
    reveal_strlit("csharp");
    reveal_strlit("vb");
    reveal_strlit("vbnet");
    reveal_strlit("java");
    reveal_strlit("julia");
    reveal_strlit("go");
    reveal_strlit("prolog");
    assert("py"@.len() == 2);
    assert("python"@.len() == 6);
    assert("rb"@.len() == 2);
    assert("ruby"@.len() == 4);
    assert("js"@.len() == 2);
    assert("javascript"@.len() == 10);
    assert("ts"@.len() == 2);
    assert("typescript"@.len() == 10);
    assert("cs"@.len() == 2);
    assert("csharp"@.len() == 6);
    assert("vb"@.len() == 2);
    assert("vbnet"@.len() == 5);
    assert("java"@.len() == 4);
    assert("julia"@.len() == 5);
    assert("go"@.len() == 2);
    assert("prolog"@.len() == 6);
    assert("py"@[0] != "rb"@[0]);
    assert("py"@[0] != "js"@[0]);
    assert("py"@[0] != "ts"@[0]);
    assert("py"@[0] != "cs"@[0]);
    assert("py"@[0] != "vb"@[0]);
    assert("py"@[0] != "go"@[0]);
}
proof fn lemma_code_distinct_python()
    ensures
        "python"@ != "rb"@,
        "python"@ != "ruby"@,
        "python"@ != "js"@,
        "python"@ != "javascript"@,
        "python"@ != "ts"@,
        "python"@ != "typescript"@,
        "python"@ != "cs"@,
        "python"@ != "csharp"@,
        "python"@ != "vb"@,
        "python"@ != "vbnet"@,
        "python"@ != "java"@,
        "python"@ != "julia"@,
        "python"@ != "go"@,
        "python"@ != "prolog"@,
{
    reveal_strlit("python");
    reveal_strlit("rb");
    reveal_strlit("ruby");
    reveal_strlit("js");
    reveal_strlit("javascript");
    reveal_strlit("ts");
    reveal_strlit("typescript");
    reveal_strlit("cs");
    reveal_strlit("csharp");
    reveal_strlit("vb");
    reveal_strlit("vbnet");
    reveal_strlit("java");
    reveal_strlit("julia");
    reveal_strlit("go");
    reveal_strlit("prolog");
    assert("python"@.len() == 6);
    assert("rb"@.len() == 2);
    assert("ruby"@.len() == 4);
    assert("js"@.len() == 2);
    assert("javascript"@.len() == 10);
    assert("ts"@.len() == 2);
    assert("typescript"@.len() == 10);
    assert("cs"@.len() == 2);
    assert("csharp"@.len() == 6);
    assert("vb"@.len() == 2);
    assert("vbnet"@.len() == 5);
    assert("java"@.len() == 4);
    assert("julia"@.len() == 5);
    assert("go"@.len() == 2);
    assert("prolog"@.len() == 6);
    assert("python"@[0] != "csharp"@[0]);
    assert("python"@[1] != "prolog"@[1]);
}
proof fn lemma_code_distinct_rb()
    ensures
        "rb"@ != "ruby"@,
        "rb"@ != "js"@,
        "rb"@ != "javascript"@,
        "rb"@ != "ts"@,
        "rb"@ != "typescript"@,
        "rb"@ != "cs"@,
        "rb"@ != "csharp"@,
        "rb"@ != "vb"@,
        "rb"@ != "vbnet"@,
        "rb"@ != "java"@,
        "rb"@ != "julia"@,
        "rb"@ != "go"@,
        "rb"@ != "prolog"@,
{
    reveal_strlit("rb");
    reveal_strlit("ruby");
    reveal_strlit("js");
    reveal_strlit("javascript");
    reveal_strlit("ts");
    reveal_strlit("typescript");
    reveal_strlit("cs");
    reveal_strlit("csharp");
    reveal_strlit("vb");
    reveal_strlit("vbnet");
    reveal_strlit("java");
    reveal_strlit("julia");
    reveal_strlit("go");
    reveal_strlit("prolog");
    assert("rb"@.len() == 2);
    assert("ruby"@.len() == 4);
    assert("js"@.len() == 2);
    assert("javascript"@.len() == 10);
    assert("ts"@.len() == 2);
    assert("typescript"@.len() == 10);
    assert("cs"@.len() == 2);
    assert("csharp"@.len() == 6);
    assert("vb"@.len() == 2);
    assert("vbnet"@.len() == 5);
    assert("java"@.len() == 4);
    assert("julia"@.len() == 5);
    assert("go"@.len() == 2);
    assert("prolog"@.len() == 6);
    assert("rb"@[0] != "js"@[0]);
    assert("rb"@[0] != "ts"@[0]);
    assert("rb"@[0] != "cs"@[0]);
    assert("rb"@[0] != "vb"@[0]);
    assert("rb"@[0] != "go"@[0]);
}
proof fn lemma_code_distinct_ruby()
    ensures
        "ruby"@ != "js"@,
        "ruby"@ != "javascript"@,
        "ruby"@ != "ts"@,
        "ruby"@ != "typescript"@,
        "ruby"@ != "cs"@,
        "ruby"@ != "csharp"@,
        "ruby"@ != "vb"@,
        "ruby"@ != "vbnet"@,
        "ruby"@ != "java"@,
        "ruby"@ != "julia"@,
        "ruby"@ != "go"@,
        "ruby"@ != "prolog"@,
{
    reveal_strlit("ruby");
    reveal_strlit("js");
    reveal_strlit("javascript");
    reveal_strlit("ts");
    reveal_strlit("typescript");
    reveal_strlit("cs");
    reveal_strlit("csharp");
    reveal_strlit("vb");
    reveal_strlit("vbnet");
    reveal_strlit("java");
    reveal_strlit("julia");
    reveal_strlit("go");
    reveal_strlit("prolog");
    assert("ruby"@.len() == 4);
    assert("js"@.len() == 2);
    assert("javascript"@.len() == 10);
    assert("ts"@.len() == 2);
    assert("typescript"@.len() == 10);
    assert("cs"@.len() == 2);
    assert("csharp"@.len() == 6);
    assert("vb"@.len() == 2);
    assert("vbnet"@.len() == 5);
    assert("java"@.len() == 4);
    assert("julia"@.len() == 5);
    assert("go"@.len() == 2);
    assert("prolog"@.len() == 6);
    assert("ruby"@[0] != "java"@[0]);
}
proof fn lemma_code_distinct_js()
    ensures
        "js"@ != "javascript"@,
        "js"@ != "ts"@,
        "js"@ != "typescript"@,
        "js"@ != "cs"@,
        "js"@ != "csharp"@,
        "js"@ != "vb"@,
        "js"@ != "vbnet"@,
        "js"@ != "java"@,
        "js"@ != "julia"@,
        "js"@ != "go"@,
        "js"@ != "prolog"@,
{
    reveal_strlit("js");
    reveal_strlit("javascript");
    reveal_strlit("ts");
    reveal_strlit("typescript");
    reveal_strlit("cs");
    reveal_strlit("csharp");
    reveal_strlit("vb");
    reveal_strlit("vbnet");
    reveal_strlit("java");
    reveal_strlit("julia");
    reveal_strlit("go");
    reveal_strlit("prolog");
    assert("js"@.len() == 2);
    assert("javascript"@.len() == 10);
    assert("ts"@.len() == 2);
    assert("typescript"@.len() == 10);
    assert("cs"@.len() == 2);
    assert("csharp"@.len() == 6);
    assert("vb"@.len() == 2);
    assert("vbnet"@.len() == 5);
    assert("java"@.len() == 4);
    assert("julia"@.len() == 5);
    assert("go"@.len() == 2);
    assert("prolog"@.len() == 6);
    assert("js"@[0] != "ts"@[0]);
    assert("js"@[0] != "cs"@[0]);
    assert("js"@[0] != "vb"@[0]);
    assert("js"@[0] != "go"@[0]);
}
proof fn lemma_code_distinct_javascript()
    ensures
        "javascript"@ != "ts"@,
        "javascript"@ != "typescript"@,
        "javascript"@ != "cs"@,
        "javascript"@ != "csharp"@,
        "javascript"@ != "vb"@,
        "javascript"@ != "vbnet"@,
        "javascript"@ != "java"@,
        "javascript"@ != "julia"@,
        "javascript"@ != "go"@,
        "javascript"@ != "prolog"@,
{
    reveal_strlit("javascript");
    reveal_strlit("ts");
    reveal_strlit("typescript");
    reveal_strlit("cs");
    reveal_strlit("csharp");
    reveal_strlit("vb");
    reveal_strlit("vbnet");
    reveal_strlit("java");
    reveal_strlit("julia");
    reveal_strlit("go");
    reveal_strlit("prolog");
    assert("javascript"@.len() == 10);
    assert("ts"@.len() == 2);
    assert("typescript"@.len() == 10);
    assert("cs"@.len() == 2);
    assert("csharp"@.len() == 6);
    assert("vb"@.len() == 2);
    assert("vbnet"@.len() == 5);
    assert("java"@.len() == 4);
    assert("julia"@.len() == 5);
    assert("go"@.len() == 2);
    assert("prolog"@.len() == 6);
    assert("javascript"@[0] != "typescript"@[0]);
}
proof fn lemma_code_distinct_ts()
    ensures
        "ts"@ != "typescript"@,
        "ts"@ != "cs"@,
        "ts"@ != "csharp"@,
        "ts"@ != "vb"@,
        "ts"@ != "vbnet"@,
        "ts"@ != "java"@,
        "ts"@ != "julia"@,
        "ts"@ != "go"@,
        "ts"@ != "prolog"@,
{
    reveal_strlit("ts");
    reveal_strlit("typescript");
    reveal_strlit("cs");
    reveal_strlit("csharp");
    reveal_strlit("vb");
    reveal_strlit("vbnet");
    reveal_strlit("java");
    reveal_strlit("julia");
    reveal_strlit("go");
    reveal_strlit("prolog");
    assert("ts"@.len() == 2);
    assert("typescript"@.len() == 10);
    assert("cs"@.len() == 2);
    assert("csharp"@.len() == 6);
    assert("vb"@.len() == 2);
    assert("vbnet"@.len() == 5);
    assert("java"@.len() == 4);
    assert("julia"@.len() == 5);
    assert("go"@.len() == 2);
    assert("prolog"@.len() == 6);
    assert("ts"@[0] != "cs"@[0]);
    assert("ts"@[0] != "vb"@[0]);
    assert("ts"@[0] != "go"@[0]);
}
proof fn lemma_code_distinct_typescript()
    ensures
        "typescript"@ != "cs"@,
        "typescript"@ != "csharp"@,
        "typescript"@ != "vb"@,
        "typescript"@ != "vbnet"@,
        "typescript"@ != "java"@,
        "typescript"@ != "julia"@,
        "typescript"@ != "go"@,
        "typescript"@ != "prolog"@,
{
    reveal_strlit("typescript");
    reveal_strlit("cs");
    reveal_strlit("csharp");
    reveal_strlit("vb");
    reveal_strlit("vbnet");
    reveal_strlit("java");
    reveal_strlit("julia");
    reveal_strlit("go");
    reveal_strlit("prolog");
    assert("typescript"@.len() == 10);
    assert("cs"@.len() == 2);
    assert("csharp"@.len() == 6);
    assert("vb"@.len() == 2);
    assert("vbnet"@.len() == 5);
    assert("java"@.len() == 4);
    assert("julia"@.len() == 5);
    assert("go"@.len() == 2);
    assert("prolog"@.len() == 6);
}
proof fn lemma_code_distinct_cs()
    ensures
        "cs"@ != "csharp"@,
        "cs"@ != "vb"@,
        "cs"@ != "vbnet"@,
        "cs"@ != "java"@,
        "cs"@ != "julia"@,
        "cs"@ != "go"@,
        "cs"@ != "prolog"@,
{
    reveal_strlit("cs");
    reveal_strlit("csharp");
    reveal_strlit("vb");
    reveal_strlit("vbnet");
    reveal_strlit("java");
    reveal_strlit("julia");
    reveal_strlit("go");
    reveal_strlit("prolog");
    assert("cs"@.len() == 2);
    assert("csharp"@.len() == 6);
    assert("vb"@.len() == 2);
    assert("vbnet"@.len() == 5);
    assert("java"@.len() == 4);
    assert("julia"@.len() == 5);
    assert("go"@.len() == 2);
    assert("prolog"@.len() == 6);
    assert("cs"@[0] != "vb"@[0]);
    assert("cs"@[0] != "go"@[0]);
}
proof fn lemma_code_distinct_csharp()
    ensures
        "csharp"@ != "vb"@,
        "csharp"@ != "vbnet"@,
        "csharp"@ != "java"@,
        "csharp"@ != "julia"@,
        "csharp"@ != "go"@,
        "csharp"@ != "prolog"@,
{
    reveal_strlit("csharp");
    reveal_strlit("vb");
    reveal_strlit("vbnet");
    reveal_strlit("java");
    reveal_strlit("julia");
    reveal_strlit("go");
    reveal_strlit("prolog");
    assert("csharp"@.len() == 6);
    assert("vb"@.len() == 2);
    assert("vbnet"@.len() == 5);
    assert("java"@.len() == 4);
    assert("julia"@.len() == 5);
    assert("go"@.len() == 2);
    assert("prolog"@.len() == 6);
    assert("csharp"@[0] != "prolog"@[0]);
}
proof fn lemma_code_distinct_vb()
    ensures
        "vb"@ != "vbnet"@,
        "vb"@ != "java"@,
        "vb"@ != "julia"@,
        "vb"@ != "go"@,
        "vb"@ != "prolog"@,
{
    reveal_strlit("vb");
    reveal_strlit("vbnet");
    reveal_strlit("java");
    reveal_strlit("julia");
    reveal_strlit("go");
    reveal_strlit("prolog");
    assert("vb"@.len() == 2);
    assert("vbnet"@.len() == 5);
    assert("java"@.len() == 4);
    assert("julia"@.len() == 5);
    assert("go"@.len() == 2);
    assert("prolog"@.len() == 6);
    assert("vb"@[0] != "go"@[0]);
}
proof fn lemma_code_distinct_vbnet()
    ensures
        "vbnet"@ != "java"@,
        "vbnet"@ != "julia"@,
        "vbnet"@ != "go"@,
        "vbnet"@ != "prolog"@,
{
    reveal_strlit("vbnet");
    reveal_strlit("java");
    reveal_strlit("julia");
    reveal_strlit("go");
    reveal_strlit("prolog");
    assert("vbnet"@.len() == 5);
    assert("java"@.len() == 4);
    assert("julia"@.len() == 5);
    assert("go"@.len() == 2);
    assert("prolog"@.len() == 6);
    assert("vbnet"@[0] != "julia"@[0]);
}
proof fn lemma_code_distinct_java()
    ensures
        "java"@ != "julia"@,
        "java"@ != "go"@,
        "java"@ != "prolog"@,
{
    reveal_strlit("java");
    reveal_strlit("julia");
    reveal_strlit("go");
    reveal_strlit("prolog");
    assert("java"@.len() == 4);
    assert("julia"@.len() == 5);
    assert("go"@.len() == 2);
    assert("prolog"@.len() == 6);
}
proof fn lemma_code_distinct_julia()
    ensures
        "julia"@ != "go"@,
        "julia"@ != "prolog"@,
{
    reveal_strlit("julia");
    reveal_strlit("go");
    reveal_strlit("prolog");
    assert("julia"@.len() == 5);
    assert("go"@.len() == 2);
    assert("prolog"@.len() == 6);
}
proof fn lemma_code_distinct_go()
    ensures
        "go"@ != "prolog"@,
{
    reveal_strlit("go");
    reveal_strlit("prolog");
    assert("go"@.len() == 2);
    assert("prolog"@.len() == 6);
}

/// A code maps to at most one descriptor: no lookup code is declared
/// twice anywhere in the registration table.
#[verifier::rlimit(100)]
pub proof fn lemma_registry_codes_distinct(i: int, j: int, k: int, l: int)
    requires
        0 <= i < registry_table().len(),
        0 <= j < registry_table()[i].0.len(),
        0 <= k < registry_table().len(),
        0 <= l < registry_table()[k].0.len(),
        i != k || j != l,
    ensures
        registry_table()[i].0[j] != registry_table()[k].0[l],
{
    lemma_code_distinct_rs();
    lemma_code_distinct_rust();
    lemma_code_distinct_c();
    lemma_code_distinct_cpp();
    lemma_code_distinct_php();
    lemma_code_distinct_lua();
    lemma_code_distinct_asmx86();
    lemma_code_distinct_asm_x86();
    lemma_code_distinct_hs();
    lemma_code_distinct_haskell();
    lemma_code_distinct_asmx64();
    lemma_code_distinct_asm_x64();
    lemma_code_distinct_asm_x86_64();
    lemma_code_distinct_asmx86_64();
    lemma_code_distinct_kt();
    lemma_code_distinct_kotlin();
    lemma_code_distinct_sh();
    lemma_code_distinct_shell();
    lemma_code_distinct_py();
    lemma_code_distinct_python();
    lemma_code_distinct_rb();
    lemma_code_distinct_ruby();
    lemma_code_distinct_js();
    lemma_code_distinct_javascript();
    lemma_code_distinct_ts();
    lemma_code_distinct_typescript();
    lemma_code_distinct_cs();
    lemma_code_distinct_csharp();
    lemma_code_distinct_vb();
    lemma_code_distinct_vbnet();
    lemma_code_distinct_java();
    lemma_code_distinct_julia();
    lemma_code_distinct_go();
}

proof fn lemma_lookup_at(entries: Seq<LangEntry>, code: Seq<char>, i: int)
    requires
        0 <= i < entries.len(),
        entries[i].has_code(code),
        forall|k: int| 0 <= k < i ==> !entries[k].has_code(code),
    ensures
        spec_lookup(entries, code) == Some(entries[i].lang),
    decreases i,
{
    if i > 0 {
        assert forall|k: int| 0 <= k < i - 1 implies !entries.drop_first()[k].has_code(
            code,
        ) by {
            assert(entries.drop_first()[k] == entries[k + 1]);
        }
        assert(entries.drop_first()[i - 1] == entries[i]);
        lemma_lookup_at(entries.drop_first(), code, i - 1);
    }
}

/// Alias-consistency of the built registry: every registered code, in any
/// casing, resolves to exactly the language it was registered with.
pub proof fn lemma_alias_consistent(m: LangManager, variant: Seq<char>, i: int, j: int)
    requires
        m.codes_table() == registry_table(),
        0 <= i < registry_table().len(),
        0 <= j < registry_table()[i].0.len(),
        lower_seq(variant) == lower_seq(registry_table()[i].0[j]),
    ensures
        spec_resolve(m, variant) == Some(registry_table()[i].1),
{
    let code = registry_table()[i].0[j];
    lemma_registry_codes_lower(i, j);
    assert(m.entries@.len() == registry_table().len());
    assert forall|k: int| 0 <= k < m.entries@.len() implies (m.entries@[k].codes.deep_view()
        == registry_table()[k].0 && m.entries@[k].lang == registry_table()[k].1) by {
        assert(m.codes_table()[k] == registry_table()[k]);
    }
    assert(m.entries@[i].has_code(code)) by {
        assert(m.entries@[i].codes.deep_view()[j] == code);
        assert(m.entries@[i].codes@[j]@ == code);
    }
    assert forall|k: int| 0 <= k < i implies !m.entries@[k].has_code(code) by {
        if m.entries@[k].has_code(code) {
            let j2 = choose|j2: int|
                0 <= j2 < m.entries@[k].codes@.len() && m.entries@[k].codes@[j2]@ == code;
            assert(m.entries@[k].codes.deep_view()[j2] == code);
            assert(registry_table()[k].0[j2] == code);
            lemma_registry_codes_distinct(i, j, k, j2);
            assert(false);
        }
    }
    lemma_lookup_at(m.entries@, code, i);
}

} // verus!
