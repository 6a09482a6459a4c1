//! The per-language capability interface: how to preprocess, compile, run
//! and probe one language, as pure policy over path strings.
//!
//! Compile commands are structured argument lists: an optional sequence of
//! steps, each an argv array, run in order inside the container.

use vstd::prelude::*;

verus! {

/// Policy object for one supported language. Every method is pure: the
/// exec methods return exactly what the corresponding spec functions say.
pub trait Language: Sized {
    /// Canonical display name.
    spec fn spec_lang_name(&self) -> Seq<char>;

    /// Identifier of the container image with this language's toolchain.
    spec fn spec_image_name(&self) -> Seq<char>;

    /// Source file suffix for the scratch file.
    spec fn spec_source_file_ext(&self) -> Seq<char>;

    /// `None` when the snippet already has an entry point (no rewrite);
    /// otherwise the snippet wrapped in minimal boilerplate.
    spec fn spec_pre_process_code(&self, code: Seq<char>, src_path: Seq<char>) -> Option<Seq<char>>;

    /// Where the built artifact is placed inside the container.
    spec fn spec_out_path(&self, src_path: Seq<char>) -> Seq<char>;

    /// `None` marks an interpreted language; otherwise the ordered compile
    /// steps, each an argv array.
    spec fn spec_compiler_command(&self, src_path: Seq<char>, exe_path: Seq<char>) -> Option<
        Seq<Seq<Seq<char>>>,
    >;

    /// Argv array that runs the built artifact (or the source directly).
    spec fn spec_execution_command(&self, path: Seq<char>) -> Seq<Seq<char>>;

    /// Cheap shell line probing that the toolchain is present; its output
    /// is harvested as the version string.
    spec fn spec_check_compiler_or_interpreter(&self) -> Seq<char>;

    fn get_lang_name(&self) -> (r: String)
        ensures
            r@ == self.spec_lang_name(),
    ;

    fn get_image_name(&self) -> (r: String)
        ensures
            r@ == self.spec_image_name(),
    ;

    fn get_source_file_ext(&self) -> (r: String)
        ensures
            r@ == self.spec_source_file_ext(),
    ;

    fn pre_process_code(&self, code: &str, src_path: &str) -> (r: Option<String>)
        ensures
            r.deep_view() == self.spec_pre_process_code(code@, src_path@),
    ;

    fn get_out_path(&self, src_path: &str) -> (r: String)
        ensures
            r@ == self.spec_out_path(src_path@),
    ;

    fn get_compiler_command(&self, src_path: &str, exe_path: &str) -> (r: Option<Vec<Vec<String>>>)
        ensures
            r.deep_view() == self.spec_compiler_command(src_path@, exe_path@),
    ;

    fn get_execution_command(&self, path: &str) -> (r: Vec<String>)
        ensures
            r.deep_view() == self.spec_execution_command(path@),
    ;

    fn check_compiler_or_interpreter(&self) -> (r: String)
        ensures
            r@ == self.spec_check_compiler_or_interpreter(),
    ;

    /// Cosmetic: where the language's logo is served from.
    fn get_logo_url(&self) -> (r: String)
        ensures
            r@ == "https://raw.githubusercontent.com/Kryod/rustacean/master/logos/"@
                + crate::strutil::lower_seq(self.spec_lang_name()) + ".png"@,
    {
        let name = self.get_lang_name();
        let low = crate::strutil::to_lower_str(name.as_str());
        crate::strutil::concat3(
            "https://raw.githubusercontent.com/Kryod/rustacean/master/logos/",
            low.as_str(),
            ".png",
        )
    }
}

/// The default artifact path: the source path with `.out` appended.
pub open spec fn spec_default_out_path(src_path: Seq<char>) -> Seq<char> {
    src_path + ".out"@
}

pub fn default_out_path(src_path: &str) -> (r: String)
    ensures
        r@ == spec_default_out_path(src_path@),
{
    let mut out = src_path.to_owned();
    out.append(".out");
    out
}

pub fn argv1(a: &str) -> (r: Vec<String>)
    ensures
        r.deep_view() == seq![a@],
{
    let mut v: Vec<String> = Vec::new();
    v.push(a.to_owned());
    proof {
        assert(v.deep_view() =~= seq![a@]);
    }
    v
}

pub fn argv2(a: &str, b: &str) -> (r: Vec<String>)
    ensures
        r.deep_view() == seq![a@, b@],
{
    let mut v: Vec<String> = Vec::new();
    v.push(a.to_owned());
    v.push(b.to_owned());
    proof {
        assert(v.deep_view() =~= seq![a@, b@]);
    }
    v
}

pub fn argv3(a: &str, b: &str, c: &str) -> (r: Vec<String>)
    ensures
        r.deep_view() == seq![a@, b@, c@],
{
    let mut v: Vec<String> = Vec::new();
    v.push(a.to_owned());
    v.push(b.to_owned());
    v.push(c.to_owned());
    proof {
        assert(v.deep_view() =~= seq![a@, b@, c@]);
    }
    v
}

pub fn argv4(a: &str, b: &str, c: &str, d: &str) -> (r: Vec<String>)
    ensures
        r.deep_view() == seq![a@, b@, c@, d@],
{
    let mut v: Vec<String> = Vec::new();
    v.push(a.to_owned());
    v.push(b.to_owned());
    v.push(c.to_owned());
    v.push(d.to_owned());
    proof {
        assert(v.deep_view() =~= seq![a@, b@, c@, d@]);
    }
    v
}

pub fn argv5(a: &str, b: &str, c: &str, d: &str, e: &str) -> (r: Vec<String>)
    ensures
        r.deep_view() == seq![a@, b@, c@, d@, e@],
{
    let mut v: Vec<String> = Vec::new();
    v.push(a.to_owned());
    v.push(b.to_owned());
    v.push(c.to_owned());
    v.push(d.to_owned());
    v.push(e.to_owned());
    proof {
        assert(v.deep_view() =~= seq![a@, b@, c@, d@, e@]);
    }
    v
}

pub fn argv6(a: &str, b: &str, c: &str, d: &str, e: &str, f: &str) -> (r: Vec<String>)
    ensures
        r.deep_view() == seq![a@, b@, c@, d@, e@, f@],
{
    let mut v: Vec<String> = Vec::new();
    v.push(a.to_owned());
    v.push(b.to_owned());
    v.push(c.to_owned());
    v.push(d.to_owned());
    v.push(e.to_owned());
    v.push(f.to_owned());
    proof {
        assert(v.deep_view() =~= seq![a@, b@, c@, d@, e@, f@]);
    }
    v
}

pub fn one_step(a: Vec<String>) -> (r: Vec<Vec<String>>)
    ensures
        r.deep_view() == seq![a.deep_view()],
{
    let ghost ga = a.deep_view();
    let mut v: Vec<Vec<String>> = Vec::new();
    v.push(a);
    proof {
        assert(v.deep_view() =~= seq![ga]);
    }
    v
}

pub fn two_steps(a: Vec<String>, b: Vec<String>) -> (r: Vec<Vec<String>>)
    ensures
        r.deep_view() == seq![a.deep_view(), b.deep_view()],
{
    let ghost ga = a.deep_view();
    let ghost gb = b.deep_view();
    let mut v: Vec<Vec<String>> = Vec::new();
    v.push(a);
    v.push(b);
    proof {
        assert(v.deep_view() =~= seq![ga, gb]);
    }
    v
}

} // verus!
