use crate::project::is_php_project;
use crate::project::php_project;
use crate::version::format_php_version;
use crate::version::formatted_version;
use vstd::prelude::*;
use vstd::string::StringExecFns;

verus! {

#[verifier::external_type_specification]
pub struct ExColour(ansi_term::Colour);

#[verifier::external_type_specification]
pub struct ExStyle(ansi_term::Style);

/// Relies on ansi_term's `Colour::bold`: a style with this colour as its
/// foreground and the bold property set, and nothing else.
pub assume_specification[ ansi_term::Colour::bold ](c: ansi_term::Colour) -> (r: ansi_term::Style)
    ensures
        r == (ansi_term::Style {
            foreground: Some(c),
            background: None,
            is_bold: true,
            is_dimmed: false,
            is_italic: false,
            is_underline: false,
            is_blink: false,
            is_reverse: false,
            is_hidden: false,
            is_strikethrough: false,
        }),
;

/// One named piece of text of a prompt module.
pub struct Segment {
    pub name: String,
    pub value: String,
}

/// A named, styled unit of prompt output, made of text segments in order.
pub struct Module {
    pub name: String,
    pub style: ansi_term::Style,
    pub segments: Vec<Segment>,
}

/// The style of the PHP module: bold blue.
pub open spec fn php_style() -> ansi_term::Style {
    ansi_term::Style {
        foreground: Some(ansi_term::Colour::Blue),
        background: None,
        is_bold: true,
        is_dimmed: false,
        is_italic: false,
        is_underline: false,
        is_blink: false,
        is_reverse: false,
        is_hidden: false,
        is_strikethrough: false,
    }
}

/// `m` is the PHP module that shows `version`: named `php`, bold blue, with an
/// elephant in the segment `symbot` and `version` in the segment `version`.
pub open spec fn is_php_module(m: Module, version: Seq<char>) -> bool {
    &&& m.name@ == seq!['p', 'h', 'p']
    &&& m.style == php_style()
    &&& m.segments.len() == 2
    &&& m.segments[0].name@ == seq!['s', 'y', 'm', 'b', 'o', 't']
    &&& m.segments[0].value@ == seq!['\u{1F418}', ' ']
    &&& m.segments[1].name@ == seq!['v', 'e', 'r', 's', 'i', 'o', 'n']
    &&& m.segments[1].value@ == version
}

/// What the module is, given what the version query returned: none where it
/// returned nothing or output with no version in it.
pub open spec fn module_for(m: Option<Module>, query_output: Option<String>) -> bool {
    match query_output {
        None => m is None,
        Some(out) => match formatted_version(out@) {
            None => m is None,
            Some(v) => m is Some && is_php_module(m->0, v),
        },
    }
}

/// Builds the PHP module of the prompt for a directory whose files have the
/// names `file_names`. Only where the directory is a PHP project is
/// `query_version` called, for the output of `php -v`; the module then shows
/// the version formatted from that output.
pub fn segment<F: FnOnce() -> Option<String>>(file_names: &Vec<String>, query_version: F) -> (r:
    Option<Module>)
    requires
        php_project(file_names@) ==> query_version.requires(()),
    ensures
        !php_project(file_names@) ==> r is None,
        php_project(file_names@) ==> exists|out: Option<String>|
            query_version.ensures((), out) && module_for(r, out),
{
    if !is_php_project(file_names) {
        return None;
    }
    let output = query_version();
    let ghost out = output;
    let php_stdout = match output {
        Some(text) => text,
        None => {
            assert(module_for(None, out));
            return None;
        },
    };
    let version = match format_php_version(php_stdout) {
        Some(v) => v,
        None => {
            assert(module_for(None, out));
            return None;
        },
    };
    let mut segments: Vec<Segment> = Vec::new();
    let symbol = String::from_str("\u{1F418} ");
    let symbol_name = String::from_str("symbot");
    let version_name = String::from_str("version");
    let name = String::from_str("php");
    proof {
        reveal_strlit("\u{1F418} ");
        reveal_strlit("symbot");
        reveal_strlit("version");
        reveal_strlit("php");
    }
    segments.push(Segment { name: symbol_name, value: symbol });
    segments.push(Segment { name: version_name, value: version });
    let m = Module { name, style: ansi_term::Colour::Blue.bold(), segments };
    assert(m.name@ =~= seq!['p', 'h', 'p']);
    assert(m.segments[0].name@ =~= seq!['s', 'y', 'm', 'b', 'o', 't']);
    assert(m.segments[0].value@ =~= seq!['\u{1F418}', ' ']);
    assert(m.segments[1].name@ =~= seq!['v', 'e', 'r', 's', 'i', 'o', 'n']);
    assert(module_for(Some(m), out));
    Some(m)
}

} // verus!
