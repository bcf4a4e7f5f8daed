use vstd::prelude::*;
use vstd::string::StrSliceExecFns;
use vstd::string::StringExecFns;

verus! {

/// `name` has the extension `php`: it ends in `.php`, and something comes
/// before that dot (a name such as `.php` has no extension).
pub open spec fn has_php_extension(name: Seq<char>) -> bool {
    name.len() > 4 && name.subrange(name.len() - 4, name.len() as int) == seq!['.', 'p', 'h', 'p']
}

/// The name of the file that marks a Composer project.
pub open spec fn composer_manifest() -> Seq<char> {
    seq!['c', 'o', 'm', 'p', 'o', 's', 'e', 'r', '.', 'j', 's', 'o', 'n']
}

/// A directory whose files have these names is a PHP project: it holds
/// `composer.json` or a file with the extension `php`.
pub open spec fn php_project(file_names: Seq<String>) -> bool {
    exists|i: int|
        0 <= i < file_names.len() && (#[trigger] file_names[i]@ == composer_manifest()
            || has_php_extension(file_names[i]@))
}

/// Tells whether the file name `name` has the extension `php`.
pub fn is_php_file(name: &str) -> (r: bool)
    ensures
        r == has_php_extension(name@),
{
    let n = name.unicode_len();
    if n <= 4 {
        return false;
    }
    let r = name.get_char(n - 4) == '.' && name.get_char(n - 3) == 'p' && name.get_char(n - 2)
        == 'h' && name.get_char(n - 1) == 'p';
    proof {
        let tail = name@.subrange(n - 4, n as int);
        if r {
            assert(tail =~= seq!['.', 'p', 'h', 'p']);
        } else if tail == seq!['.', 'p', 'h', 'p'] {
            assert(tail[0] == name@[n - 4]);
            assert(tail[1] == name@[n - 3]);
            assert(tail[2] == name@[n - 2]);
            assert(tail[3] == name@[n - 1]);
        }
    }
    r
}

/// Tells whether a directory whose files have the names `file_names` is a PHP
/// project: one that holds `composer.json` or a `.php` file.
pub fn is_php_project(file_names: &Vec<String>) -> (r: bool)
    ensures
        r == php_project(file_names@),
{
    let manifest = String::from_str("composer.json");
    proof {
        reveal_strlit("composer.json");
        assert(manifest@ =~= composer_manifest());
    }
    let mut i: usize = 0;
    while i < file_names.len()
        invariant
            i <= file_names@.len(),
            manifest@ == composer_manifest(),
            forall|j: int|
                0 <= j < i ==> !(#[trigger] file_names@[j]@ == composer_manifest()
                    || has_php_extension(file_names@[j]@)),
        decreases file_names.len() - i,
    {
        let name = &file_names[i];
        if *name == manifest || is_php_file(name.as_str()) {
            return true;
        }
        i = i + 1;
    }
    false
}

} // verus!
