//! Path calculus on plain strings: which file names are templates, and
//! where a rendered template is written — the destination joined with the
//! template's relative name, with the template extension stripped from the
//! final component.

use vstd::prelude::*;

verus! {

broadcast use vstd::string::group_string_axioms;

/// The name ends in the fixed template suffix ".template".
pub open spec fn has_template_suffix(name: Seq<char>) -> bool {
    name.len() >= 9 && name.subrange(name.len() - 9, name.len() as int) == ".template"@
}

/// Decides whether a discovered file is a template by its name.
pub fn is_template_name(name: &str) -> (r: bool)
    ensures
        r == has_template_suffix(name@),
{
    let len = name.unicode_len();
    if len < 9 {
        return false;
    }
    let suffix = name.substring_char(len - 9, len);
    let owned = suffix.to_owned();
    owned == String::from_str(".template")
}

/// The index where the final component's extension begins (its last '.',
/// not counting one that starts the component), or -1 if the component has
/// no extension.
pub open spec fn extension_cut(s: Seq<char>) -> int
    decreases s.len(),
{
    if s.len() == 0 {
        -1
    } else if s.last() == '/' {
        -1
    } else if s.last() == '.' && s.len() >= 2 && s[s.len() - 2] != '/' {
        s.len() - 1
    } else {
        extension_cut(s.drop_last())
    }
}

/// The name with the final component's extension removed, if it has one.
pub open spec fn strip_last_extension(name: Seq<char>) -> Seq<char> {
    if extension_cut(name) >= 0 {
        name.subrange(0, extension_cut(name))
    } else {
        name
    }
}

/// Where the rendered file for a template goes: the destination, a path
/// separator, and the template's relative name without its extension.
pub open spec fn joined_output_path(dest: Seq<char>, name: Seq<char>) -> Seq<char> {
    dest + "/"@ + strip_last_extension(name)
}

proof fn lemma_extension_cut_bound(s: Seq<char>)
    ensures
        extension_cut(s) < s.len(),
    decreases s.len(),
{
    if s.len() > 0 && !(s.last() == '/') && !(s.last() == '.' && s.len() >= 2 && s[s.len() - 2]
        != '/') {
        lemma_extension_cut_bound(s.drop_last());
    }
}

/// Finds where the final component's extension begins.
fn extension_cut_index(name: &str) -> (r: Option<usize>)
    ensures
        r matches Some(j) ==> j < name@.len() && j as int == extension_cut(name@),
        r is None ==> extension_cut(name@) == -1,
{
    let len = name.unicode_len();
    let mut i = len;
    proof {
        assert(name@.subrange(0, len as int) =~= name@);
    }
    while i > 0
        invariant
            i <= len,
            len == name@.len(),
            extension_cut(name@) == extension_cut(name@.subrange(0, i as int)),
        decreases i,
    {
        let c = name.get_char(i - 1);
        proof {
            assert(name@.subrange(0, i as int).drop_last() =~= name@.subrange(0, i - 1));
            assert(name@.subrange(0, i as int).last() == name@[i - 1]);
        }
        if c == '/' {
            return None;
        }
        if c == '.' {
            if i >= 2 {
                let p = name.get_char(i - 2);
                if p != '/' {
                    proof {
                        assert(name@.subrange(0, i as int)[i - 2] == name@[i - 2]);
                        lemma_extension_cut_bound(name@);
                    }
                    return Some(i - 1);
                }
            }
        }
        i = i - 1;
    }
    proof {
        assert(name@.subrange(0, 0) =~= Seq::<char>::empty());
    }
    None
}

/// The name with the final component's extension removed.
fn strip_extension(name: &str) -> (r: String)
    ensures
        r@ == strip_last_extension(name@),
{
    match extension_cut_index(name) {
        Some(j) => {
            let stem = name.substring_char(0, j);
            stem.to_owned()
        },
        None => name.to_owned(),
    }
}

/// Computes the output path for a rendered template: the destination joined
/// with the template's relative name, extension stripped.
pub fn output_path_for(destination: &str, name: &str) -> (r: String)
    ensures
        r@ == joined_output_path(destination@, name@),
{
    let mut out = destination.to_owned();
    out.append("/");
    let stripped = strip_extension(name);
    out.append(stripped.as_str());
    out
}

} // verus!
