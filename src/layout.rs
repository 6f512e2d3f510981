use vstd::prelude::*;
use vstd::string::StrSliceExecFns;
use vstd::string::StringExecFns;

verus! {

/// `base` with the path component `comp` appended, as `PathBuf::push` does on
/// Unix: an absolute `comp` replaces `base`; a separator goes between the two
/// unless `base` is empty or already ends in one.
pub open spec fn push_component(base: Seq<char>, comp: Seq<char>) -> Seq<char> {
    if comp.len() > 0 && comp[0] == '/' {
        comp
    } else if base.len() == 0 || base.last() == '/' {
        base + comp
    } else {
        base + seq!['/'] + comp
    }
}

/// The path of the keyboard layout file `<path>/layouts/<name>_US.ron`.
pub open spec fn layout_path(path: Seq<char>, name: Seq<char>) -> Seq<char> {
    push_component(
        push_component(path, seq!['l', 'a', 'y', 'o', 'u', 't', 's']),
        name + seq!['_', 'U', 'S', '.', 'r', 'o', 'n'],
    )
}

fn push(base: String, comp: &str) -> (r: String)
    ensures
        r@ == push_component(base@, comp@),
{
    proof {
        reveal_strlit("/");
    }
    if comp.unicode_len() > 0 && comp.get_char(0) == '/' {
        return String::from_str(comp);
    }
    let n = base.as_str().unicode_len();
    let mut out = base;
    if n > 0 && out.as_str().get_char(n - 1) != '/' {
        out.append("/");
    }
    out.append(comp);
    out
}

/// The path of the layout file named `layout_name` under the data directory
/// `path`: `<path>/layouts/<layout_name>_US.ron`.
pub fn get_layout_path(path: &str, layout_name: &str) -> (r: String)
    ensures
        r@ == layout_path(path@, layout_name@),
{
    proof {
        reveal_strlit("layouts");
        reveal_strlit("_US.ron");
        assert("layouts"@ =~= seq!['l', 'a', 'y', 'o', 'u', 't', 's']);
        assert("_US.ron"@ =~= seq!['_', 'U', 'S', '.', 'r', 'o', 'n']);
    }
    let data_path = push(String::from_str(path), "layouts");
    let layout_file = String::from_str(layout_name).concat("_US.ron");
    push(data_path, layout_file.as_str())
}

} // verus!
