//! Where the Linux client keeps its files, following the XDG base directory specification.

use vstd::prelude::*;

verus! {

/// `path` with the relative component `component` appended, as `Utf8PathBuf::push` does it.
pub open spec fn push_component(path: Seq<char>, component: Seq<char>) -> Seq<char> {
    if path.len() == 0 {
        component
    } else if path.last() == '/' {
        path + component
    } else {
        path.push('/') + component
    }
}

/// `base` with the relative components `parts` appended in order.
pub open spec fn joined(base: Seq<char>, parts: Seq<Seq<char>>) -> Seq<char>
    decreases parts.len(),
{
    if parts.len() == 0 {
        base
    } else {
        push_component(joined(base, parts.drop_last()), parts.last())
    }
}

/// Whether a component is relative and names one directory.
pub open spec fn is_plain_component(c: Seq<char>) -> bool {
    c.len() > 0 && forall|i: int| 0 <= i < c.len() ==> #[trigger] c[i] != '/'
}

fn push_component_exec(path: &mut String, component: &str)
    ensures
        final(path)@ == push_component(old(path)@, component@),
{
    if path.as_str().unicode_len() == 0 {
        path.append(component);
        assert(path@ =~= component@);
    } else {
        let n = path.as_str().unicode_len();
        if path.as_str().get_char(n - 1) == '/' {
            path.append(component);
        } else {
            path.append("/");
            proof {
                reveal_strlit("/");
                assert("/"@ =~= seq!['/']);
            }
            path.append(component);
        }
    }
}

/// Whether an environment value is set and not empty.
pub open spec fn is_set(value: Option<String>) -> bool {
    value matches Some(v) && v@.len() > 0
}

/// The base directory from the XDG variable's value `xdg_dir`, else the home directory `home`
/// with the components `home_relative` appended; empty values count as unset.
pub fn xdg_base_dir(xdg_dir: Option<String>, home: Option<String>, home_relative: &[&str]) -> (r: Option<String>)
    ensures
        is_set(xdg_dir) ==> (r matches Some(p) && p@ == xdg_dir->0@),
        !is_set(xdg_dir) && is_set(home) ==> (r matches Some(p) && p@ == joined(
            home->0@,
            home_relative@.map_values(|c: &str| c@),
        )),
        !is_set(xdg_dir) && !is_set(home) ==> r is None,
{
    if let Some(dir) = xdg_dir {
        if dir.as_str().unicode_len() > 0 {
            return Some(dir);
        }
    }
    match home {
        Some(home) => {
            if home.as_str().unicode_len() == 0 {
                return None;
            }
            let ghost parts = home_relative@.map_values(|c: &str| c@);
            let mut path = home;
            let ghost base = path@;
            let mut i: usize = 0;
            while i < home_relative.len()
                invariant
                    i <= home_relative@.len(),
                    parts == home_relative@.map_values(|c: &str| c@),
                    path@ == joined(base, parts.subrange(0, i as int)),
                decreases home_relative@.len() - i,
            {
                push_component_exec(&mut path, home_relative[i]);
                proof {
                    assert(parts.subrange(0, i + 1).drop_last() =~= parts.subrange(0, i as int));
                }
                i = i + 1;
            }
            assert(parts.subrange(0, i as int) =~= parts);
            Some(path)
        },
        None => None,
    }
}

} // verus!
