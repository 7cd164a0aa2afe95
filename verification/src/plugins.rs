use vstd::prelude::*;
use vstd::string::{StrSliceExecFns, StringExecFns};

verus! {

broadcast use vstd::string::group_string_axioms;

/// `s` with every leading `"lib"` taken off, one after the other
/// (what `str::trim_start_matches("lib")` gives).
pub open spec fn trim_lib_prefixes(s: Seq<char>) -> Seq<char>
    decreases s.len(),
{
    if s.len() >= 3 && s[0] == 'l' && s[1] == 'i' && s[2] == 'b' {
        trim_lib_prefixes(s.skip(3))
    } else {
        s
    }
}

proof fn lemma_trim_lib_skip(s: Seq<char>, i: int)
    requires
        0 <= i <= s.len(),
        i % 3 == 0,
        forall|j: int| 0 <= j < i ==> #[trigger] s[j] == (if j % 3 == 0 {
            'l'
        } else if j % 3 == 1 {
            'i'
        } else {
            'b'
        }),
    ensures
        trim_lib_prefixes(s) == trim_lib_prefixes(s.skip(i)),
    decreases i,
{
    if i > 0 {
        assert(s.len() >= 3 && s[0] == 'l' && s[1] == 'i' && s[2] == 'b');
        let t = s.skip(3);
        assert forall|j: int| 0 <= j < i - 3 implies #[trigger] t[j] == (if j % 3 == 0 {
            'l'
        } else if j % 3 == 1 {
            'i'
        } else {
            'b'
        }) by {
            assert(t[j] == s[j + 3]);
            assert((j + 3) % 3 == j % 3);
        }
        lemma_trim_lib_skip(t, i - 3);
        assert(t.skip(i - 3) =~= s.skip(i));
    } else {
        assert(s.skip(0) =~= s);
    }
}

/// The name of a plugin, from the stem of its library file: the stem with its
/// leading `"lib"` prefixes removed (Unix library naming).
pub fn plugin_name(file_stem: &str) -> (r: String)
    ensures
        r@ == trim_lib_prefixes(file_stem@),
{
    let n = file_stem.unicode_len();
    let mut i: usize = 0;
    while n - i >= 3 && file_stem.get_char(i) == 'l' && file_stem.get_char(i + 1) == 'i'
        && file_stem.get_char(i + 2) == 'b'
        invariant
            n == file_stem@.len(),
            i <= n,
            i % 3 == 0,
            forall|j: int| 0 <= j < i ==> #[trigger] file_stem@[j] == (if j % 3 == 0 {
                'l'
            } else if j % 3 == 1 {
                'i'
            } else {
                'b'
            }),
        decreases n - i,
    {
        proof {
            assert forall|j: int| 0 <= j < i + 3 implies #[trigger] file_stem@[j] == (if j % 3
                == 0 {
                'l'
            } else if j % 3 == 1 {
                'i'
            } else {
                'b'
            }) by {
                if j >= i {
                    assert(j - i == 0 || j - i == 1 || j - i == 2);
                    assert(i % 3 == 0);
                }
            }
        }
        i = i + 3;
    }
    proof {
        lemma_trim_lib_skip(file_stem@, i as int);
        let rest = file_stem@.skip(i as int);
        assert(!(rest.len() >= 3 && rest[0] == 'l' && rest[1] == 'i' && rest[2] == 'b'));
    }
    let rest = file_stem.substring_char(i, n);
    assert(rest@ =~= file_stem@.skip(i as int));
    rest.to_string()
}

/// Whether two strings hold the same characters.
pub fn same_text(a: &str, b: &str) -> (r: bool)
    ensures
        r == (a@ == b@),
{
    let n = a.unicode_len();
    if n != b.unicode_len() {
        return false;
    }
    let mut i: usize = 0;
    while i < n
        invariant
            n == a@.len(),
            n == b@.len(),
            i <= n,
            forall|j: int| 0 <= j < i ==> a@[j] == b@[j],
        decreases n - i,
    {
        if a.get_char(i) != b.get_char(i) {
            return false;
        }
        i = i + 1;
    }
    assert(a@ =~= b@);
    true
}

/// The file extension of plugin libraries on an operating system, named as
/// `std::env::consts::OS` names it: `so` on Linux and the BSDs, `dll` on
/// Windows, `dylib` on macOS, and none elsewhere.
pub open spec fn plugin_extension_of(target_os: Seq<char>) -> Option<Seq<char>> {
    if target_os == "linux"@ || target_os == "freebsd"@ || target_os == "openbsd"@ || target_os
        == "netbsd"@ {
        Some("so"@)
    } else if target_os == "windows"@ {
        Some("dll"@)
    } else if target_os == "macos"@ {
        Some("dylib"@)
    } else {
        None
    }
}

pub fn plugin_extension(target_os: &str) -> (r: Option<&'static str>)
    ensures
        match plugin_extension_of(target_os@) {
            Some(e) => r matches Some(x) && x@ == e,
            None => r is None,
        },
{
    if same_text(target_os, "linux") || same_text(target_os, "freebsd") || same_text(
        target_os,
        "openbsd",
    ) || same_text(target_os, "netbsd") {
        Some("so")
    } else if same_text(target_os, "windows") {
        Some("dll")
    } else if same_text(target_os, "macos") {
        Some("dylib")
    } else {
        None
    }
}

/// Whether a directory entry with this file extension is a plugin library,
/// plugin libraries having the extension `plugin_extension`.
pub fn is_plugin_file(extension: Option<&str>, plugin_extension: &str) -> (r: bool)
    ensures
        r == (extension matches Some(e) && e@ == plugin_extension@),
{
    match extension {
        Some(e) => same_text(e, plugin_extension),
        None => false,
    }
}

/// The argument type names of a plugin function, each followed by `", "`.
pub open spec fn arg_list_text(types: Seq<Seq<char>>) -> Seq<char>
    decreases types.len(),
{
    if types.len() == 0 {
        Seq::empty()
    } else {
        arg_list_text(types.drop_last()) + types.last() + seq![',', ' ']
    }
}

/// The signature that is reported for a plugin function that cannot be found:
/// the name, `(`, each argument type followed by `", "`, then the last two
/// characters dropped (as far as there are any) and `)` added.
pub open spec fn plugin_fn_decl_text(fn_name: Seq<char>, types: Seq<Seq<char>>) -> Seq<char> {
    let full = fn_name + seq!['('] + arg_list_text(types);
    let kept = if full.len() >= 2 {
        full.len() - 2
    } else {
        0
    };
    full.take(kept) + seq![')']
}

/// Builds the signature text of a plugin function from its name and the
/// names of its argument types.
pub fn plugin_fn_decl(fn_name: &str, arg_types: &Vec<&str>) -> (r: String)
    ensures
        r@ == plugin_fn_decl_text(fn_name@, arg_types@.map_values(|t: &str| t@)),
{
    proof {
        reveal_strlit("(");
        reveal_strlit(", ");
        reveal_strlit(")");
    }
    let ghost types = arg_types@.map_values(|t: &str| t@);
    let mut s = fn_name.to_string();
    s.append("(");
    let ghost head = s@;
    assert(head == fn_name@ + seq!['(']);
    let mut i: usize = 0;
    while i < arg_types.len()
        invariant
            i <= arg_types.len(),
            types == arg_types@.map_values(|t: &str| t@),
            s@ == head + arg_list_text(types.take(i as int)),
        decreases arg_types.len() - i,
    {
        let ghost before = s@;
        s.append(arg_types[i]);
        s.append(", ");
        proof {
            reveal_strlit(", ");
            assert(", "@ =~= seq![',', ' ']);
            assert(s@ =~= before + arg_types@[i as int]@ + seq![',', ' ']);
            assert(types.take(i + 1).drop_last() =~= types.take(i as int));
            assert(types.take(i + 1).last() == arg_types@[i as int]@);
            assert(s@ =~= head + arg_list_text(types.take(i + 1)));
        }
        i = i + 1;
    }
    assert(types.take(arg_types.len() as int) =~= types);
    let n = s.as_str().unicode_len();
    let kept: usize = if n >= 2 {
        n - 2
    } else {
        0
    };
    let mut r = s.as_str().substring_char(0, kept).to_string();
    r.append(")");
    assert(r@ =~= plugin_fn_decl_text(fn_name@, types));
    r
}

/// The route under which a plugin registers an endpoint: `/`, the plugin's
/// name, then the endpoint's path.
pub fn plugin_route_path(name: &str, path: &str) -> (r: String)
    ensures
        r@ == seq!['/'] + name@ + path@,
{
    proof {
        reveal_strlit("/");
    }
    let mut r = "/".to_string();
    r.append(name);
    r.append(path);
    r
}

} // verus!
