//! Where records are stored. A record is addressed by a namespace and a
//! method; its place is a file named after the method, in the directory
//! that the namespace names below the storage root. Places are texts: the
//! namespace is taken as it stands, and nothing is normalised.

use vstd::prelude::*;
use vstd::string::*;

use crate::error::Error;
use crate::method::{lemma_method_names, Method};
use crate::text::{has_prefix, starts_with, uppercased};

verus! {

/// The storage root that belongs to the home directory `home`.
pub open spec fn default_dir_text(home: Seq<char>) -> Seq<char> {
    home + "/"@ + ".ferrapi_tester"@
}

/// The directory of `namespace` below the storage root `base`.
pub open spec fn namespace_dir_text(base: Seq<char>, namespace: Seq<char>) -> Seq<char> {
    base + "/"@ + namespace
}

/// The place of the record of `namespace` and of the method whose
/// upper-case name is `method`, below the storage root `base`.
pub open spec fn config_path_text(
    base: Seq<char>,
    namespace: Seq<char>,
    method: Seq<char>,
) -> Seq<char> {
    namespace_dir_text(base, namespace) + "/"@ + method + ".json"@
}

/// Whether a target is a destination rather than a namespace: it is one
/// where it begins with `http`.
pub open spec fn is_url_text(target: Seq<char>) -> bool {
    has_prefix(target, "http"@)
}

/// The storage root: the directory `.ferrapi_tester` in the home directory
/// of the user. Without a home directory there is none.
pub fn get_default_dir(home: Option<&str>) -> (dir: Result<String, Error>)
    ensures
        match home {
            Some(h) => dir matches Ok(d) && d@ == default_dir_text(h@),
            None => dir == Err::<String, Error>(Error::NoHomeDirectory),
        },
{
    match home {
        Some(h) => {
            let mut dir = String::from_str(h);
            dir.append("/");
            dir.append(".ferrapi_tester");
            Ok(dir)
        },
        None => Err(Error::NoHomeDirectory),
    }
}

/// The directory that holds the records of the namespace `target` and of
/// every namespace below it.
pub fn namespace_dir(base_dir: &str, target: &str) -> (dir: String)
    ensures
        dir@ == namespace_dir_text(base_dir@, target@),
{
    let mut dir = String::from_str(base_dir);
    dir.append("/");
    dir.append(target);
    dir
}

/// The place of the record of the namespace `target` and of the method
/// whose name, already in upper case, is `upper_method`.
pub fn config_path_for(base_dir: &str, target: &str, upper_method: &str) -> (path: String)
    ensures
        path@ == config_path_text(base_dir@, target@, upper_method@),
{
    let mut path = namespace_dir(base_dir, target);
    path.append("/");
    path.append(upper_method);
    path.append(".json");
    path
}

/// The place of the record of the namespace `target` and of `method`,
/// whose name is first put in upper case: `POST.json` below
/// `SystemA/example` below the storage root, for `SystemA/example` and
/// `post`.
pub fn get_config_path(base_dir: &str, target: &str, method: &str) -> (path: String)
    ensures
        path@ == config_path_text(base_dir@, target@, uppercased(method@)),
{
    let upper = method.to_uppercase();
    config_path_for(base_dir, target, upper.as_str())
}

/// Tells whether a target is a destination rather than a namespace.
pub fn is_url(target: &str) -> (yes: bool)
    ensures
        yes == is_url_text(target@),
{
    starts_with(target, "http")
}

/// Two records of one storage root lie at the same place only if they
/// have the same namespace and the same method name, as long as method
/// names hold no slash.
pub proof fn lemma_config_path_injective(
    base: Seq<char>,
    namespace_a: Seq<char>,
    method_a: Seq<char>,
    namespace_b: Seq<char>,
    method_b: Seq<char>,
)
    requires
        !method_a.contains('/'),
        !method_b.contains('/'),
        config_path_text(base, namespace_a, method_a) == config_path_text(
            base,
            namespace_b,
            method_b,
        ),
    ensures
        namespace_a == namespace_b,
        method_a == method_b,
{
    reveal_strlit("/");
    reveal_strlit(".json");
    let path_a = config_path_text(base, namespace_a, method_a);
    let path_b = config_path_text(base, namespace_b, method_b);
    let start: int = base.len() as int + 1;
    lemma_no_slash_after(base, namespace_a, method_a);
    lemma_no_slash_after(base, namespace_b, method_b);
    if namespace_a.len() < namespace_b.len() {
        assert(path_b[start + namespace_b.len()] == '/');
    }
    if namespace_b.len() < namespace_a.len() {
        assert(path_a[start + namespace_a.len()] == '/');
    }
    assert(namespace_a =~= namespace_b) by {
        assert forall|i: int| 0 <= i < namespace_a.len() implies namespace_a[i] == namespace_b[i] by {
            assert(path_b[start + i] == namespace_b[i]);
        }
    }
    assert(method_a =~= method_b) by {
        let from: int = start + namespace_a.len() + 1;
        assert forall|i: int| 0 <= i < method_a.len() implies method_a[i] == method_b[i] by {
            assert(path_b[from + i] == method_b[i]);
        }
    }
}

/// In the place of a record, the slash before the file name is the last
/// one, as long as the method name holds none.
proof fn lemma_no_slash_after(base: Seq<char>, namespace: Seq<char>, method: Seq<char>)
    requires
        !method.contains('/'),
    ensures
        forall|i: int|
            base.len() + 1 + namespace.len() < i < config_path_text(base, namespace, method).len()
                ==> config_path_text(base, namespace, method)[i] != '/',
{
    reveal_strlit("/");
    reveal_strlit(".json");
    let path = config_path_text(base, namespace, method);
    let from: int = base.len() as int + 1 + namespace.len() as int + 1;
    assert forall|i: int| from <= i < path.len() implies path[i] != '/' by {
        if i < from + method.len() {
            assert(path[i] == method[i - from]);
        }
    }
}

/// No two records collide: for every storage root, the place of a record
/// determines its namespace and its method.
pub proof fn lemma_resolve_injective(
    base: Seq<char>,
    namespace_a: Seq<char>,
    method_a: Method,
    namespace_b: Seq<char>,
    method_b: Method,
)
    requires
        config_path_text(base, namespace_a, method_a.name_text()) == config_path_text(
            base,
            namespace_b,
            method_b.name_text(),
        ),
    ensures
        namespace_a == namespace_b,
        method_a == method_b,
{
    lemma_method_names(method_a, method_b);
    lemma_method_names(method_b, method_a);
    lemma_config_path_injective(
        base,
        namespace_a,
        method_a.name_text(),
        namespace_b,
        method_b.name_text(),
    );
}

/// The record of a namespace, and of every namespace below it, lies in
/// the directory of that namespace: what removes the directory removes
/// them all.
pub proof fn lemma_records_lie_in_namespace_dir(
    base: Seq<char>,
    namespace: Seq<char>,
    below: Seq<char>,
    method: Seq<char>,
)
    ensures
        has_prefix(
            config_path_text(base, namespace, method),
            namespace_dir_text(base, namespace) + "/"@,
        ),
        has_prefix(
            config_path_text(base, namespace + "/"@ + below, method),
            namespace_dir_text(base, namespace) + "/"@,
        ),
{
    let dir = namespace_dir_text(base, namespace) + "/"@;
    let own = config_path_text(base, namespace, method);
    let nested = config_path_text(base, namespace + "/"@ + below, method);
    assert(own.subrange(0, dir.len() as int) =~= dir);
    assert(nested.subrange(0, dir.len() as int) =~= dir);
}

} // verus!
