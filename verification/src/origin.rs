//! Reading an origin URL: the host it names, and the project's name and
//! namespace in the conventions of the providers.
//!
//! An origin is read from its start: an optional scheme with `://`, an
//! optional user with `@`, the host, the colon or slash that ends the host,
//! and after that the path. Names and namespace are parts of the path; what
//! stands before the path is never taken for one of them.

use vstd::prelude::*;
use crate::error::{OriginPart, RemoteError};
use crate::text::{
    all_plain, all_word, chars_of, find_first, find_last, first_index, has_no_space, is_all_plain,
    is_all_word, is_plain, is_sep, is_sep_char, is_space, last_index, lemma_first_index,
    lemma_first_index_is, lemma_last_index, lemma_last_index_is, lemma_last_index_none, no_space,
    slice_string, view_of,
};

verus! {

/// Whether `s` holds `.git` at index `g`.
pub open spec fn has_git_at(s: Seq<char>, g: int) -> bool {
    &&& 0 <= g
    &&& g + 4 <= s.len()
    &&& s[g] == '.'
    &&& s[g + 1] == 'g'
    &&& s[g + 2] == 'i'
    &&& s[g + 3] == 't'
}

/// Whether `s` holds `://` at index `p`.
pub open spec fn has_slashes_at(s: Seq<char>, p: int) -> bool {
    &&& 0 <= p
    &&& p + 3 <= s.len()
    &&& s[p] == ':'
    &&& s[p + 1] == '/'
    &&& s[p + 2] == '/'
}

/// The first index from `d` on at which `s` holds a colon or a slash, or the
/// length of `s` where there is none.
pub open spec fn host_end(s: Seq<char>, d: int) -> int
    decreases s.len() - d,
{
    if d >= s.len() {
        s.len() as int
    } else if 0 <= d && is_sep(s[d]) {
        d
    } else {
        host_end(s, d + 1)
    }
}

/// The index after the scheme of `s` and its `://`, or 0 where `s` starts
/// with no scheme. A scheme is whatever stands before the first colon or
/// slash, where that is not empty, made of plain characters, and followed by
/// `://`.
pub open spec fn scheme_end(s: Seq<char>) -> int {
    let k = host_end(s, 0);
    if k > 0 && has_slashes_at(s, k) && all_plain(s, 0, k) {
        k + 3
    } else {
        0
    }
}

/// The index below which the user of `s` ends, if it has one. After a
/// scheme a user may hold a colon, and ends before the first slash; without
/// a scheme it ends before the first colon or slash.
pub open spec fn user_bound(s: Seq<char>) -> int {
    if scheme_end(s) > 0 {
        first_index(s, '/', scheme_end(s))
    } else {
        host_end(s, 0)
    }
}

/// Where the host of `s` starts: after the scheme, and after the user where
/// there is one. The user ends at the last `@` that stands after the scheme
/// and below `user_bound`.
pub open spec fn host_begin(s: Seq<char>) -> int {
    let q = scheme_end(s);
    let a = last_index(s, '@', user_bound(s));
    if a >= q {
        a + 1
    } else {
        q
    }
}

/// The index of the colon or slash that ends the host of `s`, or the length
/// of `s` where nothing follows the host.
pub open spec fn host_stop(s: Seq<char>) -> int {
    host_end(s, host_begin(s))
}

/// The index of the separator after which the path of `s` starts, or the
/// length of `s` where it has no path. After a scheme the path starts at the
/// first slash after the host, so that a port is no part of it; without a
/// scheme it starts at the colon or slash that ends the host.
pub open spec fn path_sep(s: Seq<char>) -> int {
    if scheme_end(s) > 0 {
        first_index(s, '/', host_begin(s))
    } else {
        host_stop(s)
    }
}

/// The host that `s` names: after an optional scheme and an optional user,
/// the characters up to the first colon or slash. `None` where that is
/// empty.
pub open spec fn domain(s: Seq<char>) -> Option<Seq<char>> {
    if host_begin(s) < host_stop(s) {
        Some(s.subrange(host_begin(s), host_stop(s)))
    } else {
        None
    }
}

/// The project name of `s` in GitLab's convention: the last segment of the
/// path, without the `.git` that ends `s`. It stands between the last slash,
/// which does not lie before the start of the path, and `.git`; it is not
/// empty and free of white space.
pub open spec fn gitlab_name(s: Seq<char>) -> Option<Seq<char>> {
    let z = s.len() - 4;
    let m = last_index(s, '/', z);
    if has_git_at(s, z) && path_sep(s) <= m && m + 1 < z && no_space(s, m + 1, z) {
        Some(s.subrange(m + 1, z))
    } else {
        None
    }
}

/// Where the path segment before the name starts when the name starts after
/// the slash at `m`: after the last slash before `m`, or at the start of the
/// path where the path holds no slash before `m`.
pub open spec fn segment_start(s: Seq<char>, m: int) -> int {
    if last_index(s, '/', m) > path_sep(s) {
        last_index(s, '/', m) + 1
    } else {
        path_sep(s) + 1
    }
}

/// The namespace of `s`: the segment of the path that stands before the
/// name. `None` where the path holds the name only. Namespace and name are
/// not empty and free of white space.
pub open spec fn gitlab_namespace(s: Seq<char>) -> Option<Seq<char>> {
    let z = s.len() - 4;
    let m = last_index(s, '/', z);
    let i = segment_start(s, m);
    if has_git_at(s, z) && path_sep(s) < m && m + 1 < z && i < m && no_space(s, i, z) {
        Some(s.subrange(i, m))
    } else {
        None
    }
}

/// The project name of `s` in the convention of GitHub and Bitbucket: the
/// path, with its slashes, up to the last `.git`, which only word characters
/// may follow. The path holds a slash with at least one character after it,
/// and no white space.
pub open spec fn github_name(s: Seq<char>) -> Option<Seq<char>> {
    let e = path_sep(s);
    let g = last_index(s, '.', s.len() as int);
    let m = last_index(s, '/', g - 1);
    if has_git_at(s, g) && all_word(s, g + 4, s.len() as int) && e < m && no_space(s, e + 1, g) {
        Some(s.subrange(e + 1, g))
    } else {
        None
    }
}

/// `host_end` lies between `d` and the length, stops at a separator or at the
/// end, and passes none.
pub proof fn lemma_host_end(s: Seq<char>, d: int)
    requires
        0 <= d <= s.len(),
    ensures
        d <= host_end(s, d) <= s.len(),
        host_end(s, d) < s.len() ==> is_sep(s[host_end(s, d)]),
        forall|j: int| d <= j < host_end(s, d) ==> !is_sep(#[trigger] s[j]),
    decreases s.len() - d,
{
    if d < s.len() && !is_sep(s[d]) {
        lemma_host_end(s, d + 1);
    }
}

/// A stretch without a separator that ends at a separator, or at the end, is
/// what `host_end` passes over.
pub proof fn lemma_host_end_is(s: Seq<char>, d: int, e: int)
    requires
        0 <= d <= e <= s.len(),
        forall|j: int| d <= j < e ==> !is_sep(#[trigger] s[j]),
        e < s.len() ==> is_sep(s[e]),
    ensures
        host_end(s, d) == e,
    decreases e - d,
{
    if d < e {
        lemma_host_end_is(s, d + 1, e);
    }
}

/// Scheme, user and host lie in `s`, in this order, and the host holds
/// neither a separator nor an `@`.
pub proof fn lemma_host_bounds(s: Seq<char>)
    ensures
        0 <= scheme_end(s) <= host_begin(s) <= host_stop(s) <= path_sep(s) <= s.len(),
        host_stop(s) < s.len() ==> is_sep(s[host_stop(s)]),
        path_sep(s) < s.len() ==> is_sep(s[path_sep(s)]),
        forall|j: int| host_begin(s) <= j < host_stop(s) ==> !is_sep(#[trigger] s[j]) && s[j] != '@',
{
    let q = scheme_end(s);
    lemma_host_end(s, 0);
    let slash = user_bound(s);
    lemma_first_index(s, '/', q);
    lemma_last_index(s, '@', slash);
    let d = host_begin(s);
    lemma_host_end(s, d);
    assert(host_stop(s) <= slash) by {
        if slash < host_stop(s) {
            assert(is_sep(s[slash]));
        }
    }
    let path = first_index(s, '/', d);
    lemma_first_index(s, '/', d);
    assert(host_stop(s) <= path) by {
        if path < host_stop(s) {
            assert(is_sep(s[path]));
        }
    }
}

/// Whether `host` can be the host of an origin: it is not empty and holds
/// neither a colon, a slash nor an `@`.
pub open spec fn is_host(host: Seq<char>) -> bool {
    host.len() > 0 && forall|j: int|
        0 <= j < host.len() ==> !is_sep(#[trigger] host[j]) && host[j] != '@'
}

/// Whether `part` can be the namespace or the name of a well-formed origin:
/// it is not empty, and made of plain characters.
pub open spec fn is_label(part: Seq<char>) -> bool {
    part.len() > 0 && forall|i: int| 0 <= i < part.len() ==> is_plain(#[trigger] part[i])
}

/// The host that an origin names is not empty and holds neither a colon, a
/// slash nor an `@`.
pub proof fn lemma_domain_is_host(s: Seq<char>)
    requires
        domain(s) is Some,
    ensures
        is_host(domain(s).unwrap()),
{
    lemma_host_bounds(s);
    let d = host_begin(s);
    let host = domain(s).unwrap();
    assert forall|j: int| 0 <= j < host.len() implies !is_sep(#[trigger] host[j]) && host[j]
        != '@' by {
        assert(host[j] == s[d + j]);
    }
}

/// The names and the namespace that an origin holds are not empty and free
/// of white space. Name and namespace in GitLab's convention hold no slash.
/// A name in the convention of GitHub and Bitbucket holds a slash with at
/// least one character after it.
pub proof fn lemma_names_are_segments(s: Seq<char>)
    ensures
        gitlab_name(s) matches Some(name) ==> name.len() > 0 && forall|j: int|
            0 <= j < name.len() ==> !is_space(#[trigger] name[j]) && name[j] != '/',
        gitlab_namespace(s) matches Some(namespace) ==> namespace.len() > 0 && forall|j: int|
            0 <= j < namespace.len() ==> !is_space(#[trigger] namespace[j]) && namespace[j] != '/',
        github_name(s) matches Some(name) ==> no_space(name, 0, name.len() as int) && exists|
            k: int,
        |
            0 <= k && k + 1 < name.len() && #[trigger] name[k] == '/',
{
    let z = s.len() - 4;
    let m = last_index(s, '/', z);
    let i = segment_start(s, m);
    lemma_host_bounds(s);
    lemma_last_index(s, '/', z);
    lemma_last_index(s, '/', m);
    if gitlab_name(s) is Some {
        let name = gitlab_name(s).unwrap();
        assert forall|j: int| 0 <= j < name.len() implies !is_space(#[trigger] name[j]) && name[j]
            != '/' by {
            assert(name[j] == s[m + 1 + j]);
        }
    }
    if gitlab_namespace(s) is Some {
        let namespace = gitlab_namespace(s).unwrap();
        assert forall|j: int| 0 <= j < namespace.len() implies !is_space(
            #[trigger] namespace[j],
        ) && namespace[j] != '/' by {
            assert(namespace[j] == s[i + j]);
        }
    }
    if github_name(s) is Some {
        let e = path_sep(s);
        let g = last_index(s, '.', s.len() as int);
        let slash = last_index(s, '/', g - 1);
        lemma_last_index(s, '.', s.len() as int);
        lemma_last_index(s, '/', g - 1);
        let name = github_name(s).unwrap();
        let k = slash - e - 1;
        assert(e < slash < g - 1);
        assert(name == s.subrange(e + 1, g));
        assert(name[k] == s[slash]);
        assert(0 <= k && k + 1 < name.len() && name[k] == '/');
        assert forall|j: int| 0 <= j < name.len() implies !is_space(#[trigger] name[j]) by {
            assert(name[j] == s[e + 1 + j]);
        }
    }
}

/// An origin that has a namespace has a name in GitLab's convention.
pub proof fn lemma_namespace_has_name(s: Seq<char>)
    requires
        gitlab_namespace(s) is Some,
    ensures
        gitlab_name(s) is Some,
{
    let z = s.len() - 4;
    let m = last_index(s, '/', z);
    lemma_host_bounds(s);
    lemma_last_index(s, '/', m);
}

fn holds_git(v: &Vec<char>, g: usize) -> (b: bool)
    ensures
        b == has_git_at(v@, g as int),
{
    g <= v.len() && v.len() - g >= 4 && v[g] == '.' && v[g + 1] == 'g' && v[g + 2] == 'i' && v[g
        + 3] == 't'
}

fn holds_slashes(v: &Vec<char>, p: usize) -> (b: bool)
    ensures
        b == has_slashes_at(v@, p as int),
{
    p <= v.len() && v.len() - p >= 3 && v[p] == ':' && v[p + 1] == '/' && v[p + 2] == '/'
}

fn find_host_end(v: &Vec<char>, d: usize) -> (r: usize)
    requires
        d <= v.len(),
    ensures
        r as int == host_end(v@, d as int),
        d <= r <= v.len(),
{
    let mut k: usize = d;
    while k < v.len()
        invariant
            d <= k <= v.len(),
            host_end(v@, d as int) == host_end(v@, k as int),
        decreases v.len() - k,
    {
        if is_sep_char(v[k]) {
            return k;
        }
        k = k + 1;
    }
    k
}

fn find_scheme_end(v: &Vec<char>) -> (q: usize)
    ensures
        q as int == scheme_end(v@),
        q <= v.len(),
{
    let k: usize = find_host_end(v, 0);
    if k > 0 && holds_slashes(v, k) && is_all_plain(v, 0, k) {
        k + 3
    } else {
        0
    }
}

fn find_host_begin(v: &Vec<char>) -> (d: usize)
    ensures
        d as int == host_begin(v@),
        d <= v.len(),
{
    let q: usize = find_scheme_end(v);
    let bound: usize = if q > 0 {
        find_first(v, '/', q)
    } else {
        find_host_end(v, 0)
    };
    match find_last(v, '@', bound) {
        Some(a) => {
            if a >= q {
                a + 1
            } else {
                q
            }
        },
        None => q,
    }
}

fn find_path_sep(v: &Vec<char>) -> (e: usize)
    ensures
        e as int == path_sep(v@),
        e <= v.len(),
{
    let q: usize = find_scheme_end(v);
    let d: usize = find_host_begin(v);
    if q > 0 {
        find_first(v, '/', d)
    } else {
        find_host_end(v, d)
    }
}

/// The host that `origin` names.
///
/// Fails where nothing stands between scheme and user on the one side and
/// the first colon or slash on the other.
pub fn get_domain(origin: &str) -> (r: Result<String, RemoteError>)
    ensures
        match r {
            Ok(host) => domain(origin@) == Some(host@) && is_host(host@),
            Err(e) => domain(origin@) is None && e == (RemoteError::MalformedOrigin {
                missing: OriginPart::Domain,
            }),
        },
{
    let v = chars_of(origin);
    let d: usize = find_host_begin(&v);
    let e: usize = find_host_end(&v, d);
    if d < e {
        proof {
            lemma_domain_is_host(origin@);
        }
        Ok(slice_string(origin, d, e))
    } else {
        Err(RemoteError::MalformedOrigin { missing: OriginPart::Domain })
    }
}

/// The project name of `origin` in GitLab's convention: the last segment of
/// the path, without the closing `.git`.
pub fn get_gitlab_project_name(origin: &str) -> (name: Option<String>)
    ensures
        view_of(name) == gitlab_name(origin@),
{
    let v = chars_of(origin);
    let n: usize = v.len();
    if n < 4 || !holds_git(&v, n - 4) {
        return None;
    }
    let z: usize = n - 4;
    let e: usize = find_path_sep(&v);
    match find_last(&v, '/', z) {
        Some(m) => {
            if e <= m && m + 1 < z && has_no_space(&v, m + 1, z) {
                Some(slice_string(origin, m + 1, z))
            } else {
                None
            }
        },
        None => None,
    }
}

/// The namespace of `origin`: the segment of the path before the project's
/// name.
pub fn get_gitlab_project_namespace(origin: &str) -> (namespace: Option<String>)
    ensures
        view_of(namespace) == gitlab_namespace(origin@),
{
    let v = chars_of(origin);
    let n: usize = v.len();
    if n < 4 || !holds_git(&v, n - 4) {
        return None;
    }
    let z: usize = n - 4;
    let e: usize = find_path_sep(&v);
    match find_last(&v, '/', z) {
        Some(m) => {
            if !(e < m && m + 1 < z) {
                return None;
            }
            let i: usize = match find_last(&v, '/', m) {
                Some(before) => {
                    if before > e {
                        before + 1
                    } else {
                        e + 1
                    }
                },
                None => e + 1,
            };
            if i < m && has_no_space(&v, i, z) {
                Some(slice_string(origin, i, m))
            } else {
                None
            }
        },
        None => None,
    }
}

/// The project name of `origin` in the convention of GitHub and Bitbucket:
/// owner and repository, with the slash between them.
pub fn get_github_project_name(origin: &str) -> (name: Option<String>)
    ensures
        view_of(name) == github_name(origin@),
{
    let v = chars_of(origin);
    let n: usize = v.len();
    let e: usize = find_path_sep(&v);
    match find_last(&v, '.', n) {
        Some(g) => {
            if g == 0 || !holds_git(&v, g) || !is_all_word(&v, g + 4, n) {
                return None;
            }
            match find_last(&v, '/', g - 1) {
                Some(m) => {
                    if e < m && has_no_space(&v, e + 1, g) {
                        Some(slice_string(origin, e + 1, g))
                    } else {
                        None
                    }
                },
                None => None,
            }
        },
        None => None,
    }
}

/// Namespace and names are parts of the path: none of them starts before
/// the separator after which the path starts, so that neither scheme, user,
/// host nor port is ever taken for one of them.
pub proof fn lemma_parts_follow_host(s: Seq<char>)
    ensures
        gitlab_name(s) is Some ==> exists|from: int|
            path_sep(s) < from && gitlab_name(s) == Some(
                #[trigger] s.subrange(from, s.len() - 4),
            ),
        gitlab_namespace(s) is Some ==> exists|from: int, to: int|
            path_sep(s) < from && gitlab_namespace(s) == Some(#[trigger] s.subrange(from, to)),
        github_name(s) is Some ==> exists|to: int|
            github_name(s) == Some(#[trigger] s.subrange(path_sep(s) + 1, to)),
        host_stop(s) <= path_sep(s),
{
    lemma_host_bounds(s);
    let z = s.len() - 4;
    let m = last_index(s, '/', z);
    if gitlab_name(s) is Some {
        assert(gitlab_name(s) == Some(s.subrange(m + 1, z)));
    }
    if gitlab_namespace(s) is Some {
        assert(gitlab_namespace(s) == Some(s.subrange(segment_start(s, m), m)));
    }
    if github_name(s) is Some {
        assert(github_name(s) == Some(
            s.subrange(path_sep(s) + 1, last_index(s, '.', s.len() as int)),
        ));
    }
}

/// The origin that holds, in this order, `head`, the host, the character
/// `mid`, the namespace, a slash, the name and `.git`.
pub open spec fn origin_of(
    head: Seq<char>,
    host: Seq<char>,
    mid: char,
    namespace: Seq<char>,
    name: Seq<char>,
) -> Seq<char> {
    head + host + seq![mid] + namespace + seq!['/'] + name + seq!['.', 'g', 'i', 't']
}

/// The origin `git@<host>:<namespace>/<name>.git`.
pub open spec fn ssh_origin(host: Seq<char>, namespace: Seq<char>, name: Seq<char>) -> Seq<char> {
    origin_of(seq!['g', 'i', 't', '@'], host, ':', namespace, name)
}

/// The origin `https://<host>/<namespace>/<name>.git`.
pub open spec fn https_origin(host: Seq<char>, namespace: Seq<char>, name: Seq<char>) -> Seq<
    char,
> {
    origin_of(seq!['h', 't', 't', 'p', 's', ':', '/', '/'], host, '/', namespace, name)
}

/// Where the parts of `origin_of` stand in it.
pub proof fn lemma_origin_layout(
    head: Seq<char>,
    host: Seq<char>,
    mid: char,
    namespace: Seq<char>,
    name: Seq<char>,
)
    ensures
        ({
            let s = origin_of(head, host, mid, namespace, name);
            let a: int = (head.len() + host.len()) as int;
            let b: int = a + 1 + namespace.len();
            let e: int = b + 1 + name.len();
            &&& s.len() == e + 4
            &&& forall|k: int| 0 <= k < head.len() ==> #[trigger] s[k] == head[k]
            &&& forall|k: int| head.len() <= k < a ==> #[trigger] s[k] == host[k - head.len()]
            &&& s[a] == mid
            &&& forall|k: int| a < k < b ==> #[trigger] s[k] == namespace[k - a - 1]
            &&& s[b] == '/'
            &&& forall|k: int| b < k < e ==> #[trigger] s[k] == name[k - b - 1]
            &&& has_git_at(s, e)
            &&& s.subrange(head.len() as int, a) == host
            &&& s.subrange(a + 1, b) == namespace
            &&& s.subrange(b + 1, e) == name
        }),
{
    let s = origin_of(head, host, mid, namespace, name);
    let a: int = (head.len() + host.len()) as int;
    let b: int = a + 1 + namespace.len();
    let e: int = b + 1 + name.len();
    assert(s.subrange(head.len() as int, a) =~= host);
    assert(s.subrange(a + 1, b) =~= namespace);
    assert(s.subrange(b + 1, e) =~= name);
}

/// Where the path of `origin_of` starts after the host, namespace and name
/// are those that it was made of, and the name in the convention of GitHub
/// and Bitbucket is `<namespace>/<name>`.
pub proof fn lemma_origin_names(
    head: Seq<char>,
    host: Seq<char>,
    mid: char,
    namespace: Seq<char>,
    name: Seq<char>,
)
    requires
        is_label(namespace),
        is_label(name),
        path_sep(origin_of(head, host, mid, namespace, name)) == head.len() + host.len(),
    ensures
        gitlab_namespace(origin_of(head, host, mid, namespace, name)) == Some(namespace),
        gitlab_name(origin_of(head, host, mid, namespace, name)) == Some(name),
        github_name(origin_of(head, host, mid, namespace, name)) == Some(
            namespace + seq!['/'] + name,
        ),
{
    let s = origin_of(head, host, mid, namespace, name);
    let a: int = (head.len() + host.len()) as int;
    let b: int = a + 1 + namespace.len();
    let e: int = b + 1 + name.len();
    lemma_origin_layout(head, host, mid, namespace, name);
    assert forall|j: int| b < j < e implies is_plain(#[trigger] s[j]) by {
        assert(is_plain(name[j - b - 1]));
    }
    assert forall|j: int| a < j < b implies is_plain(#[trigger] s[j]) by {
        assert(is_plain(namespace[j - a - 1]));
    }
    lemma_last_index_is(s, '/', e, b);
    lemma_last_index(s, '/', b);
    assert(last_index(s, '/', b) <= a);
    assert(segment_start(s, b) == a + 1);
    assert(no_space(s, a + 1, e));
    lemma_last_index_is(s, '.', s.len() as int, e);
    lemma_last_index_is(s, '/', e - 1, b);
    assert(s.subrange(a + 1, e) =~= namespace + seq!['/'] + name);
}

/// In `git@<host>:<namespace>/<name>.git` the host starts after the `@` and
/// ends at the colon.
pub proof fn lemma_ssh_host(host: Seq<char>, namespace: Seq<char>, name: Seq<char>)
    requires
        is_host(host),
        is_label(namespace),
        is_label(name),
    ensures
        host_begin(ssh_origin(host, namespace, name)) == 4,
        host_stop(ssh_origin(host, namespace, name)) == 4 + host.len(),
        path_sep(ssh_origin(host, namespace, name)) == 4 + host.len(),
        domain(ssh_origin(host, namespace, name)) == Some(host),
{
    let head = seq!['g', 'i', 't', '@'];
    let s = ssh_origin(host, namespace, name);
    let a: int = (4 + host.len()) as int;
    let b: int = a + 1 + namespace.len();
    lemma_origin_layout(head, host, ':', namespace, name);
    assert(s[0] == 'g' && s[1] == 'i' && s[2] == 't' && s[3] == '@');
    assert forall|j: int| 4 <= j < a implies !is_sep(#[trigger] s[j]) && s[j] != '@' by {
        assert(!is_sep(host[j - 4]));
    }
    assert forall|j: int| a < j < b implies is_plain(#[trigger] s[j]) by {
        assert(is_plain(namespace[j - a - 1]));
    }
    lemma_host_end_is(s, 0, a);
    assert(!has_slashes_at(s, a)) by {
        assert(is_plain(s[a + 1]));
    }
    assert(scheme_end(s) == 0);
    lemma_last_index_is(s, '@', a, 3);
    lemma_host_end_is(s, 4, a);
}

/// In `https://<host>/<namespace>/<name>.git` the host starts after the
/// scheme and ends at the slash.
pub proof fn lemma_https_host(host: Seq<char>, namespace: Seq<char>, name: Seq<char>)
    requires
        is_host(host),
        is_label(namespace),
        is_label(name),
    ensures
        host_begin(https_origin(host, namespace, name)) == 8,
        host_stop(https_origin(host, namespace, name)) == 8 + host.len(),
        path_sep(https_origin(host, namespace, name)) == 8 + host.len(),
        domain(https_origin(host, namespace, name)) == Some(host),
{
    let head = seq!['h', 't', 't', 'p', 's', ':', '/', '/'];
    let s = https_origin(host, namespace, name);
    let a: int = (8 + host.len()) as int;
    lemma_origin_layout(head, host, '/', namespace, name);
    assert(s[0] == 'h' && s[1] == 't' && s[2] == 't' && s[3] == 'p' && s[4] == 's' && s[5] == ':'
        && s[6] == '/' && s[7] == '/');
    assert forall|j: int| 8 <= j < a implies !is_sep(#[trigger] s[j]) && s[j] != '@' by {
        assert(!is_sep(host[j - 8]));
    }
    lemma_host_end_is(s, 0, 5);
    assert(all_plain(s, 0, 5));
    assert(scheme_end(s) == 8);
    lemma_first_index_is(s, '/', 8, a);
    lemma_last_index_none(s, '@', a);
    lemma_host_end_is(s, 8, a);
}

/// Every well-formed origin `git@<host>:<namespace>/<name>.git` names that
/// host, that namespace and that name; in the convention of GitHub and
/// Bitbucket the name is `<namespace>/<name>`.
pub proof fn lemma_ssh_origin(host: Seq<char>, namespace: Seq<char>, name: Seq<char>)
    requires
        is_label(host),
        is_label(namespace),
        is_label(name),
    ensures
        domain(ssh_origin(host, namespace, name)) == Some(host),
        gitlab_namespace(ssh_origin(host, namespace, name)) == Some(namespace),
        gitlab_name(ssh_origin(host, namespace, name)) == Some(name),
        github_name(ssh_origin(host, namespace, name)) == Some(namespace + seq!['/'] + name),
{
    assert(is_host(host)) by {
        assert forall|j: int| 0 <= j < host.len() implies !is_sep(#[trigger] host[j]) && host[j]
            != '@' by {
            assert(is_plain(host[j]));
        }
    }
    lemma_ssh_host(host, namespace, name);
    lemma_origin_names(seq!['g', 'i', 't', '@'], host, ':', namespace, name);
}

/// Every well-formed origin `https://<host>/<namespace>/<name>.git` names
/// that host, that namespace and that name; in the convention of GitHub and
/// Bitbucket the name is `<namespace>/<name>`, as for the origin
/// `git@<host>:<namespace>/<name>.git`.
pub proof fn lemma_https_origin(host: Seq<char>, namespace: Seq<char>, name: Seq<char>)
    requires
        is_label(host),
        is_label(namespace),
        is_label(name),
    ensures
        domain(https_origin(host, namespace, name)) == Some(host),
        gitlab_namespace(https_origin(host, namespace, name)) == Some(namespace),
        gitlab_name(https_origin(host, namespace, name)) == Some(name),
        github_name(https_origin(host, namespace, name)) == Some(namespace + seq!['/'] + name),
        github_name(https_origin(host, namespace, name)) == github_name(
            ssh_origin(host, namespace, name),
        ),
{
    assert(is_host(host)) by {
        assert forall|j: int| 0 <= j < host.len() implies !is_sep(#[trigger] host[j]) && host[j]
            != '@' by {
            assert(is_plain(host[j]));
        }
    }
    lemma_https_host(host, namespace, name);
    lemma_origin_names(
        seq!['h', 't', 't', 'p', 's', ':', '/', '/'],
        host,
        '/',
        namespace,
        name,
    );
    lemma_ssh_origin(host, namespace, name);
}

/// The host of an origin, put into an origin of either form with a
/// well-formed namespace and name, is the host of that origin too.
pub proof fn lemma_domain_idempotent(origin: Seq<char>, namespace: Seq<char>, name: Seq<char>)
    requires
        domain(origin) is Some,
        is_label(namespace),
        is_label(name),
    ensures
        domain(https_origin(domain(origin).unwrap(), namespace, name)) == domain(origin),
        domain(ssh_origin(domain(origin).unwrap(), namespace, name)) == domain(origin),
{
    lemma_domain_is_host(origin);
    lemma_https_host(domain(origin).unwrap(), namespace, name);
    lemma_ssh_host(domain(origin).unwrap(), namespace, name);
}

/// The origin that holds, in this order, `head`, the host, the character
/// `mid`, the name and `.git`: its path holds the name only.
pub open spec fn bare_origin(head: Seq<char>, host: Seq<char>, mid: char, name: Seq<char>) -> Seq<
    char,
> {
    head + host + seq![mid] + name + seq!['.', 'g', 'i', 't']
}

/// An origin whose path holds the name only, `https://<host>/<name>.git` or
/// `git@<host>:<name>.git`, names its host and has no namespace: the host is
/// not taken for one.
pub proof fn lemma_name_only_origin(host: Seq<char>, name: Seq<char>)
    requires
        is_host(host),
        is_label(name),
    ensures
        domain(bare_origin(seq!['h', 't', 't', 'p', 's', ':', '/', '/'], host, '/', name)) == Some(
            host,
        ),
        gitlab_namespace(bare_origin(seq!['h', 't', 't', 'p', 's', ':', '/', '/'], host, '/', name))
            is None,
        domain(bare_origin(seq!['g', 'i', 't', '@'], host, ':', name)) == Some(host),
        gitlab_namespace(bare_origin(seq!['g', 'i', 't', '@'], host, ':', name)) is None,
{
    lemma_https_name_only(host, name);
    lemma_ssh_name_only(host, name);
}

proof fn lemma_https_name_only(host: Seq<char>, name: Seq<char>)
    requires
        is_host(host),
        is_label(name),
    ensures
        domain(bare_origin(seq!['h', 't', 't', 'p', 's', ':', '/', '/'], host, '/', name)) == Some(
            host,
        ),
        gitlab_namespace(bare_origin(seq!['h', 't', 't', 'p', 's', ':', '/', '/'], host, '/', name))
            is None,
{
    let head = seq!['h', 't', 't', 'p', 's', ':', '/', '/'];
    let s = bare_origin(head, host, '/', name);
    let a: int = (8 + host.len()) as int;
    let z: int = a + 1 + name.len();
    assert(s.len() == z + 4);
    assert(s[0] == 'h' && s[1] == 't' && s[2] == 't' && s[3] == 'p' && s[4] == 's' && s[5] == ':'
        && s[6] == '/' && s[7] == '/');
    assert forall|j: int| 8 <= j < a implies !is_sep(#[trigger] s[j]) && s[j] != '@' by {
        assert(s[j] == host[j - 8]);
    }
    assert(s[a] == '/');
    assert forall|j: int| a < j < z implies is_plain(#[trigger] s[j]) by {
        assert(s[j] == name[j - a - 1]);
        assert(is_plain(name[j - a - 1]));
    }
    lemma_host_end_is(s, 0, 5);
    assert(all_plain(s, 0, 5));
    assert(scheme_end(s) == 8);
    lemma_first_index_is(s, '/', 8, a);
    lemma_last_index_none(s, '@', a);
    lemma_host_end_is(s, 8, a);
    assert(path_sep(s) == a);
    assert(s.subrange(8, a) =~= host);
    lemma_last_index_is(s, '/', z, a);
}

proof fn lemma_ssh_name_only(host: Seq<char>, name: Seq<char>)
    requires
        is_host(host),
        is_label(name),
    ensures
        domain(bare_origin(seq!['g', 'i', 't', '@'], host, ':', name)) == Some(host),
        gitlab_namespace(bare_origin(seq!['g', 'i', 't', '@'], host, ':', name)) is None,
{
    let head = seq!['g', 'i', 't', '@'];
    let s = bare_origin(head, host, ':', name);
    let a: int = (4 + host.len()) as int;
    let z: int = a + 1 + name.len();
    assert(s.len() == z + 4);
    assert(s[0] == 'g' && s[1] == 'i' && s[2] == 't' && s[3] == '@');
    assert forall|j: int| 4 <= j < a implies !is_sep(#[trigger] s[j]) && s[j] != '@' by {
        assert(s[j] == host[j - 4]);
    }
    assert(s[a] == ':');
    assert forall|j: int| a < j < z implies is_plain(#[trigger] s[j]) by {
        assert(s[j] == name[j - a - 1]);
        assert(is_plain(name[j - a - 1]));
    }
    lemma_host_end_is(s, 0, a);
    assert(!has_slashes_at(s, a)) by {
        assert(is_plain(s[a + 1]));
    }
    assert(scheme_end(s) == 0);
    lemma_last_index_is(s, '@', a, 3);
    lemma_host_end_is(s, 4, a);
    assert(path_sep(s) == a);
    assert(s.subrange(4, a) =~= host);
    lemma_last_index(s, '/', z);
    assert(last_index(s, '/', z) < a) by {
        let m = last_index(s, '/', z);
        if m >= a {
            assert(s[m] == '/');
            if m > a {
                assert(is_plain(s[m]));
            }
        }
    }
}

} // verus!
