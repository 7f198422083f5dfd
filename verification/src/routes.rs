//! The route table: which method and path reach which handler.
//!
//! Three routes exist: `GET /health`, `POST /records`, and `GET /records/{id}`
//! where the identifier is the remainder of the path after `/records/` and
//! contains no further slash (it may be empty). Anything else matches no
//! route, and the caller answers with its default not-found response.

use vstd::prelude::*;

verus! {

/// An HTTP request method, as far as this service distinguishes them.
#[derive(PartialEq, Eq, Structural, Clone, Copy, Debug)]
pub enum Method {
    Get,
    Post,
}

/// A matched route. A record lookup carries the identifier taken from the path.
pub enum Route {
    Health,
    StoreRecord,
    GetRecord(String),
}

/// Whether method and path name the health-check route.
pub open spec fn is_health_path(m: Method, p: Seq<char>) -> bool {
    m == Method::Get && p == "/health"@
}

/// Whether method and path name the record-creation route.
pub open spec fn is_store_path(m: Method, p: Seq<char>) -> bool {
    m == Method::Post && p == "/records"@
}

/// The identifier segment of a record-lookup path: what follows `/records/`.
pub open spec fn get_record_id(p: Seq<char>) -> Seq<char> {
    p.subrange("/records/"@.len() as int, p.len() as int)
}

/// Whether method and path name the record-lookup route: `GET`, the
/// `/records/` prefix, and no slash inside the identifier segment.
pub open spec fn is_get_record_path(m: Method, p: Seq<char>) -> bool {
    m == Method::Get && p.len() >= "/records/"@.len() && p.subrange(
        0,
        "/records/"@.len() as int,
    ) == "/records/"@ && !get_record_id(p).contains('/')
}

/// Compares two strings character by character.
pub fn str_eq(a: &str, b: &str) -> (r: bool)
    ensures
        r == (a@ == b@),
{
    let na = a.unicode_len();
    let nb = b.unicode_len();
    if na != nb {
        return false;
    }
    let mut i: usize = 0;
    while i < na
        invariant
            na == a@.len(),
            na == b@.len(),
            i <= na,
            forall|j: int| 0 <= j < i ==> a@[j] == b@[j],
        decreases na - i,
    {
        if a.get_char(i) != b.get_char(i) {
            return false;
        }
        i = i + 1;
    }
    proof {
        assert(a@ =~= b@);
    }
    true
}

/// Whether the string contains a slash.
pub fn contains_slash(s: &str) -> (r: bool)
    ensures
        r == s@.contains('/'),
{
    let n = s.unicode_len();
    let mut i: usize = 0;
    while i < n
        invariant
            n == s@.len(),
            i <= n,
            forall|j: int| 0 <= j < i ==> s@[j] != '/',
        decreases n - i,
    {
        if s.get_char(i) == '/' {
            return true;
        }
        i = i + 1;
    }
    false
}

/// Matches a request line against the route table. Exactly the three routes
/// above are matched; the identifier of a lookup is echoed from the path.
pub fn route(method: Method, path: &str) -> (r: Option<Route>)
    ensures
        (r matches Option::Some(Route::Health)) <==> is_health_path(method, path@),
        (r matches Option::Some(Route::StoreRecord)) <==> is_store_path(method, path@),
        (r matches Option::Some(Route::GetRecord(id)) && id@ == get_record_id(path@))
            <==> is_get_record_path(method, path@),
        r is None <==> (!is_health_path(method, path@) && !is_store_path(method, path@)
            && !is_get_record_path(method, path@)),
{
    proof {
        reveal_strlit("/health");
        reveal_strlit("/records");
        reveal_strlit("/records/");
    }
    if method == Method::Get && str_eq(path, "/health") {
        Option::Some(Route::Health)
    } else if method == Method::Post && str_eq(path, "/records") {
        Option::Some(Route::StoreRecord)
    } else if method == Method::Get {
        let n = path.unicode_len();
        if n >= 9 {
            let head = path.substring_char(0, 9);
            if str_eq(head, "/records/") {
                let id = path.substring_char(9, n);
                if !contains_slash(id) {
                    return Option::Some(Route::GetRecord(id.to_owned()));
                }
            }
        }
        Option::None
    } else {
        Option::None
    }
}

} // verus!
