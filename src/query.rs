//! Parameters of a request's query string.

use vstd::prelude::*;
use crate::text::{chars_of, i64_of, parse_decimal};

verus! {

/// The index of the first `&` at or after `a`, or the length of `q`.
pub open spec fn field_end(q: Seq<char>, a: int) -> int
    decreases q.len() - a,
{
    if a >= q.len() {
        q.len() as int
    } else if q[a] == '&' {
        a
    } else {
        field_end(q, a + 1)
    }
}

/// The key that names the window length.
pub open spec fn hours_key() -> Seq<char> {
    seq!['h', 'o', 'u', 'r', 's', '=']
}

/// Whether the field `q[a..e]` begins with `hours=`.
pub open spec fn names_hours(q: Seq<char>, a: int, e: int) -> bool {
    e - a >= 6 && q.subrange(a, a + 6) == hours_key()
}

/// The value of the first `&`-separated field, from the one that starts at
/// `a` on, that begins with `hours=`, read as an integer.
pub open spec fn hours_from(q: Seq<char>, a: int) -> Option<int>
    decreases q.len() - a,
{
    let e = field_end(q, a);
    if a < 0 || a > q.len() || e < a || e > q.len() {
        None
    } else if names_hours(q, a, e) {
        i64_of(q.subrange(a + 6, e))
    } else if e < q.len() {
        hours_from(q, e + 1)
    } else {
        None
    }
}

proof fn lemma_field_end_range(q: Seq<char>, a: int)
    requires
        0 <= a <= q.len(),
    ensures
        a <= field_end(q, a) <= q.len(),
        field_end(q, a) < q.len() ==> q[field_end(q, a)] == '&',
    decreases q.len() - a,
{
    if a < q.len() && q[a] != '&' {
        lemma_field_end_range(q, a + 1);
    }
}

/// The value of the first field that begins with `hours=`, from the field
/// that starts at `start` on.
fn hours_after(cs: &Vec<char>, start: usize) -> (r: Option<i64>)
    ensures
        r matches Some(v) ==> hours_from(cs@, start as int) == Some(v as int),
        r is None ==> hours_from(cs@, start as int) is None,
{
    let ghost q = cs@;
    let n = cs.len();
    let mut a: usize = start;
    if a > n {
        return None;
    }
    while a <= n
        invariant
            q == cs@,
            n == q.len(),
            hours_from(q, start as int) == hours_from(q, a as int),
        decreases n + 1 - a,
    {
        let mut e: usize = a;
        while e < n && cs[e] != '&'
            invariant
                q == cs@,
                n == q.len(),
                a <= e <= n,
                field_end(q, a as int) == field_end(q, e as int),
            decreases n - e,
        {
            e = e + 1;
        }
        proof {
            lemma_field_end_range(q, a as int);
        }
        assert(field_end(q, a as int) == e);
        let mut is_key = e - a >= 6;
        if is_key {
            let key = ['h', 'o', 'u', 'r', 's', '='];
            let mut k: usize = 0;
            while k < 6
                invariant
                    q == cs@,
                    n == q.len(),
                    a + 6 <= e <= n,
                    k <= 6,
                    key@ == hours_key(),
                    is_key == (forall|j: int| 0 <= j < k ==> q[a + j] == hours_key()[j]),
                decreases 6 - k,
            {
                if cs[a + k] != key[k] {
                    is_key = false;
                }
                k = k + 1;
            }
            assert(is_key == (q.subrange(a as int, a + 6) =~= hours_key()));
        }
        assert(is_key == names_hours(q, a as int, e as int));
        if is_key {
            assert(hours_from(q, a as int) == i64_of(q.subrange(a + 6, e as int)));
            return parse_decimal(cs, a + 6, e);
        }
        if e >= n {
            return None;
        }
        a = e + 1;
    }
    None
}

/// The `hours` parameter of a query string such as `hours=24&x=1`: the
/// text after `hours=` in the first `&`-separated field that begins with
/// it, when that text is an integer within `i64`. `None` when no field
/// begins with `hours=` or that field's value is not such an integer.
pub fn parse_hours(query: &str) -> (r: Option<i64>)
    ensures
        r matches Some(v) ==> hours_from(query@, 0) == Some(v as int),
        r is None ==> hours_from(query@, 0) is None,
{
    let cs = chars_of(query);
    hours_after(&cs, 0)
}

/// Window length, in hours, of a history or statistics request that names
/// none.
pub const DEFAULT_WINDOW_HOURS: i64 = 24;

/// What a request path asks for.
#[derive(PartialEq, Eq, Structural, Debug, Clone, Copy)]
pub enum Route {
    /// Charge level and health.
    Check,
    /// Health alone.
    Health,
    /// Charge level alone.
    Status,
    /// The whole snapshot.
    Full,
    /// The records of the given number of hours.
    History(i64),
    /// The aggregates of the given number of hours.
    Statistics(i64),
    NotFound,
}

/// The index of the first `?` in `u`, or its length.
pub open spec fn query_mark(u: Seq<char>) -> int
    decreases u.len(),
{
    if u.len() == 0 {
        0
    } else if u[0] == '?' {
        0
    } else {
        1 + query_mark(u.drop_first())
    }
}

/// The window length a request asks for, from the query after `?`.
pub open spec fn window_hours(u: Seq<char>) -> int {
    match hours_from(u, query_mark(u) + 1) {
        Some(h) => h,
        None => DEFAULT_WINDOW_HOURS as int,
    }
}

/// The route of a request target `u`: its path (before the first `?`)
/// picks the endpoint; history and statistics read their window length
/// from the query.
pub open spec fn route_of(u: Seq<char>) -> Route {
    let p = u.subrange(0, query_mark(u));
    if p == "/api/v1/battery/check"@ {
        Route::Check
    } else if p == "/api/v1/battery/health"@ {
        Route::Health
    } else if p == "/api/v1/battery/status"@ {
        Route::Status
    } else if p == "/api/v1/battery/full"@ {
        Route::Full
    } else if p == "/api/v1/battery/history"@ {
        Route::History(window_hours(u) as i64)
    } else if p == "/api/v1/battery/statistics"@ {
        Route::Statistics(window_hours(u) as i64)
    } else {
        Route::NotFound
    }
}

proof fn lemma_query_mark(u: Seq<char>)
    ensures
        0 <= query_mark(u) <= u.len(),
        forall|i: int| 0 <= i < query_mark(u) ==> u[i] != '?',
        query_mark(u) < u.len() ==> u[query_mark(u)] == '?',
    decreases u.len(),
{
    if u.len() > 0 && u[0] != '?' {
        lemma_query_mark(u.drop_first());
        assert forall|i: int| 0 <= i < query_mark(u) implies u[i] != '?' by {
            if i > 0 {
                assert(u[i] == u.drop_first()[i - 1]);
            }
        }
    }
}

/// Whether `cs[0..len]` spells `lit`.
fn prefix_is(cs: &Vec<char>, len: usize, lit: &str) -> (r: bool)
    requires
        len <= cs@.len(),
    ensures
        r == (cs@.subrange(0, len as int) == lit@),
{
    let l = chars_of(lit);
    if l.len() != len {
        return false;
    }
    let mut i: usize = 0;
    while i < len
        invariant
            i <= len <= cs@.len(),
            l@.len() == len,
            l@ == lit@,
            forall|j: int| 0 <= j < i ==> cs@[j] == l@[j],
        decreases len - i,
    {
        if cs[i] != l[i] {
            assert(cs@.subrange(0, len as int)[i as int] != lit@[i as int]);
            return false;
        }
        i = i + 1;
    }
    assert(cs@.subrange(0, len as int) =~= lit@);
    true
}

/// The route of a request target such as `/api/v1/battery/history?hours=6`.
pub fn route(target: &str) -> (r: Route)
    ensures
        r == route_of(target@),
{
    let cs = chars_of(target);
    let ghost u = cs@;
    let n = cs.len();
    let mut m: usize = 0;
    while m < n && cs[m] != '?'
        invariant
            u == cs@,
            n == u.len(),
            m <= n,
            forall|i: int| 0 <= i < m ==> u[i] != '?',
        decreases n - m,
    {
        m = m + 1;
    }
    proof {
        lemma_query_mark(u);
        if query_mark(u) < m {
            assert(u[query_mark(u)] != '?');
        }
        if m < query_mark(u) {
            assert(u[m as int] != '?');
        }
    }
    assert(m == query_mark(u));
    let asked = if m < n {
        hours_after(&cs, m + 1)
    } else {
        None
    };
    let hours = match asked {
        Some(h) => h,
        None => DEFAULT_WINDOW_HOURS,
    };
    assert(hours == window_hours(u));
    if prefix_is(&cs, m, "/api/v1/battery/check") {
        Route::Check
    } else if prefix_is(&cs, m, "/api/v1/battery/health") {
        Route::Health
    } else if prefix_is(&cs, m, "/api/v1/battery/status") {
        Route::Status
    } else if prefix_is(&cs, m, "/api/v1/battery/full") {
        Route::Full
    } else if prefix_is(&cs, m, "/api/v1/battery/history") {
        Route::History(hours)
    } else if prefix_is(&cs, m, "/api/v1/battery/statistics") {
        Route::Statistics(hours)
    } else {
        Route::NotFound
    }
}

} // verus!
