//! The laws of the service, proved of the spec-level store transitions
//! and of the request-handling function.

use vstd::prelude::*;
use crate::UserV;
use crate::dispatch::ActionV;
use crate::dispatch::RespV;
use crate::dispatch::Route;
use crate::dispatch::Status;
use crate::dispatch::spec_body;
use crate::dispatch::spec_handle;
use crate::dispatch::spec_route;
use crate::dispatch::spec_step;
use crate::http::spec_parse_request;
use crate::json::spec_parse_record;
use crate::store::StoreV;
use crate::store::ids_in;
use crate::store::spec_create;
use crate::store::spec_delete;
use crate::store::spec_get_user;
use crate::store::spec_init;
use crate::store::spec_insert;
use crate::store::spec_lookup;
use crate::store::spec_remove_rows;
use crate::store::spec_update;
use crate::store::spec_update_rows;
use crate::store::store_wf;
use crate::store::unique_ids;

verus! {

/// A row is found exactly when some row carries the identifier, and
/// what is found carries it.
proof fn lemma_lookup_props(rows: Seq<UserV>, id: int)
    ensures
        (spec_lookup(rows, id) is Some) <==> exists|k: int|
            0 <= k < rows.len() && (#[trigger] rows[k]).id == Some(id),
        spec_lookup(rows, id) matches Some(u) ==> u.id == Some(id),
    decreases rows.len(),
{
    if rows.len() == 0 {
    } else if rows[0].id == Some(id) {
        assert(0 <= 0 < rows.len() && rows[0].id == Some(id));
    } else {
        lemma_lookup_props(rows.skip(1), id);
        if spec_lookup(rows, id) is Some {
            let k0 = choose|k: int|
                0 <= k < rows.skip(1).len() && (#[trigger] rows.skip(1)[k]).id == Some(id);
            assert(rows[k0 + 1] == rows.skip(1)[k0]);
        }
        if exists|k: int| 0 <= k < rows.len() && (#[trigger] rows[k]).id == Some(id) {
            let k0 = choose|k: int| 0 <= k < rows.len() && (#[trigger] rows[k]).id == Some(id);
            assert(rows.skip(1)[k0 - 1] == rows[k0]);
        }
    }
}

/// No row is found under an identifier outside the assigned range.
proof fn lemma_lookup_bound(rows: Seq<UserV>, bound: int, id: int)
    requires
        ids_in(rows, bound),
        id >= bound || id < 1,
    ensures
        spec_lookup(rows, id) is None,
{
    lemma_lookup_props(rows, id);
    if spec_lookup(rows, id) is Some {
        let k0 = choose|k: int| 0 <= k < rows.len() && (#[trigger] rows[k]).id == Some(id);
        assert(rows[k0].id is Some && 1 <= rows[k0].id->0 < bound);
    }
}

/// Appending a row changes a lookup only where nothing was found.
proof fn lemma_lookup_push(rows: Seq<UserV>, u: UserV, id: int)
    ensures
        spec_lookup(rows.push(u), id) == (if spec_lookup(rows, id) is Some {
            spec_lookup(rows, id)
        } else if u.id == Some(id) {
            Some(u)
        } else {
            None::<UserV>
        }),
    decreases rows.len(),
{
    if rows.len() == 0 {
        assert(rows.push(u)[0] == u);
        assert(rows.push(u).skip(1) =~= Seq::<UserV>::empty());
    } else {
        assert(rows.push(u)[0] == rows[0]);
        assert(rows.push(u).skip(1) =~= rows.skip(1).push(u));
        lemma_lookup_push(rows.skip(1), u, id);
    }
}

/// Initialization is idempotent and touches neither the rows nor the
/// identifier counter.
pub proof fn law_init_idempotent(s: StoreV)
    ensures
        spec_init(spec_init(s)) == spec_init(s),
        spec_init(s).rows == s.rows,
        spec_init(s).next_id == s.next_id,
        store_wf(s) ==> store_wf(spec_init(s)),
{
}

/// Round trip: creating a record and reading it back under the
/// identifier the store assigned returns exactly the stored name and
/// email, and creation succeeds whenever identifiers remain.
pub proof fn law_create_round_trip(s: StoreV, n: Seq<char>, e: Seq<char>)
    requires
        store_wf(s),
        s.ready,
        s.next_id < 0x7fff_ffff,
    ensures
        spec_create(s, n, e).1 is Ok,
        spec_get_user(spec_create(s, n, e).0, s.next_id) == Ok::<UserV, crate::store::StoreError>(
            UserV { id: Some(s.next_id), name: n, email: e },
        ),
        store_wf(spec_create(s, n, e).0),
{
    let new = UserV { id: Some(s.next_id), name: n, email: e };
    let s2 = spec_insert(s, n, e);
    lemma_lookup_bound(s.rows, s.next_id, s.next_id);
    lemma_lookup_push(s.rows, new, s.next_id);
    assert(ids_in(s2.rows, s2.next_id)) by {
        assert forall|k: int| 0 <= k < s2.rows.len() implies (#[trigger] s2.rows[k].id) is Some
            && 1 <= s2.rows[k].id->0 < s2.next_id by {
            if k < s.rows.len() {
                assert(s2.rows[k] == s.rows[k]);
                assert(s.rows[k].id is Some && 1 <= s.rows[k].id->0 < s.next_id);
            } else {
                assert(s2.rows[k] == new);
            }
        }
    }
    assert(unique_ids(s2.rows)) by {
        assert forall|k1: int, k2: int| 0 <= k1 < k2 < s2.rows.len() implies (#[trigger] s2
            .rows[k1].id) != (#[trigger] s2.rows[k2].id) by {
            if k2 < s.rows.len() {
                assert(s.rows[k1].id != s.rows[k2].id);
            } else {
                assert(s2.rows[k2] == new);
                assert(s.rows[k1].id is Some && 1 <= s.rows[k1].id->0 < s.next_id);
            }
        }
    }
}

/// A lookup in updated rows: the targeted record carries the new fields
/// and its old identifier; every other identifier finds what it found.
proof fn lemma_update_lookup(rows: Seq<UserV>, id: int, n: Seq<char>, e: Seq<char>, id2: int)
    ensures
        spec_lookup(spec_update_rows(rows, id, n, e), id2) == (if id2 == id {
            match spec_lookup(rows, id) {
                Some(u) => Some(UserV { id: u.id, name: n, email: e }),
                None => None,
            }
        } else {
            spec_lookup(rows, id2)
        }),
    decreases rows.len(),
{
    let upd = spec_update_rows(rows, id, n, e);
    if rows.len() == 0 {
        assert(upd =~= Seq::<UserV>::empty());
    } else {
        assert(upd[0] == (if rows[0].id == Some(id) {
            UserV { id: rows[0].id, name: n, email: e }
        } else {
            rows[0]
        }));
        assert(upd.skip(1) =~= spec_update_rows(rows.skip(1), id, n, e));
        lemma_update_lookup(rows.skip(1), id, n, e, id2);
        assert(upd[0].id == rows[0].id);
    }
}

/// Update mutates only the targeted record, and only its name and
/// email: identifiers are unchanged row by row, other records are found
/// unchanged, and the row count stays the same.
pub proof fn law_update_targets(s: StoreV, id: int, n: Seq<char>, e: Seq<char>)
    requires
        store_wf(s),
        s.ready,
    ensures
        spec_update(s, id, n, e).1 is Ok,
        spec_update(s, id, n, e).0.rows.len() == s.rows.len(),
        forall|k: int| 0 <= k < s.rows.len() ==> spec_update(s, id, n, e).0.rows[k].id == (
        #[trigger] s.rows[k].id),
        spec_lookup(spec_update(s, id, n, e).0.rows, id) == (match spec_lookup(s.rows, id) {
            Some(u) => Some(UserV { id: u.id, name: n, email: e }),
            None => None,
        }),
        forall|id2: int| id2 != id ==> #[trigger] spec_lookup(
            spec_update(s, id, n, e).0.rows,
            id2,
        ) == spec_lookup(s.rows, id2),
        store_wf(spec_update(s, id, n, e).0),
{
    let upd = spec_update(s, id, n, e).0.rows;
    lemma_update_lookup(s.rows, id, n, e, id);
    assert forall|id2: int| id2 != id implies #[trigger] spec_lookup(upd, id2) == spec_lookup(
        s.rows,
        id2,
    ) by {
        lemma_update_lookup(s.rows, id, n, e, id2);
    }
    assert(ids_in(upd, s.next_id)) by {
        assert forall|k: int| 0 <= k < upd.len() implies (#[trigger] upd[k].id) is Some && 1 <= upd[
            k
        ].id->0 < s.next_id by {
            assert(upd[k].id == s.rows[k].id);
            assert(s.rows[k].id is Some && 1 <= s.rows[k].id->0 < s.next_id);
        }
    }
    assert(unique_ids(upd)) by {
        assert forall|k1: int, k2: int| 0 <= k1 < k2 < upd.len() implies (#[trigger] upd[k1].id)
            != (#[trigger] upd[k2].id) by {
            assert(upd[k1].id == s.rows[k1].id);
            assert(upd[k2].id == s.rows[k2].id);
            assert(s.rows[k1].id != s.rows[k2].id);
        }
    }
}

/// Removal leaves nothing under the removed identifier.
proof fn lemma_remove_gone(rows: Seq<UserV>, id: int)
    ensures
        spec_lookup(spec_remove_rows(rows, id), id) is None,
    decreases rows.len(),
{
    if rows.len() == 0 {
    } else if rows[0].id == Some(id) {
        lemma_remove_gone(rows.skip(1), id);
    } else {
        lemma_remove_gone(rows.skip(1), id);
        let r = spec_remove_rows(rows, id);
        assert(r[0] == rows[0]);
        assert(r.skip(1) =~= spec_remove_rows(rows.skip(1), id));
    }
}

/// Removal of one identifier does not change what any other finds.
proof fn lemma_remove_other(rows: Seq<UserV>, id: int, id2: int)
    requires
        id2 != id,
    ensures
        spec_lookup(spec_remove_rows(rows, id), id2) == spec_lookup(rows, id2),
    decreases rows.len(),
{
    if rows.len() == 0 {
    } else if rows[0].id == Some(id) {
        lemma_remove_other(rows.skip(1), id, id2);
        assert(rows[0].id != Some(id2));
    } else {
        lemma_remove_other(rows.skip(1), id, id2);
        let r = spec_remove_rows(rows, id);
        assert(r[0] == rows[0]);
        assert(r.skip(1) =~= spec_remove_rows(rows.skip(1), id));
    }
}

/// Removing an absent identifier changes nothing.
proof fn lemma_remove_absent(rows: Seq<UserV>, id: int)
    requires
        spec_lookup(rows, id) is None,
    ensures
        spec_remove_rows(rows, id) == rows,
    decreases rows.len(),
{
    if rows.len() == 0 {
        assert(spec_remove_rows(rows, id) =~= rows);
    } else {
        lemma_remove_absent(rows.skip(1), id);
        assert(seq![rows[0]] + rows.skip(1) =~= rows);
    }
}

/// With unique identifiers, removal drops exactly the matched row.
proof fn lemma_remove_len(rows: Seq<UserV>, id: int)
    requires
        unique_ids(rows),
    ensures
        spec_remove_rows(rows, id).len() == rows.len() - (if spec_lookup(rows, id) is Some {
            1int
        } else {
            0int
        }),
    decreases rows.len(),
{
    if rows.len() == 0 {
    } else {
        assert(unique_ids(rows.skip(1))) by {
            assert forall|k1: int, k2: int| 0 <= k1 < k2 < rows.skip(1).len() implies (
            #[trigger] rows.skip(1)[k1].id) != (#[trigger] rows.skip(1)[k2].id) by {
                assert(rows.skip(1)[k1] == rows[k1 + 1]);
                assert(rows.skip(1)[k2] == rows[k2 + 1]);
            }
        }
        if rows[0].id == Some(id) {
            lemma_lookup_props(rows.skip(1), id);
            if spec_lookup(rows.skip(1), id) is Some {
                let k0 = choose|k: int|
                    0 <= k < rows.skip(1).len() && (#[trigger] rows.skip(1)[k]).id == Some(id);
                assert(rows.skip(1)[k0] == rows[k0 + 1]);
                assert(rows[0].id != rows[k0 + 1].id);
            }
            lemma_remove_absent(rows.skip(1), id);
        } else {
            lemma_remove_len(rows.skip(1), id);
        }
    }
}

/// Removal keeps the identifier range and uniqueness of the rows.
proof fn lemma_remove_wf(rows: Seq<UserV>, id: int, bound: int)
    requires
        ids_in(rows, bound),
        unique_ids(rows),
    ensures
        ids_in(spec_remove_rows(rows, id), bound),
        unique_ids(spec_remove_rows(rows, id)),
    decreases rows.len(),
{
    if rows.len() == 0 {
    } else {
        assert(ids_in(rows.skip(1), bound) && unique_ids(rows.skip(1))) by {
            assert forall|k: int| 0 <= k < rows.skip(1).len() implies (#[trigger] rows.skip(1)[k].id)
                is Some && 1 <= rows.skip(1)[k].id->0 < bound by {
                assert(rows.skip(1)[k] == rows[k + 1]);
            }
            assert forall|k1: int, k2: int| 0 <= k1 < k2 < rows.skip(1).len() implies (
            #[trigger] rows.skip(1)[k1].id) != (#[trigger] rows.skip(1)[k2].id) by {
                assert(rows.skip(1)[k1] == rows[k1 + 1]);
                assert(rows.skip(1)[k2] == rows[k2 + 1]);
            }
        }
        lemma_remove_wf(rows.skip(1), id, bound);
        if rows[0].id == Some(id) {
        } else {
            let tail = spec_remove_rows(rows.skip(1), id);
            let r = spec_remove_rows(rows, id);
            assert(r =~= seq![rows[0]] + tail);
            lemma_lookup_props(tail, rows[0].id->0);
            if spec_lookup(tail, rows[0].id->0) is Some {
                let k0 = choose|k: int|
                    0 <= k < tail.len() && (#[trigger] tail[k]).id == Some(rows[0].id->0);
                lemma_remove_other(rows.skip(1), id, rows[0].id->0);
                lemma_lookup_props(rows.skip(1), rows[0].id->0);
                let m0 = choose|k: int|
                    0 <= k < rows.skip(1).len() && (#[trigger] rows.skip(1)[k]).id == Some(
                        rows[0].id->0,
                    );
                assert(rows.skip(1)[m0] == rows[m0 + 1]);
                assert(rows[0].id != rows[m0 + 1].id);
                assert(rows[0].id == Some(rows[0].id->0));
            }
            assert forall|k1: int, k2: int| 0 <= k1 < k2 < r.len() implies (#[trigger] r[k1].id)
                != (#[trigger] r[k2].id) by {
                if k1 == 0 {
                    assert(r[k2] == tail[k2 - 1]);
                    if r[0].id == r[k2].id {
                        lemma_lookup_props(tail, rows[0].id->0);
                        assert(tail[k2 - 1].id == Some(rows[0].id->0));
                    }
                } else {
                    assert(r[k1] == tail[k1 - 1]);
                    assert(r[k2] == tail[k2 - 1]);
                }
            }
            assert forall|k: int| 0 <= k < r.len() implies (#[trigger] r[k].id) is Some && 1 <= r[
                k
            ].id->0 < bound by {
                if k == 0 {
                    assert(r[0] == rows[0]);
                } else {
                    assert(r[k] == tail[k - 1]);
                }
            }
        }
    }
}

/// Listing reflects deletion: after removing a record, nothing is found
/// under its identifier, the listing is exactly one shorter when the
/// record existed, and every other record is found unchanged.
pub proof fn law_delete_listing(s: StoreV, id: int)
    requires
        store_wf(s),
        s.ready,
    ensures
        spec_delete(s, id).1 is Ok,
        spec_lookup(spec_delete(s, id).0.rows, id) is None,
        spec_lookup(s.rows, id) is Some ==> spec_delete(s, id).0.rows.len() == s.rows.len() - 1,
        spec_lookup(s.rows, id) is None ==> spec_delete(s, id).0.rows == s.rows,
        forall|id2: int| id2 != id ==> #[trigger] spec_lookup(spec_delete(s, id).0.rows, id2)
            == spec_lookup(s.rows, id2),
        store_wf(spec_delete(s, id).0),
{
    lemma_remove_gone(s.rows, id);
    lemma_remove_len(s.rows, id);
    if spec_lookup(s.rows, id) is None {
        lemma_remove_absent(s.rows, id);
    }
    assert forall|id2: int| id2 != id implies #[trigger] spec_lookup(
        spec_delete(s, id).0.rows,
        id2,
    ) == spec_lookup(s.rows, id2) by {
        lemma_remove_other(s.rows, id, id2);
    }
    lemma_remove_wf(s.rows, id, s.next_id);
}

/// Fetching an identifier no record carries answers not-found and
/// leaves the store as it was.
pub proof fn law_read_missing(s: StoreV, id: int)
    requires
        spec_lookup(s.rows, id) is None,
    ensures
        spec_step(s, ActionV::FetchById { id }) == (
            s,
            RespV { status: Status::NotFound, body: "User not found"@ },
        ),
{
}

/// A request whose method and path match no route is answered not-found
/// and leaves the store as it was; so is a request line with fewer than
/// two tokens.
pub proof fn law_unmatched_route(s: StoreV, req: Seq<char>)
    requires
        match spec_parse_request(req) {
            Some((m, p)) => spec_route(m, p) == Route::Unmatched,
            None => true,
        },
    ensures
        spec_handle(s, req) == (s, RespV { status: Status::NotFound, body: "404 Not Found"@ }),
{
}

/// A create whose body does not parse as a record stores nothing and is
/// answered with the error response.
pub proof fn law_malformed_create(s: StoreV, req: Seq<char>)
    requires
        match spec_parse_request(req) {
            Some((m, p)) => spec_route(m, p) == Route::Create,
            None => false,
        },
        spec_parse_record(spec_body(req)) is None,
    ensures
        spec_handle(s, req) == (s, RespV { status: Status::ServerError, body: "Error"@ }),
{
}

} // verus!
