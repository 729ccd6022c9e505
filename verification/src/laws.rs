use vstd::prelude::*;
use crate::handlers::{next_page, root_page};
use crate::model::UserView;
use crate::render::{spec_render, spec_user_rows};
use crate::store::Store;
use crate::templates::{home_tv, next_tv};

verus! {

/// How many rows of a listing carry the given credentials.
pub open spec fn count_matching(rows: Seq<UserView>, email: Seq<char>, password: Seq<char>) -> nat
    decreases rows.len(),
{
    if rows.len() == 0 {
        0
    } else {
        (if rows[0].email == email && rows[0].password == password {
            1nat
        } else {
            0nat
        }) + count_matching(rows.skip(1), email, password)
    }
}

/// Appending one row adds its own match, and no other.
pub proof fn lemma_count_matching_push(
    rows: Seq<UserView>,
    u: UserView,
    email: Seq<char>,
    password: Seq<char>,
)
    ensures
        count_matching(rows.push(u), email, password) == count_matching(rows, email, password) + (
        if u.email == email && u.password == password {
            1nat
        } else {
            0nat
        }),
    decreases rows.len(),
{
    if rows.len() == 0 {
        assert(rows.push(u).skip(1) =~= Seq::<UserView>::empty());
        assert(rows.push(u)[0] == u);
        assert(count_matching(rows.push(u).skip(1), email, password) == 0);
        assert(count_matching(rows, email, password) == 0);
    } else {
        assert(rows.push(u).skip(1) =~= rows.skip(1).push(u));
        lemma_count_matching_push(rows.skip(1), u, email, password);
        assert(rows.push(u)[0] == rows[0]);
        assert(count_matching(rows.push(u), email, password) == (
        if rows[0].email == email && rows[0].password == password {
            1nat
        } else {
            0nat
        }) + count_matching(rows.skip(1).push(u), email, password));
        assert(count_matching(rows, email, password) == (
        if rows[0].email == email && rows[0].password == password {
            1nat
        } else {
            0nat
        }) + count_matching(rows.skip(1), email, password));
    }
}

/// Inserting a user with given credentials into a listing that held no row
/// with them, then listing, yields exactly one row with those credentials,
/// and that row carries a non-empty creation timestamp. The premises are
/// what `Store::insert_user` ensures of a successful insertion.
pub proof fn lemma_insert_then_list(
    rows0: Seq<UserView>,
    rows1: Seq<UserView>,
    u: UserView,
    email: Seq<char>,
    password: Seq<char>,
)
    requires
        rows1 == rows0.push(u),
        u.email == email,
        u.password == password,
        u.date_created.len() > 0,
        count_matching(rows0, email, password) == 0,
    ensures
        count_matching(rows1, email, password) == 1,
        exists|i: int|
            0 <= i < rows1.len() && rows1[i].email == email && rows1[i].password == password
                && rows1[i].date_created.len() > 0,
{
    lemma_count_matching_push(rows0, u, email, password);
    assert(rows1[rows1.len() - 1] == u);
}

/// Every listing of a well-formed store carries pairwise distinct
/// identifiers: identifiers strictly increase in insertion order, and each
/// successful insertion appends exactly one row (by `Store::insert_user`'s
/// contract), so after a run of insertions the listing holds one row per
/// insertion, with no identifier repeated.
pub proof fn lemma_listing_ids_distinct(s: Store)
    requires
        s.wf(),
    ensures
        forall|i: int, j: int|
            0 <= i < j < s@.rows.len() ==> #[trigger] s@.rows[i].id != #[trigger] s@.rows[j].id,
{
}

/// The home route and the static informational route show distinct,
/// route-specific titles, and neither carries a status message.
pub proof fn lemma_root_next_distinct()
    ensures
        root_page().title != next_page().title,
        root_page().message is None,
        next_page().message is None,
{
    reveal_strlit("Some title");
    reveal_strlit("Subscribe page");
    assert(root_page().title.len() == 10);
    assert(next_page().title.len() == 14);
}

/// The two pages as actually rendered with the default templates are
/// distinct documents: the home page opens its heading where the static
/// page opens a different one.
pub proof fn lemma_root_next_bodies_differ()
    ensures
        spec_render(home_tv(), root_page(), Seq::empty()) != spec_render(
            next_tv(),
            next_page(),
            Seq::empty(),
        ),
{
    reveal_strlit("<html><body><h1>");
    reveal_strlit("<html><body><h2>");
    let b1 = spec_render(home_tv(), root_page(), Seq::empty());
    let b2 = spec_render(next_tv(), next_page(), Seq::empty());
    assert(b1[14] == '1');
    assert(b2[14] == '2');
}

/// An empty listing renders no user rows at all.
pub proof fn lemma_empty_listing_renders_nothing()
    ensures
        spec_user_rows(Seq::<UserView>::empty()) == Seq::<char>::empty(),
{
}

} // verus!
