use vstd::prelude::*;
use crate::HtmlResponse;
use crate::errors::RenderError;
use crate::form::{parse_form, spec_parse_form};
use crate::model::{Page, PageView, User, UserView};
use crate::numfmt::{dec_str_int, i32_to_dec};
use crate::render::{Renderer, spec_find, spec_render};
use crate::store::Store;

verus! {

/// The page shown on the home route.
pub open spec fn root_page() -> PageView {
    PageView { title: "Some title"@, content: "Lorum Ipsum"@, message: None }
}

/// The page shown on the static informational route.
pub open spec fn next_page() -> PageView {
    PageView {
        title: "Subscribe page"@,
        content: "Subscribe to our great website"@,
        message: None,
    }
}

/// The page shown on the listing route.
pub open spec fn users_page() -> PageView {
    PageView { title: "List of users"@, content: "a place to see all users"@, message: None }
}

/// The home page after a successful signup: the same fixed title and
/// content, plus the confirmation message.
pub open spec fn subscribe_page(msg: Seq<char>) -> PageView {
    PageView { title: "Some title"@, content: "Lorum Ipsum"@, message: Some(msg) }
}

/// The confirmation message shown after a signup.
pub open spec fn success_message(email: Seq<char>, id: int) -> Seq<char> {
    "User with email "@ + email + " and id "@ + dec_str_int(id) + " inserted"@
}

/// Serves the home route: the home template rendered with the fixed title
/// and content and no status message.
pub fn root(ren: &Renderer) -> (r: Result<HtmlResponse, RenderError>)
    ensures
        r is Ok <==> spec_find(ren@, "home.html"@) is Some,
        r is Ok ==> r->Ok_0.status == 200u16 && r->Ok_0.body@ == spec_render(
            spec_find(ren@, "home.html"@)->Some_0,
            root_page(),
            Seq::empty(),
        ),
        r is Err ==> r->Err_0 == RenderError::MissingTemplate,
{
    let page = Page {
        title: String::from_str("Some title"),
        content: String::from_str("Lorum Ipsum"),
        message: None,
    };
    let users: Vec<User> = Vec::new();
    proof {
        assert(page@ =~= root_page());
        assert(users@.map_values(|u: User| u@) =~= Seq::<UserView>::empty());
    }
    match ren.render("home.html", &page, &users) {
        Ok(b) => Ok(HtmlResponse { status: 200, body: b }),
        Err(e) => Err(e),
    }
}

/// Serves the static informational route: the next template rendered with
/// its own fixed title and content and no status message.
pub fn next(ren: &Renderer) -> (r: Result<HtmlResponse, RenderError>)
    ensures
        r is Ok <==> spec_find(ren@, "next.html"@) is Some,
        r is Ok ==> r->Ok_0.status == 200u16 && r->Ok_0.body@ == spec_render(
            spec_find(ren@, "next.html"@)->Some_0,
            next_page(),
            Seq::empty(),
        ),
        r is Err ==> r->Err_0 == RenderError::MissingTemplate,
{
    let page = Page {
        title: String::from_str("Subscribe page"),
        content: String::from_str("Subscribe to our great website"),
        message: None,
    };
    let users: Vec<User> = Vec::new();
    proof {
        assert(page@ =~= next_page());
        assert(users@.map_values(|u: User| u@) =~= Seq::<UserView>::empty());
    }
    match ren.render("next.html", &page, &users) {
        Ok(b) => Ok(HtmlResponse { status: 200, body: b }),
        Err(e) => Err(e),
    }
}

/// Serves the listing route: the table template rendered with the full
/// user sequence, in store order.
pub fn users_list(store: &Store, ren: &Renderer) -> (r: Result<HtmlResponse, RenderError>)
    ensures
        r is Ok <==> spec_find(ren@, "table.html"@) is Some,
        r is Ok ==> r->Ok_0.status == 200u16 && r->Ok_0.body@ == spec_render(
            spec_find(ren@, "table.html"@)->Some_0,
            users_page(),
            store@.rows,
        ),
        r is Err ==> r->Err_0 == RenderError::MissingTemplate,
{
    let all = store.list_users();
    let page = Page {
        title: String::from_str("List of users"),
        content: String::from_str("a place to see all users"),
        message: None,
    };
    proof {
        assert(page@ =~= users_page());
    }
    match ren.render("table.html", &page, all) {
        Ok(b) => Ok(HtmlResponse { status: 200, body: b }),
        Err(e) => Err(e),
    }
}

/// Serves a signup: parses the form body, inserts the user, and renders
/// the home template with the confirmation message. A body that does not
/// parse changes nothing and is answered with status 400; a store or
/// render failure is answered with status 500.
pub fn subscribe(store: &mut Store, ren: &Renderer, body: &str) -> (r: HtmlResponse)
    requires
        old(store).wf(),
    ensures
        final(store).wf(),
        spec_parse_form(body@) is Err ==> *final(store) == *old(store) && r.status == 400u16,
        spec_parse_form(body@) is Ok && old(store)@.next_id == i32::MAX ==> *final(store) == *old(
            store,
        ) && r.status == 500u16,
        spec_parse_form(body@) is Ok && old(store)@.next_id < i32::MAX ==> ({
            let parsed = spec_parse_form(body@)->Ok_0;
            let rows1 = final(store)@.rows;
            &&& rows1.len() == old(store)@.rows.len() + 1
            &&& rows1 == old(store)@.rows.push(rows1.last())
            &&& rows1.last().email == parsed.0
            &&& rows1.last().password == parsed.1
            &&& rows1.last().id == old(store)@.next_id
            &&& rows1.last().date_created.len() > 0
            &&& final(store)@.next_id == old(store)@.next_id + 1
            &&& (spec_find(ren@, "home.html"@) is Some ==> r.status == 200u16 && r.body@
                == spec_render(
                spec_find(ren@, "home.html"@)->Some_0,
                subscribe_page(success_message(rows1.last().email, rows1.last().id)),
                Seq::empty(),
            ))
            &&& (spec_find(ren@, "home.html"@) is None ==> r.status == 500u16)
        }),
{
    match parse_form(body) {
        Err(_) => HtmlResponse { status: 400, body: String::from_str("Bad Request") },
        Ok(input) => {
            match store.insert_user(input) {
                Err(_) => HtmlResponse {
                    status: 500,
                    body: String::from_str("Internal Server Error"),
                },
                Ok(u) => {
                    let mut msg = String::from_str("User with email ");
                    msg.append(u.email.as_str());
                    msg.append(" and id ");
                    let ids = i32_to_dec(u.id);
                    msg.append(ids.as_str());
                    msg.append(" inserted");
                    proof {
                        assert(msg@ =~= success_message(u@.email, u@.id));
                    }
                    let page = Page {
                        title: String::from_str("Some title"),
                        content: String::from_str("Lorum Ipsum"),
                        message: Some(msg),
                    };
                    let users: Vec<User> = Vec::new();
                    proof {
                        assert(page@ =~= subscribe_page(success_message(u@.email, u@.id)));
                        assert(users@.map_values(|x: User| x@) =~= Seq::<UserView>::empty());
                        assert(store@.rows.last() == u@);
                    }
                    match ren.render("home.html", &page, &users) {
                        Ok(b) => HtmlResponse { status: 200, body: b },
                        Err(_) => HtmlResponse {
                            status: 500,
                            body: String::from_str("Internal Server Error"),
                        },
                    }
                },
            }
        },
    }
}

} // verus!
