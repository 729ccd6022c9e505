use vstd::prelude::*;
use crate::render::{Template, TemplateView, Renderer};

verus! {

/// The page shell.
pub open spec fn layout_tv() -> TemplateView {
    TemplateView {
        name: "layout.html"@,
        head: "<html><head><title>"@,
        mid1: "</title></head><body><p>"@,
        mid2: "</p><p>"@,
        mid3: ""@,
        tail: "</p></body></html>"@,
        lists_users: false,
    }
}

/// The home page.
pub open spec fn home_tv() -> TemplateView {
    TemplateView {
        name: "home.html"@,
        head: "<html><body><h1>"@,
        mid1: "</h1><p>"@,
        mid2: "</p><p>"@,
        mid3: ""@,
        tail: "</p></body></html>"@,
        lists_users: false,
    }
}

/// The static informational page.
pub open spec fn next_tv() -> TemplateView {
    TemplateView {
        name: "next.html"@,
        head: "<html><body><h2>"@,
        mid1: "</h2><p>"@,
        mid2: "</p><p>"@,
        mid3: ""@,
        tail: "</p></body></html>"@,
        lists_users: false,
    }
}

/// The listing page, with one table row per user.
pub open spec fn table_tv() -> TemplateView {
    TemplateView {
        name: "table.html"@,
        head: "<html><body><h1>"@,
        mid1: "</h1><p>"@,
        mid2: "</p><p>"@,
        mid3: "</p><table>"@,
        tail: "</table></body></html>"@,
        lists_users: true,
    }
}

/// The four templates held by the default renderer, in order.
pub open spec fn spec_default_templates() -> Seq<TemplateView> {
    seq![layout_tv(), home_tv(), next_tv(), table_tv()]
}

fn mk_template(
    name: &str,
    head: &str,
    mid1: &str,
    mid2: &str,
    mid3: &str,
    tail: &str,
    lists_users: bool,
) -> (r: Template)
    ensures
        r@.name == name@,
        r@.head == head@,
        r@.mid1 == mid1@,
        r@.mid2 == mid2@,
        r@.mid3 == mid3@,
        r@.tail == tail@,
        r@.lists_users == lists_users,
{
    Template {
        name: String::from_str(name),
        head: String::from_str(head),
        mid1: String::from_str(mid1),
        mid2: String::from_str(mid2),
        mid3: String::from_str(mid3),
        tail: String::from_str(tail),
        lists_users,
    }
}

/// The renderer holding the four fixed templates, built once at startup and
/// passed to the handlers.
pub fn default_templates() -> (r: Renderer)
    ensures
        r@ == spec_default_templates(),
{
    let mut ts: Vec<Template> = Vec::new();
    ts.push(
        mk_template(
            "layout.html",
            "<html><head><title>",
            "</title></head><body><p>",
            "</p><p>",
            "",
            "</p></body></html>",
            false,
        ),
    );
    ts.push(
        mk_template(
            "home.html",
            "<html><body><h1>",
            "</h1><p>",
            "</p><p>",
            "",
            "</p></body></html>",
            false,
        ),
    );
    ts.push(
        mk_template(
            "next.html",
            "<html><body><h2>",
            "</h2><p>",
            "</p><p>",
            "",
            "</p></body></html>",
            false,
        ),
    );
    ts.push(
        mk_template(
            "table.html",
            "<html><body><h1>",
            "</h1><p>",
            "</p><p>",
            "</p><table>",
            "</table></body></html>",
            true,
        ),
    );
    let r = Renderer { templates: ts };
    proof {
        assert(r@.len() == 4);
        assert(r@[0] =~= layout_tv());
        assert(r@[1] =~= home_tv());
        assert(r@[2] =~= next_tv());
        assert(r@[3] =~= table_tv());
        assert(r@ =~= spec_default_templates());
    }
    r
}

} // verus!
