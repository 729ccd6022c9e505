use vstd::prelude::*;
use crate::model::{User, UserView, Page, PageView};
use crate::errors::RenderError;
use crate::numfmt::{dec_str_int, i32_to_dec};
use crate::strutil::str_eq;

verus! {

/// One named template: the literal HTML written around the title, content,
/// message and user-rows slots, in that order. A template that does not
/// list users leaves the rows slot empty.
pub struct Template {
    pub name: String,
    pub head: String,
    pub mid1: String,
    pub mid2: String,
    pub mid3: String,
    pub tail: String,
    pub lists_users: bool,
}

/// The abstract value of a [`Template`].
#[verifier::ext_equal]
pub struct TemplateView {
    pub name: Seq<char>,
    pub head: Seq<char>,
    pub mid1: Seq<char>,
    pub mid2: Seq<char>,
    pub mid3: Seq<char>,
    pub tail: Seq<char>,
    pub lists_users: bool,
}

impl View for Template {
    type V = TemplateView;

    open spec fn view(&self) -> TemplateView {
        TemplateView {
            name: self.name@,
            head: self.head@,
            mid1: self.mid1@,
            mid2: self.mid2@,
            mid3: self.mid3@,
            tail: self.tail@,
            lists_users: self.lists_users,
        }
    }
}

/// The message slot: the message when one is present, empty otherwise.
pub open spec fn spec_message(m: Option<Seq<char>>) -> Seq<char> {
    match m {
        Some(s) => s,
        None => Seq::empty(),
    }
}

/// One rendered table row of the listing.
pub open spec fn spec_user_row(u: UserView) -> Seq<char> {
    "<tr><td>"@ + dec_str_int(u.id) + "</td><td>"@ + u.email + "</td><td>"@ + u.password
        + "</td><td>"@ + u.date_created + "</td></tr>"@
}

/// The rendered rows of a listing, in order.
pub open spec fn spec_user_rows(us: Seq<UserView>) -> Seq<char>
    decreases us.len(),
{
    if us.len() == 0 {
        Seq::empty()
    } else {
        spec_user_row(us[0]) + spec_user_rows(us.skip(1))
    }
}

/// The rendering of one template against a page and a listing.
pub open spec fn spec_render(t: TemplateView, p: PageView, us: Seq<UserView>) -> Seq<char> {
    t.head + p.title + t.mid1 + p.content + t.mid2 + spec_message(p.message) + t.mid3 + (
    if t.lists_users {
        spec_user_rows(us)
    } else {
        Seq::<char>::empty()
    }) + t.tail
}

/// The first held template of a given name.
pub open spec fn spec_find(ts: Seq<TemplateView>, name: Seq<char>) -> Option<TemplateView>
    decreases ts.len(),
{
    if ts.len() == 0 {
        None
    } else if ts[0].name == name {
        Some(ts[0])
    } else {
        spec_find(ts.skip(1), name)
    }
}

/// Rendering a listing row by row appends one row at a time.
pub proof fn lemma_rows_snoc(us: Seq<UserView>)
    requires
        us.len() > 0,
    ensures
        spec_user_rows(us) == spec_user_rows(us.drop_last()) + spec_user_row(us.last()),
    decreases us.len(),
{
    if us.len() == 1 {
        assert(us.skip(1) =~= Seq::<UserView>::empty());
        assert(us.drop_last() =~= Seq::<UserView>::empty());
        assert(spec_user_rows(us) =~= spec_user_rows(us.drop_last()) + spec_user_row(us.last()));
    } else {
        lemma_rows_snoc(us.skip(1));
        assert(us.skip(1).drop_last() =~= us.drop_last().skip(1));
        assert(us.drop_last()[0] == us[0]);
        assert(us.skip(1).last() == us.last());
        assert(spec_user_rows(us) =~= spec_user_rows(us.drop_last()) + spec_user_row(us.last()));
    }
}

/// Appends the rendered row of one user.
fn append_user_row(out: &mut String, u: &User)
    ensures
        final(out)@ == old(out)@ + spec_user_row(u@),
{
    out.append("<tr><td>");
    let ids = i32_to_dec(u.id);
    out.append(ids.as_str());
    out.append("</td><td>");
    out.append(u.email.as_str());
    out.append("</td><td>");
    out.append(u.password.as_str());
    out.append("</td><td>");
    out.append(u.date_created.as_str());
    out.append("</td></tr>");
    proof {
        assert(out@ =~= old(out)@ + spec_user_row(u@));
    }
}

/// Renders one template, per [`spec_render`].
fn render_template(t: &Template, page: &Page, users: &Vec<User>) -> (r: String)
    ensures
        r@ == spec_render(t@, page@, users@.map_values(|u: User| u@)),
{
    let ghost mapped = users@.map_values(|u: User| u@);
    let mut out = String::new();
    out.append(t.head.as_str());
    out.append(page.title.as_str());
    out.append(t.mid1.as_str());
    out.append(page.content.as_str());
    out.append(t.mid2.as_str());
    match &page.message {
        Some(m) => out.append(m.as_str()),
        None => {},
    }
    out.append(t.mid3.as_str());
    if t.lists_users {
        let ghost base = out@;
        proof {
            assert(mapped.take(0) =~= Seq::<UserView>::empty());
            assert(base + spec_user_rows(mapped.take(0)) =~= base);
        }
        let n = users.len();
        let mut j: usize = 0;
        while j < n
            invariant
                j <= n,
                n == users@.len(),
                mapped == users@.map_values(|u: User| u@),
                out@ == base + spec_user_rows(mapped.take(j as int)),
            decreases n - j,
        {
            proof {
                lemma_rows_snoc(mapped.take(j as int + 1));
                assert(mapped.take(j as int + 1).drop_last() =~= mapped.take(j as int));
                assert(mapped.take(j as int + 1).last() == mapped[j as int]);
                assert(mapped[j as int] == users@[j as int]@);
            }
            append_user_row(&mut out, &users[j]);
            proof {
                assert(out@ =~= base + spec_user_rows(mapped.take(j as int + 1)));
            }
            j = j + 1;
        }
        proof {
            assert(mapped.take(n as int) =~= mapped);
        }
    }
    out.append(t.tail.as_str());
    proof {
        assert(out@ =~= spec_render(t@, page@, mapped));
    }
    out
}

/// The held set of templates, fixed at construction and never mutated.
pub struct Renderer {
    pub templates: Vec<Template>,
}

impl View for Renderer {
    type V = Seq<TemplateView>;

    open spec fn view(&self) -> Seq<TemplateView> {
        self.templates@.map_values(|t: Template| t@)
    }
}

impl Renderer {
    /// Renders the named template against the page and the listing, or
    /// fails exactly when no template of that name is held.
    pub fn render(&self, name: &str, page: &Page, users: &Vec<User>) -> (r: Result<
        String,
        RenderError,
    >)
        ensures
            r is Ok <==> spec_find(self@, name@) is Some,
            r is Ok ==> r->Ok_0@ == spec_render(
                spec_find(self@, name@)->Some_0,
                page@,
                users@.map_values(|u: User| u@),
            ),
            r is Err ==> r->Err_0 == RenderError::MissingTemplate,
    {
        let n = self.templates.len();
        let mut idx: usize = 0;
        proof {
            assert(self@.skip(0) =~= self@);
        }
        while idx < n
            invariant
                idx <= n,
                n == self.templates@.len(),
                spec_find(self@, name@) == spec_find(self@.skip(idx as int), name@),
            decreases n - idx,
        {
            proof {
                assert(self@.skip(idx as int)[0] == self@[idx as int]);
                assert(self@[idx as int] == self.templates@[idx as int]@);
            }
            let t = &self.templates[idx];
            if str_eq(t.name.as_str(), name) {
                let body = render_template(t, page, users);
                return Ok(body);
            }
            proof {
                assert(self@.skip(idx as int).skip(1) =~= self@.skip(idx as int + 1));
            }
            idx = idx + 1;
        }
        proof {
            assert(self@.skip(n as int) =~= Seq::<TemplateView>::empty());
        }
        Err(RenderError::MissingTemplate)
    }
}

} // verus!
