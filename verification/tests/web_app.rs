use simple_web_app_rust::errors::{ParseError, RenderError, StoreError};
use simple_web_app_rust::form::parse_form;
use simple_web_app_rust::handlers::{next, root, subscribe, users_list};
use simple_web_app_rust::model::{Page, UserJson};
use simple_web_app_rust::numfmt::{i32_to_dec, u32_to_dec};
use simple_web_app_rust::render::Renderer;
use simple_web_app_rust::store::Store;
use simple_web_app_rust::templates::default_templates;

#[test]
fn insert_then_list_contains_row() {
    let mut store = Store::new();
    let input = UserJson {
        email: String::from("a@b.com"),
        password: String::from("pw"),
    };
    let inserted = store.insert_user(input).unwrap();
    assert_eq!(inserted.email, "a@b.com");
    assert_eq!(inserted.password, "pw");
    assert_eq!(inserted.id, 1);
    assert!(!inserted.date_created.is_empty());
    let rows = store.list_users();
    let matching: Vec<_> = rows
        .iter()
        .filter(|u| u.email == "a@b.com" && u.password == "pw")
        .collect();
    assert_eq!(matching.len(), 1);
    assert!(!matching[0].date_created.is_empty());
}

#[test]
fn insert_n_users_distinct_ids() {
    let mut store = Store::new();
    for k in 0..5 {
        let input = UserJson {
            email: format!("user{}@example.com", k),
            password: String::from("pw"),
        };
        store.insert_user(input).unwrap();
    }
    let rows = store.list_users();
    assert_eq!(rows.len(), 5);
    for i in 0..rows.len() {
        for j in 0..rows.len() {
            if i != j {
                assert_ne!(rows[i].id, rows[j].id);
            }
        }
    }
    assert_eq!(
        rows.iter().map(|u| u.id).collect::<Vec<_>>(),
        vec![1, 2, 3, 4, 5]
    );
}

#[test]
fn root_and_next_distinct_titles() {
    let ren = default_templates();
    let home = root(&ren).unwrap();
    let other = next(&ren).unwrap();
    assert_eq!(home.status, 200);
    assert_eq!(other.status, 200);
    assert!(home.body.contains("Some title"));
    assert!(other.body.contains("Subscribe page"));
    assert!(!home.body.contains("Subscribe page"));
    assert!(!other.body.contains("Some title"));
    assert!(!home.body.contains("inserted"));
    assert!(!other.body.contains("inserted"));
}

#[test]
fn root_exact_body() {
    let ren = default_templates();
    let home = root(&ren).unwrap();
    assert_eq!(
        home.body,
        "<html><body><h1>Some title</h1><p>Lorum Ipsum</p><p></p></body></html>"
    );
}

#[test]
fn subscribe_success_message() {
    let ren = default_templates();
    let mut store = Store::new();
    let resp = subscribe(&mut store, &ren, "email=a@b.com&password=x");
    assert_eq!(resp.status, 200);
    assert!(resp.body.contains("User with email a@b.com and id "));
    assert_eq!(
        resp.body,
        "<html><body><h1>Some title</h1><p>Lorum Ipsum</p>\
         <p>User with email a@b.com and id 1 inserted</p></body></html>"
    );
    assert_eq!(store.list_users().len(), 1);
}

#[test]
fn users_list_empty_listing() {
    let ren = default_templates();
    let store = Store::new();
    let resp = users_list(&store, &ren).unwrap();
    assert_eq!(resp.status, 200);
    assert!(resp.body.contains("<table></table>"));
    assert!(!resp.body.contains("<tr>"));
    assert!(resp.body.contains("List of users"));
}

#[test]
fn users_list_shows_rows() {
    let ren = default_templates();
    let mut store = Store::new();
    let input = UserJson {
        email: String::from("a@b.com"),
        password: String::from("x"),
    };
    store.insert_user(input).unwrap();
    let resp = users_list(&store, &ren).unwrap();
    assert_eq!(resp.status, 200);
    assert!(resp
        .body
        .contains("<tr><td>1</td><td>a@b.com</td><td>x</td><td>"));
    assert!(resp.body.contains("</td></tr>"));
}

#[test]
fn malformed_form_inserts_nothing() {
    let ren = default_templates();
    let mut store = Store::new();
    for body in [
        "",
        "email",
        "email=a@b.com",
        "password=x",
        "email=a@b.com&password=x&email=b@c.com",
        "email=%zz&password=x",
        "nonsense",
    ] {
        let resp = subscribe(&mut store, &ren, body);
        assert_eq!(resp.status, 400, "body {:?} must be rejected", body);
        assert_eq!(store.list_users().len(), 0);
    }
}

#[test]
fn parse_form_decodes_plus_and_percent() {
    let parsed = parse_form("email=a+b%21&password=x%41").unwrap();
    assert_eq!(parsed.email, "a b!");
    assert_eq!(parsed.password, "xA");
}

#[test]
fn parse_form_field_order_free() {
    let parsed = parse_form("password=pw&email=e@f.org&extra=1").unwrap();
    assert_eq!(parsed.email, "e@f.org");
    assert_eq!(parsed.password, "pw");
}

#[test]
fn parse_form_duplicate_field() {
    let err = parse_form("email=a&email=b&password=c").unwrap_err();
    assert_eq!(err, ParseError::DuplicateField);
    let err = parse_form("password=a&password=b&email=c").unwrap_err();
    assert_eq!(err, ParseError::DuplicateField);
}

#[test]
fn parse_form_missing_field() {
    let err = parse_form("email=a").unwrap_err();
    assert_eq!(err, ParseError::MissingField);
    let err = parse_form("other=1&another=2").unwrap_err();
    assert_eq!(err, ParseError::MissingField);
}

#[test]
fn parse_form_bad_escape() {
    assert_eq!(parse_form("email=%zz&password=x").unwrap_err(), ParseError::BadEscape);
    assert_eq!(parse_form("email=%4&password=x").unwrap_err(), ParseError::BadEscape);
    assert_eq!(parse_form("email=%ff&password=x").unwrap_err(), ParseError::BadEscape);
}

#[test]
fn parse_form_malformed_pair() {
    assert_eq!(parse_form("email").unwrap_err(), ParseError::MalformedPair);
    assert_eq!(parse_form("").unwrap_err(), ParseError::MalformedPair);
}

#[test]
fn decimal_rendering_exact() {
    assert_eq!(u32_to_dec(0), "0");
    assert_eq!(u32_to_dec(7), "7");
    assert_eq!(u32_to_dec(12345), "12345");
    assert_eq!(u32_to_dec(4294967295), "4294967295");
    assert_eq!(i32_to_dec(-7), "-7");
    assert_eq!(i32_to_dec(-2147483648), "-2147483648");
    assert_eq!(i32_to_dec(2147483647), "2147483647");
}

#[test]
fn insert_fails_when_ids_exhausted() {
    let mut store = Store {
        rows: Vec::new(),
        next_id: i32::MAX,
    };
    let input = UserJson {
        email: String::from("a@b.com"),
        password: String::from("x"),
    };
    let err = store.insert_user(input).unwrap_err();
    assert_eq!(err, StoreError::QueryError);
    assert_eq!(store.list_users().len(), 0);
    assert_eq!(store.next_id, i32::MAX);
}

#[test]
fn missing_template_is_an_error() {
    let ren = Renderer {
        templates: Vec::new(),
    };
    let err = root(&ren).unwrap_err();
    assert_eq!(err, RenderError::MissingTemplate);
    let err = next(&ren).unwrap_err();
    assert_eq!(err, RenderError::MissingTemplate);
    let store = Store::new();
    let err = users_list(&store, &ren).unwrap_err();
    assert_eq!(err, RenderError::MissingTemplate);
}

#[test]
fn render_substitutes_the_page() {
    let ren = default_templates();
    let page = Page {
        title: String::from("T"),
        content: String::from("C"),
        message: Some(String::from("M")),
    };
    let html = ren.render("layout.html", &page, &Vec::new()).unwrap();
    assert_eq!(
        html,
        "<html><head><title>T</title></head><body><p>C</p><p>M</p></body></html>"
    );
}
