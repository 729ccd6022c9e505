use vstd::prelude::*;

verus! {

/// A persisted user row: identifier, credentials and the creation timestamp,
/// set once at insertion and immutable thereafter.
#[derive(Debug)]
pub struct User {
    pub id: i32,
    pub email: String,
    pub password: String,
    pub date_created: String,
}

/// The abstract value of a [`User`] row.
#[verifier::ext_equal]
pub struct UserView {
    pub id: int,
    pub email: Seq<char>,
    pub password: Seq<char>,
    pub date_created: Seq<char>,
}

impl View for User {
    type V = UserView;

    open spec fn view(&self) -> UserView {
        UserView {
            id: self.id as int,
            email: self.email@,
            password: self.password@,
            date_created: self.date_created@,
        }
    }
}

impl User {
    /// A row equal to this one, field by field.
    pub fn duplicate(&self) -> (r: User)
        ensures
            r@ == self@,
    {
        User {
            id: self.id,
            email: self.email.clone(),
            password: self.password.clone(),
            date_created: self.date_created.clone(),
        }
    }
}

/// A row about to be inserted: the credentials together with the freshly
/// generated creation timestamp.
#[derive(Debug)]
pub struct UserNew {
    pub email: String,
    pub password: String,
    pub date_created: String,
}

/// A signup submission as parsed from the form body: credentials only.
#[derive(Debug)]
pub struct UserJson {
    pub email: String,
    pub password: String,
}

/// The values substituted into a template: a title, a content line, and an
/// optional status message shown after a successful signup.
pub struct Page {
    pub title: String,
    pub content: String,
    pub message: Option<String>,
}

/// The abstract value of a [`Page`].
#[verifier::ext_equal]
pub struct PageView {
    pub title: Seq<char>,
    pub content: Seq<char>,
    pub message: Option<Seq<char>>,
}

impl View for Page {
    type V = PageView;

    open spec fn view(&self) -> PageView {
        PageView {
            title: self.title@,
            content: self.content@,
            message: match self.message {
                Some(m) => Some(m@),
                None => None,
            },
        }
    }
}

} // verus!
