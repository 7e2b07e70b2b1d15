//! The data model: persisted user records and the submitted-form projection
//! used for registration and login.

use vstd::prelude::*;

verus! {

/// Mathematical view of a persisted user record.
pub struct UserModel {
    pub id: u64,
    pub mail: Seq<char>,
    pub password: Seq<char>,
}

/// Mathematical view of a submitted registration or login form.
pub struct FormModel {
    pub mail: Seq<char>,
    pub password: Seq<char>,
}

/// A persisted user record: the unit the store creates, returns and deletes.
#[derive(Debug)]
pub struct User {
    pub id: u64,
    pub mail: String,
    pub password: String,
}

impl View for User {
    type V = UserModel;

    open spec fn view(&self) -> UserModel {
        UserModel { id: self.id, mail: self.mail@, password: self.password@ }
    }
}

impl Clone for User {
    fn clone(&self) -> (r: Self)
        ensures
            r@ == self@,
    {
        User { id: self.id, mail: self.mail.clone(), password: self.password.clone() }
    }
}

/// The client-submitted subset of user fields, prior to becoming a persisted
/// record: the mail address doubles as the unique identifier.
pub struct UniqueUser {
    pub mail: String,
    pub password: String,
}

impl View for UniqueUser {
    type V = FormModel;

    open spec fn view(&self) -> FormModel {
        FormModel { mail: self.mail@, password: self.password@ }
    }
}

impl Clone for UniqueUser {
    fn clone(&self) -> (r: Self)
        ensures
            r@ == self@,
    {
        UniqueUser { mail: self.mail.clone(), password: self.password.clone() }
    }
}

} // verus!
