//! The storage layer: an in-memory table of user records with the semantics
//! the request handlers rely on — ids are handed out in creation order and
//! never reused, and a mail address identifies at most one record.

use vstd::prelude::*;

use crate::models::FormModel;
use crate::models::UniqueUser;
use crate::models::User;
use crate::models::UserModel;

verus! {

/// Why a storage action failed.
#[derive(Clone, Copy, PartialEq, Eq, Structural, Debug)]
pub enum StoreError {
    /// A record with the submitted mail address already exists.
    DuplicateMail,
    /// Every identifier has already been handed out.
    IdsExhausted,
    /// No record matches the given id or credentials.
    NotFound,
}

/// The views of the stored records, in storage order.
pub open spec fn views_of(users: Seq<User>) -> Seq<UserModel> {
    users.map_values(|u: User| u@)
}

/// The first record of `s`, scanning from the front, whose id is `id`.
pub open spec fn find_by_id(s: Seq<UserModel>, id: u64) -> Option<UserModel>
    decreases s.len(),
{
    if s.len() == 0 {
        None
    } else if s[0].id == id {
        Some(s[0])
    } else {
        find_by_id(s.drop_first(), id)
    }
}

/// The first record of `s` whose mail address is `mail`.
pub open spec fn find_by_mail(s: Seq<UserModel>, mail: Seq<char>) -> Option<UserModel>
    decreases s.len(),
{
    if s.len() == 0 {
        None
    } else if s[0].mail == mail {
        Some(s[0])
    } else {
        find_by_mail(s.drop_first(), mail)
    }
}

/// Whether a stored record matches the submitted credentials.
pub open spec fn credentials_match(u: UserModel, form: FormModel) -> bool {
    u.mail == form.mail && u.password == form.password
}

/// The first record of `s` whose stored credentials match the submitted ones.
pub open spec fn find_by_credentials(s: Seq<UserModel>, form: FormModel) -> Option<UserModel>
    decreases s.len(),
{
    if s.len() == 0 {
        None
    } else if credentials_match(s[0], form) {
        Some(s[0])
    } else {
        find_by_credentials(s.drop_first(), form)
    }
}

/// All ids in `s` are distinct.
pub open spec fn ids_unique(s: Seq<UserModel>) -> bool {
    forall|i: int, j: int| 0 <= i < j < s.len() ==> s[i].id != s[j].id
}

/// Every id in `s` lies below `bound`.
pub open spec fn ids_below(s: Seq<UserModel>, bound: u64) -> bool {
    forall|i: int| 0 <= i < s.len() ==> s[i].id < bound
}

pub proof fn lemma_find_by_id_at(s: Seq<UserModel>, id: u64, k: int)
    requires
        0 <= k < s.len(),
        s[k].id == id,
        forall|j: int| 0 <= j < k ==> s[j].id != id,
    ensures
        find_by_id(s, id) == Some(s[k]),
    decreases s.len(),
{
    if k > 0 {
        lemma_find_by_id_at(s.drop_first(), id, k - 1);
    }
}

pub proof fn lemma_find_by_id_none(s: Seq<UserModel>, id: u64)
    requires
        forall|j: int| 0 <= j < s.len() ==> s[j].id != id,
    ensures
        find_by_id(s, id) is None,
    decreases s.len(),
{
    if s.len() > 0 {
        lemma_find_by_id_none(s.drop_first(), id);
    }
}

pub proof fn lemma_find_by_mail_at(s: Seq<UserModel>, mail: Seq<char>, k: int)
    requires
        0 <= k < s.len(),
        s[k].mail == mail,
        forall|j: int| 0 <= j < k ==> s[j].mail != mail,
    ensures
        find_by_mail(s, mail) == Some(s[k]),
    decreases s.len(),
{
    if k > 0 {
        lemma_find_by_mail_at(s.drop_first(), mail, k - 1);
    }
}

pub proof fn lemma_find_by_mail_none(s: Seq<UserModel>, mail: Seq<char>)
    requires
        forall|j: int| 0 <= j < s.len() ==> s[j].mail != mail,
    ensures
        find_by_mail(s, mail) is None,
    decreases s.len(),
{
    if s.len() > 0 {
        lemma_find_by_mail_none(s.drop_first(), mail);
    }
}

pub proof fn lemma_find_by_credentials_at(s: Seq<UserModel>, form: FormModel, k: int)
    requires
        0 <= k < s.len(),
        credentials_match(s[k], form),
        forall|j: int| 0 <= j < k ==> !credentials_match(s[j], form),
    ensures
        find_by_credentials(s, form) == Some(s[k]),
    decreases s.len(),
{
    if k > 0 {
        lemma_find_by_credentials_at(s.drop_first(), form, k - 1);
    }
}

pub proof fn lemma_find_by_credentials_none(s: Seq<UserModel>, form: FormModel)
    requires
        forall|j: int| 0 <= j < s.len() ==> !credentials_match(s[j], form),
    ensures
        find_by_credentials(s, form) is None,
    decreases s.len(),
{
    if s.len() > 0 {
        lemma_find_by_credentials_none(s.drop_first(), form);
    }
}

/// Law: creating a user with a fresh mail address and then fetching by the id
/// it was assigned returns an equal record.
pub proof fn lemma_create_then_fetch(s: Seq<UserModel>, bound: u64, form: FormModel)
    requires
        ids_unique(s),
        ids_below(s, bound),
        find_by_mail(s, form.mail) is None,
    ensures
        ({
            let u = UserModel { id: bound, mail: form.mail, password: form.password };
            find_by_id(s.push(u), bound) == Some(u)
        }),
{
    let u = UserModel { id: bound, mail: form.mail, password: form.password };
    lemma_find_by_id_at(s.push(u), bound, s.len() as int);
}

/// Law: deleting a user makes a subsequent fetch by that id fail.
pub proof fn lemma_delete_then_fetch(s: Seq<UserModel>, k: int, id: u64)
    requires
        ids_unique(s),
        0 <= k < s.len(),
        s[k].id == id,
    ensures
        find_by_id(s.remove(k), id) is None,
{
    let r = s.remove(k);
    assert forall|j: int| 0 <= j < r.len() implies r[j].id != id by {
        if j < k {
            assert(r[j] == s[j]);
        } else {
            assert(r[j] == s[j + 1]);
        }
    }
    lemma_find_by_id_none(r, id);
}

/// Index of the first stored record with the given id.
fn position_by_id(users: &Vec<User>, id: u64) -> (r: Option<usize>)
    ensures
        match r {
            Some(k) => {
                &&& k < users.len()
                &&& users@[k as int]@.id == id
                &&& find_by_id(views_of(users@), id) == Some(users@[k as int]@)
            },
            None => find_by_id(views_of(users@), id) is None,
        },
{
    let n = users.len();
    let mut i: usize = 0;
    while i < n
        invariant
            n == users.len(),
            i <= n,
            forall|j: int| 0 <= j < i ==> users@[j]@.id != id,
        decreases n - i,
    {
        if users[i].id == id {
            proof {
                lemma_find_by_id_at(views_of(users@), id, i as int);
            }
            return Some(i);
        }
        i += 1;
    }
    proof {
        lemma_find_by_id_none(views_of(users@), id);
    }
    None
}

/// Index of the first stored record with the given mail address.
fn position_by_mail(users: &Vec<User>, mail: &String) -> (r: Option<usize>)
    ensures
        match r {
            Some(k) => {
                &&& k < users.len()
                &&& users@[k as int]@.mail == mail@
                &&& find_by_mail(views_of(users@), mail@) == Some(users@[k as int]@)
            },
            None => find_by_mail(views_of(users@), mail@) is None,
        },
{
    let n = users.len();
    let mut i: usize = 0;
    while i < n
        invariant
            n == users.len(),
            i <= n,
            forall|j: int| 0 <= j < i ==> users@[j]@.mail != mail@,
        decreases n - i,
    {
        if users[i].mail == *mail {
            proof {
                lemma_find_by_mail_at(views_of(users@), mail@, i as int);
            }
            return Some(i);
        }
        i += 1;
    }
    proof {
        lemma_find_by_mail_none(views_of(users@), mail@);
    }
    None
}

/// Index of the first stored record matching the submitted credentials.
fn position_by_credentials(users: &Vec<User>, form: &UniqueUser) -> (r: Option<usize>)
    ensures
        match r {
            Some(k) => {
                &&& k < users.len()
                &&& credentials_match(users@[k as int]@, form@)
                &&& find_by_credentials(views_of(users@), form@) == Some(users@[k as int]@)
            },
            None => find_by_credentials(views_of(users@), form@) is None,
        },
{
    let n = users.len();
    let mut i: usize = 0;
    while i < n
        invariant
            n == users.len(),
            i <= n,
            forall|j: int| 0 <= j < i ==> !credentials_match(users@[j]@, form@),
        decreases n - i,
    {
        if users[i].mail == form.mail && users[i].password == form.password {
            proof {
                lemma_find_by_credentials_at(views_of(users@), form@, i as int);
            }
            return Some(i);
        }
        i += 1;
    }
    proof {
        lemma_find_by_credentials_none(views_of(users@), form@);
    }
    None
}

/// The in-memory storage layer for user records.
pub struct UserStore {
    users: Vec<User>,
    next_id: u64,
}

impl View for UserStore {
    type V = Seq<UserModel>;

    closed spec fn view(&self) -> Seq<UserModel> {
        views_of(self.users@)
    }
}

impl UserStore {
    /// Upper bound on every id handed out so far; the id the next created
    /// record will get.
    pub closed spec fn id_bound(&self) -> u64 {
        self.next_id
    }

    /// Well-formedness: ids are distinct and lie below the next id to hand
    /// out, so a created record can never collide with a stored one.
    pub open spec fn wf(&self) -> bool {
        ids_unique(self@) && ids_below(self@, self.id_bound())
    }

    /// An empty store.
    pub fn new() -> (r: Self)
        ensures
            r@ == Seq::<UserModel>::empty(),
            r.wf(),
            r.id_bound() == 0,
    {
        let r = UserStore { users: Vec::new(), next_id: 0 };
        proof {
            assert(r@ =~= Seq::<UserModel>::empty());
        }
        r
    }

    /// Fetch the record with the given id.
    pub fn get_user(&self, id: u64) -> (r: Result<User, StoreError>)
        ensures
            match r {
                Ok(u) => find_by_id(self@, id) == Some(u@),
                Err(e) => e == StoreError::NotFound && find_by_id(self@, id) is None,
            },
    {
        match position_by_id(&self.users, id) {
            Some(k) => Ok(self.users[k].clone()),
            None => Err(StoreError::NotFound),
        }
    }

    /// Create a record for the submitted form, assigning the next fresh id.
    /// Fails exactly when the mail address is already taken, or — only then —
    /// when every id has been handed out.
    pub fn add_user(&mut self, form: &UniqueUser) -> (r: Result<User, StoreError>)
        requires
            old(self).wf(),
        ensures
            final(self).wf(),
            match r {
                Ok(u) => {
                    &&& find_by_mail(old(self)@, form@.mail) is None
                    &&& old(self).id_bound() < u64::MAX
                    &&& u@ == (UserModel {
                        id: old(self).id_bound(),
                        mail: form@.mail,
                        password: form@.password,
                    })
                    &&& final(self)@ == old(self)@.push(u@)
                    &&& final(self).id_bound() == old(self).id_bound() + 1
                },
                Err(e) => {
                    &&& final(self)@ == old(self)@
                    &&& final(self).id_bound() == old(self).id_bound()
                    &&& ((find_by_mail(old(self)@, form@.mail) is Some && e
                        == StoreError::DuplicateMail) || (find_by_mail(old(self)@, form@.mail)
                        is None && old(self).id_bound() == u64::MAX && e
                        == StoreError::IdsExhausted))
                },
            },
    {
        if position_by_mail(&self.users, &form.mail).is_some() {
            return Err(StoreError::DuplicateMail);
        }
        if self.next_id == u64::MAX {
            return Err(StoreError::IdsExhausted);
        }
        let created = User {
            id: self.next_id,
            mail: form.mail.clone(),
            password: form.password.clone(),
        };
        let stored = created.clone();
        self.users.push(stored);
        self.next_id = self.next_id + 1;
        proof {
            assert(self@ =~= old(self)@.push(created@));
        }
        Ok(created)
    }

    /// Delete the record with the given id and hand it back.
    pub fn delete_user(&mut self, id: u64) -> (r: Result<User, StoreError>)
        requires
            old(self).wf(),
        ensures
            final(self).wf(),
            final(self).id_bound() == old(self).id_bound(),
            match r {
                Ok(u) => {
                    &&& find_by_id(old(self)@, id) == Some(u@)
                    &&& exists|k: int|
                        0 <= k < old(self)@.len() && old(self)@[k].id == id && final(self)@
                            == old(self)@.remove(k)
                },
                Err(e) => {
                    &&& e == StoreError::NotFound
                    &&& find_by_id(old(self)@, id) is None
                    &&& final(self)@ == old(self)@
                },
            },
    {
        match position_by_id(&self.users, id) {
            Some(k) => {
                let u = self.users.remove(k);
                proof {
                    let ghost s = old(self)@;
                    assert(self@ =~= s.remove(k as int));
                    assert forall|i: int, j: int|
                        0 <= i < j < self@.len() implies self@[i].id != self@[j].id by {
                        let ki = if i < k { i } else { i + 1 };
                        let kj = if j < k { j } else { j + 1 };
                        assert(self@[i] == s[ki]);
                        assert(self@[j] == s[kj]);
                    }
                    assert forall|i: int| 0 <= i < self@.len() implies self@[i].id
                        < self.id_bound() by {
                        let ki = if i < k { i } else { i + 1 };
                        assert(self@[i] == s[ki]);
                    }
                }
                Ok(u)
            },
            None => Err(StoreError::NotFound),
        }
    }

    /// Fetch the record whose stored credentials match the submitted ones.
    pub fn credentials_get_user(&self, form: &UniqueUser) -> (r: Result<User, StoreError>)
        ensures
            match r {
                Ok(u) => find_by_credentials(self@, form@) == Some(u@),
                Err(e) => e == StoreError::NotFound && find_by_credentials(self@, form@) is None,
            },
    {
        match position_by_credentials(&self.users, form) {
            Some(k) => Ok(self.users[k].clone()),
            None => Err(StoreError::NotFound),
        }
    }
}

} // verus!
