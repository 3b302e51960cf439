//! The users relation: rows with a unique email and a unique username.
//!
//! `StoreView` is the meaning of the account store that the registration
//! logic is proved against. `AccountStore` is an in-memory store with exactly
//! that meaning; a deployment puts a database with the same two unique
//! constraints in its place.

use crate::models::Field;
use crate::text::{decimal, decimal_string};
use vstd::prelude::*;
use vstd::string::*;

verus! {

/// Name of the unique constraint on the email column.
pub const EMAIL_CONSTRAINT: &'static str = "users_email_key";

/// Name of the unique constraint on the username column.
pub const USERNAME_CONSTRAINT: &'static str = "users_username_key";

/// The store's answer to one availability query.
#[derive(Clone, Copy, Debug, PartialEq, Eq, Structural)]
pub enum Lookup {
    /// A row holds the value.
    Taken,
    /// No row holds the value.
    Free,
    /// The store could not be queried.
    Unavailable,
}

/// The store's answer to one insert.
pub enum InsertReply {
    /// The row was written; the store assigned it this id.
    Created(String),
    /// A unique constraint turned the row down; its name, where the store
    /// reported one.
    UniqueViolation(Option<String>),
    /// Any other failure. No row was written.
    Failed,
}

pub enum InsertReplyView {
    Created(Seq<char>),
    UniqueViolation(Option<Seq<char>>),
    Failed,
}

impl View for InsertReply {
    type V = InsertReplyView;

    open spec fn view(&self) -> InsertReplyView {
        match self {
            InsertReply::Created(id) => InsertReplyView::Created(id@),
            InsertReply::UniqueViolation(Some(name)) => InsertReplyView::UniqueViolation(
                Some(name@),
            ),
            InsertReply::UniqueViolation(None) => InsertReplyView::UniqueViolation(None),
            InsertReply::Failed => InsertReplyView::Failed,
        }
    }
}

/// One row of the users relation.
pub struct Account {
    pub id: String,
    pub email: String,
    pub username: String,
    pub password_hash: String,
}

pub struct AccountView {
    pub id: Seq<char>,
    pub email: Seq<char>,
    pub username: Seq<char>,
    pub password_hash: Seq<char>,
}

impl View for Account {
    type V = AccountView;

    open spec fn view(&self) -> AccountView {
        AccountView {
            id: self.id@,
            email: self.email@,
            username: self.username@,
            password_hash: self.password_hash@,
        }
    }
}

impl AccountView {
    /// The value this row holds in the column of `field`.
    pub open spec fn value_of(self, field: Field) -> Seq<char> {
        match field {
            Field::Email => self.email,
            Field::Username => self.username,
        }
    }
}

/// The users relation as a mathematical value.
pub struct StoreView {
    /// The rows, oldest first.
    pub rows: Seq<AccountView>,
    /// Whether the store can be reached.
    pub online: bool,
}

impl StoreView {
    /// No two rows share an email, and no two rows share a username.
    pub open spec fn wf(self) -> bool {
        forall|i: int, j: int|
            #![trigger self.rows[i], self.rows[j]]
            0 <= i < self.rows.len() && 0 <= j < self.rows.len() && i != j ==> self.rows[i].email
                != self.rows[j].email && self.rows[i].username != self.rows[j].username
    }

    /// Some row holds `value` in the column of `field`.
    pub open spec fn holds(self, field: Field, value: Seq<char>) -> bool {
        exists|i: int|
            0 <= i < self.rows.len() && (#[trigger] self.rows[i]).value_of(field) == value
    }

    /// The answer to an availability query.
    pub open spec fn lookup(self, field: Field, value: Seq<char>) -> Lookup {
        if !self.online {
            Lookup::Unavailable
        } else if self.holds(field, value) {
            Lookup::Taken
        } else {
            Lookup::Free
        }
    }

    /// The id that the next row gets: its ordinal, in decimal.
    pub open spec fn next_id(self) -> Seq<char> {
        decimal(self.rows.len() + 1)
    }

    /// The answer to an insert. The unique constraints decide, whatever any
    /// earlier query said.
    pub open spec fn insert_reply(self, email: Seq<char>, username: Seq<char>) -> InsertReplyView {
        if !self.online {
            InsertReplyView::Failed
        } else if self.holds(Field::Email, email) {
            InsertReplyView::UniqueViolation(Some(EMAIL_CONSTRAINT@))
        } else if self.holds(Field::Username, username) {
            InsertReplyView::UniqueViolation(Some(USERNAME_CONSTRAINT@))
        } else {
            InsertReplyView::Created(self.next_id())
        }
    }

    /// The relation after an insert: one more row where the insert is
    /// answered with `Created`, unchanged otherwise.
    pub open spec fn after_insert(
        self,
        email: Seq<char>,
        username: Seq<char>,
        password_hash: Seq<char>,
    ) -> StoreView {
        if self.insert_reply(email, username) is Created {
            StoreView {
                rows: self.rows.push(
                    AccountView { id: self.next_id(), email, username, password_hash },
                ),
                online: self.online,
            }
        } else {
            self
        }
    }
}

/// An insert keeps the two unique constraints.
pub proof fn lemma_insert_keeps_wf(
    store: StoreView,
    email: Seq<char>,
    username: Seq<char>,
    password_hash: Seq<char>,
)
    requires
        store.wf(),
    ensures
        store.after_insert(email, username, password_hash).wf(),
{
    let after = store.after_insert(email, username, password_hash);
    if store.insert_reply(email, username) is Created {
        assert forall|i: int, j: int|
            #![trigger after.rows[i], after.rows[j]]
            0 <= i < after.rows.len() && 0 <= j < after.rows.len() && i != j implies after.rows[i].email
            != after.rows[j].email && after.rows[i].username != after.rows[j].username by {
            let n = store.rows.len() as int;
            if i < n && j < n {
                assert(after.rows[i] == store.rows[i]);
                assert(after.rows[j] == store.rows[j]);
            } else if i < n {
                assert(store.rows[i].value_of(Field::Email) == store.rows[i].email);
                assert(store.rows[i].value_of(Field::Username) == store.rows[i].username);
            } else {
                assert(store.rows[j].value_of(Field::Email) == store.rows[j].email);
                assert(store.rows[j].value_of(Field::Username) == store.rows[j].username);
            }
        }
    }
}

/// Rows are never lost: what the store held before an insert it holds after.
pub proof fn lemma_insert_keeps_rows(
    store: StoreView,
    email: Seq<char>,
    username: Seq<char>,
    password_hash: Seq<char>,
    field: Field,
    value: Seq<char>,
)
    requires
        store.holds(field, value),
    ensures
        store.after_insert(email, username, password_hash).holds(field, value),
{
    let after = store.after_insert(email, username, password_hash);
    let i = choose|i: int|
        0 <= i < store.rows.len() && (#[trigger] store.rows[i]).value_of(field) == value;
    assert(after.rows[i] == store.rows[i]);
}

/// An insert that is answered with `Created` leaves both values held.
pub proof fn lemma_created_row_is_held(
    store: StoreView,
    email: Seq<char>,
    username: Seq<char>,
    password_hash: Seq<char>,
)
    requires
        store.insert_reply(email, username) is Created,
    ensures
        store.after_insert(email, username, password_hash).holds(Field::Email, email),
        store.after_insert(email, username, password_hash).holds(Field::Username, username),
{
    let after = store.after_insert(email, username, password_hash);
    let n = store.rows.len() as int;
    assert(after.rows[n].value_of(Field::Email) == email);
    assert(after.rows[n].value_of(Field::Username) == username);
}

/// An in-memory users relation.
pub struct AccountStore {
    rows: Vec<Account>,
    online: bool,
}

impl View for AccountStore {
    type V = StoreView;

    closed spec fn view(&self) -> StoreView {
        StoreView { rows: self.rows@.map_values(|row: Account| row@), online: self.online }
    }
}

impl AccountStore {
    #[verifier::type_invariant]
    spec fn inv(self) -> bool {
        self@.wf()
    }

    /// An empty store that can be reached.
    pub fn new() -> (store: AccountStore)
        ensures
            store@.rows.len() == 0,
            store@.online,
            store@.wf(),
    {
        AccountStore { rows: Vec::new(), online: true }
    }

    /// Makes the store reachable or unreachable. The rows stay as they are.
    pub fn set_online(&mut self, online: bool)
        ensures
            final(self)@ == (StoreView { rows: old(self)@.rows, online }),
            final(self)@.wf(),
    {
        proof {
            use_type_invariant(&*self);
        }
        self.online = online;
    }

    pub fn is_online(&self) -> (online: bool)
        ensures
            online == self@.online,
            self@.wf(),
    {
        proof {
            use_type_invariant(self);
        }
        self.online
    }

    /// The number of rows.
    pub fn len(&self) -> (n: usize)
        ensures
            n == self@.rows.len(),
    {
        self.rows.len()
    }

    /// The row at position `index`, oldest first.
    pub fn row(&self, index: usize) -> (row: Option<&Account>)
        ensures
            index < self@.rows.len() ==> (row matches Some(r) && r@ == self@.rows[index as int]),
            index >= self@.rows.len() ==> row is None,
    {
        if index < self.rows.len() {
            Some(&self.rows[index])
        } else {
            None
        }
    }

    fn holds(&self, field: Field, value: &String) -> (found: bool)
        ensures
            found == self@.holds(field, value@),
    {
        let mut i: usize = 0;
        while i < self.rows.len()
            invariant
                i <= self.rows.len(),
                forall|k: int| 0 <= k < i ==> (#[trigger] self@.rows[k]).value_of(field) != value@,
            decreases self.rows.len() - i,
        {
            let row = &self.rows[i];
            assert(self@.rows[i as int] == row@);
            let same = match field {
                Field::Email => row.email == *value,
                Field::Username => row.username == *value,
            };
            if same {
                return true;
            }
            i += 1;
        }
        false
    }

    /// Answers an availability query.
    pub fn lookup(&self, field: Field, value: &str) -> (answer: Lookup)
        ensures
            answer == self@.lookup(field, value@),
            self@.wf(),
    {
        proof {
            use_type_invariant(self);
        }
        if !self.online {
            return Lookup::Unavailable;
        }
        let value = value.to_owned();
        if self.holds(field, &value) {
            Lookup::Taken
        } else {
            Lookup::Free
        }
    }

    /// Inserts a row unless the store is unreachable or a unique constraint
    /// forbids it.
    pub fn insert(&mut self, email: String, username: String, password_hash: String) -> (reply:
        InsertReply)
        ensures
            reply@ == old(self)@.insert_reply(email@, username@),
            final(self)@ == old(self)@.after_insert(email@, username@, password_hash@),
            old(self)@.wf(),
            final(self)@.wf(),
    {
        proof {
            use_type_invariant(&*self);
            lemma_insert_keeps_wf(self@, email@, username@, password_hash@);
        }
        if !self.online {
            return InsertReply::Failed;
        }
        if self.holds(Field::Email, &email) {
            return InsertReply::UniqueViolation(Some(EMAIL_CONSTRAINT.to_owned()));
        }
        if self.holds(Field::Username, &username) {
            return InsertReply::UniqueViolation(Some(USERNAME_CONSTRAINT.to_owned()));
        }
        let ordinal: u128 = self.rows.len() as u128 + 1;
        let id = decimal_string(ordinal);
        let reply = InsertReply::Created(id.clone());
        let ghost before = self@;
        let mut rows: Vec<Account> = Vec::new();
        core::mem::swap(&mut self.rows, &mut rows);
        rows.push(Account { id, email, username, password_hash });
        proof {
            assert(rows@.map_values(|row: Account| row@) =~= before.after_insert(
                email@,
                username@,
                password_hash@,
            ).rows);
        }
        core::mem::swap(&mut self.rows, &mut rows);
        reply
    }
}

} // verus!
