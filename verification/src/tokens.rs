//! The session token pair in the secure local key-value store.
//!
//! The store itself belongs to the host. The core decides which keys are
//! written, read and removed, in what order, and what a stored value means;
//! `SecureStore` is a store in memory with the meaning that those decisions
//! are proved against.

use crate::errors::STORAGE_FAILURE;
use crate::text_map::{Duplicate, TextMap};
use vstd::prelude::*;
use vstd::string::*;

verus! {

/// The file of the host's store that holds the tokens.
pub const STORE_FILE: &'static str = "livecode_secure.json";

/// The key of the access token.
pub const ACCESS_TOKEN_KEY: &'static str = "access_token";

/// The key of the refresh token.
pub const REFRESH_TOKEN_KEY: &'static str = "refresh_token";

/// What the core reads of a stored value: its text, where it is text.
pub enum StoredValue {
    Text(String),
    Other,
}

pub enum StoredValueView {
    Text(Seq<char>),
    Other,
}

impl View for StoredValue {
    type V = StoredValueView;

    open spec fn view(&self) -> StoredValueView {
        match self {
            StoredValue::Text(text) => StoredValueView::Text(text@),
            StoredValue::Other => StoredValueView::Other,
        }
    }
}

impl Duplicate for StoredValue {
    fn duplicate(&self) -> (copy: StoredValue) {
        match self {
            StoredValue::Text(text) => StoredValue::Text(text.clone()),
            StoredValue::Other => StoredValue::Other,
        }
    }
}

/// One operation on the store.
pub enum StoreOp {
    /// Put `value` under `key`.
    Put { key: String, value: StoredValue },
    /// Remove `key`.
    Delete { key: String },
    /// Write the store's contents to durable storage.
    Flush,
}

pub enum StoreOpView {
    Put { key: Seq<char>, value: StoredValueView },
    Delete { key: Seq<char> },
    Flush,
}

impl View for StoreOp {
    type V = StoreOpView;

    open spec fn view(&self) -> StoreOpView {
        match self {
            StoreOp::Put { key, value } => StoreOpView::Put { key: key@, value: value@ },
            StoreOp::Delete { key } => StoreOpView::Delete { key: key@ },
            StoreOp::Flush => StoreOpView::Flush,
        }
    }
}

/// The token that a stored value stands for: its text. A key that is absent
/// and a value that is not text both stand for no token.
pub open spec fn token_of(value: Option<StoredValueView>) -> Option<Seq<char>> {
    match value {
        Some(StoredValueView::Text(text)) => Some(text),
        _ => None,
    }
}

/// Reads a token from what the store has under its key.
pub fn read_token(value: Option<&StoredValue>) -> (token: Option<String>)
    ensures
        match token {
            Some(t) => token_of(
                match value {
                    Some(v) => Some(v@),
                    None => None,
                },
            ) == Some(t@),
            None => token_of(
                match value {
                    Some(v) => Some(v@),
                    None => None,
                },
            ) is None,
        },
{
    match value {
        Some(StoredValue::Text(text)) => Some(text.clone()),
        _ => None,
    }
}

/// The operations that save a token pair: both keys are set before the one
/// flush, so that a flush never writes one new token beside one old.
pub open spec fn save_plan_view(access_token: Seq<char>, refresh_token: Seq<char>) -> Seq<
    StoreOpView,
> {
    seq![
        StoreOpView::Put { key: ACCESS_TOKEN_KEY@, value: StoredValueView::Text(access_token) },
        StoreOpView::Put { key: REFRESH_TOKEN_KEY@, value: StoredValueView::Text(refresh_token) },
        StoreOpView::Flush,
    ]
}

/// The operations that erase the token pair: both keys are removed, then
/// the store is flushed.
pub open spec fn clear_plan_view() -> Seq<StoreOpView> {
    seq![
        StoreOpView::Delete { key: ACCESS_TOKEN_KEY@ },
        StoreOpView::Delete { key: REFRESH_TOKEN_KEY@ },
        StoreOpView::Flush,
    ]
}

/// The views of a list of operations.
pub open spec fn plan_view(plan: Seq<StoreOp>) -> Seq<StoreOpView> {
    plan.map_values(|op: StoreOp| op@)
}

/// The operations that save a token pair.
pub fn save_plan(access_token: String, refresh_token: String) -> (plan: Vec<StoreOp>)
    ensures
        plan_view(plan@) == save_plan_view(access_token@, refresh_token@),
{
    let mut plan: Vec<StoreOp> = Vec::new();
    plan.push(
        StoreOp::Put { key: ACCESS_TOKEN_KEY.to_owned(), value: StoredValue::Text(access_token) },
    );
    plan.push(
        StoreOp::Put {
            key: REFRESH_TOKEN_KEY.to_owned(),
            value: StoredValue::Text(refresh_token),
        },
    );
    plan.push(StoreOp::Flush);
    assert(plan_view(plan@) =~= save_plan_view(access_token@, refresh_token@));
    plan
}

/// The operations that erase the token pair.
pub fn clear_plan() -> (plan: Vec<StoreOp>)
    ensures
        plan_view(plan@) == clear_plan_view(),
{
    let mut plan: Vec<StoreOp> = Vec::new();
    plan.push(StoreOp::Delete { key: ACCESS_TOKEN_KEY.to_owned() });
    plan.push(StoreOp::Delete { key: REFRESH_TOKEN_KEY.to_owned() });
    plan.push(StoreOp::Flush);
    assert(plan_view(plan@) =~= clear_plan_view());
    plan
}

/// The store as a mathematical value.
pub struct SecureStoreView {
    /// What the running process sees.
    pub cache: Map<Seq<char>, StoredValueView>,
    /// What the last successful flush wrote.
    pub durable: Map<Seq<char>, StoredValueView>,
    /// Whether a flush succeeds.
    pub writable: bool,
}

impl SecureStoreView {
    /// The store after one operation, and whether the operation succeeded.
    /// Only a flush can fail, and a failed flush changes nothing.
    pub open spec fn apply(self, op: StoreOpView) -> (SecureStoreView, bool) {
        match op {
            StoreOpView::Put { key, value } => (
                SecureStoreView { cache: self.cache.insert(key, value), ..self },
                true,
            ),
            StoreOpView::Delete { key } => (
                SecureStoreView { cache: self.cache.remove(key), ..self },
                true,
            ),
            StoreOpView::Flush => if self.writable {
                (SecureStoreView { durable: self.cache, ..self }, true)
            } else {
                (self, false)
            },
        }
    }

    /// The store after a list of operations, carried out in order up to the
    /// first that fails, and whether all of them succeeded.
    pub open spec fn run(self, plan: Seq<StoreOpView>) -> (SecureStoreView, bool)
        decreases plan.len(),
    {
        if plan.len() == 0 {
            (self, true)
        } else {
            let (next, done) = self.apply(plan.first());
            if done {
                next.run(plan.drop_first())
            } else {
                (next, false)
            }
        }
    }

    /// The token that the running process reads under `key`.
    pub open spec fn token(self, key: Seq<char>) -> Option<Seq<char>> {
        token_of(
            if self.cache.contains_key(key) {
                Some(self.cache[key])
            } else {
                None
            },
        )
    }
}

/// The view of what one may find under a key.
pub open spec fn found_view(value: Option<&StoredValue>) -> Option<StoredValueView> {
    match value {
        Some(v) => Some(v@),
        None => None,
    }
}

/// A key-value store in memory: what the running process sees, and beside
/// it what the last successful flush wrote.
pub struct SecureStore {
    cache: TextMap<StoredValue>,
    durable: TextMap<StoredValue>,
    writable: bool,
}

impl View for SecureStore {
    type V = SecureStoreView;

    closed spec fn view(&self) -> SecureStoreView {
        SecureStoreView {
            cache: self.cache@.map_values(|v: StoredValue| v@),
            durable: self.durable@.map_values(|v: StoredValue| v@),
            writable: self.writable,
        }
    }
}

impl SecureStore {
    /// An empty store whose flushes succeed.
    pub fn new() -> (store: SecureStore)
        ensures
            store@ == (SecureStoreView {
                cache: Map::empty(),
                durable: Map::empty(),
                writable: true,
            }),
    {
        let store = SecureStore {
            cache: TextMap::new(),
            durable: TextMap::new(),
            writable: true,
        };
        assert(store@.cache =~= Map::empty());
        assert(store@.durable =~= Map::empty());
        store
    }

    /// Makes flushes succeed or fail from now on.
    pub fn set_writable(&mut self, writable: bool)
        ensures
            final(self)@ == (SecureStoreView { writable, ..old(self)@ }),
    {
        self.writable = writable;
    }

    /// Starts the process afresh: it sees what the last successful flush
    /// wrote, and nothing else.
    pub fn reload(&mut self)
        ensures
            final(self)@ == (SecureStoreView { cache: old(self)@.durable, ..old(self)@ }),
    {
        self.cache = self.durable.duplicate();
    }

    /// What the running process sees under `key`.
    pub fn get(&self, key: &str) -> (value: Option<&StoredValue>)
        ensures
            found_view(value) == if self@.cache.contains_key(key@) {
                Some(self@.cache[key@])
            } else {
                None
            },
    {
        self.cache.get(key)
    }

    /// Carries out one operation.
    pub fn apply(&mut self, op: StoreOp) -> (res: Result<(), String>)
        ensures
            (final(self)@, res is Ok) == old(self)@.apply(op@),
            res matches Err(message) ==> message@ == STORAGE_FAILURE@,
    {
        match op {
            StoreOp::Put { key, value } => {
                self.cache.insert(key, value);
                assert(self@.cache =~= old(self)@.cache.insert(key@, value@));
                Ok(())
            },
            StoreOp::Delete { key } => {
                self.cache.remove(key.as_str());
                assert(self@.cache =~= old(self)@.cache.remove(key@));
                Ok(())
            },
            StoreOp::Flush => {
                if self.writable {
                    self.durable = self.cache.duplicate();
                    Ok(())
                } else {
                    Err(STORAGE_FAILURE.to_owned())
                }
            },
        }
    }

    /// Carries out a list of operations in order, up to the first that
    /// fails.
    pub fn run(&mut self, plan: Vec<StoreOp>) -> (res: Result<(), String>)
        ensures
            (final(self)@, res is Ok) == old(self)@.run(plan_view(plan@)),
            res matches Err(message) ==> message@ == STORAGE_FAILURE@,
    {
        let mut rest = plan;
        while rest.len() > 0
            invariant
                self@.run(plan_view(rest@)) == old(self)@.run(plan_view(plan@)),
            decreases rest.len(),
        {
            let ghost before = plan_view(rest@);
            let op = rest.remove(0);
            proof {
                assert(before.first() == op@);
                assert(plan_view(rest@) =~= before.drop_first());
            }
            match self.apply(op) {
                Ok(()) => {},
                Err(message) => {
                    return Err(message);
                },
            }
        }
        Ok(())
    }
}

/// Saves the token pair: both values are put in place, then the store is
/// flushed.
pub fn save_tokens(store: &mut SecureStore, access_token: String, refresh_token: String) -> (res:
    Result<(), String>)
    ensures
        (final(store)@, res is Ok) == old(store)@.run(
            save_plan_view(access_token@, refresh_token@),
        ),
        res matches Err(message) ==> message@ == STORAGE_FAILURE@,
{
    store.run(save_plan(access_token, refresh_token))
}

/// Erases the token pair: both keys are removed, then the store is flushed.
pub fn clear_tokens(store: &mut SecureStore) -> (res: Result<(), String>)
    ensures
        (final(store)@, res is Ok) == old(store)@.run(clear_plan_view()),
        res matches Err(message) ==> message@ == STORAGE_FAILURE@,
{
    store.run(clear_plan())
}

/// The view of a token that was read.
pub open spec fn token_view(token: Option<String>) -> Option<Seq<char>> {
    match token {
        Some(t) => Some(t@),
        None => None,
    }
}

/// The access token, if the store has one.
pub fn get_access_token(store: &SecureStore) -> (token: Option<String>)
    ensures
        token_view(token) == store@.token(ACCESS_TOKEN_KEY@),
{
    read_token(store.get(ACCESS_TOKEN_KEY))
}

/// The refresh token, if the store has one.
pub fn get_refresh_token(store: &SecureStore) -> (token: Option<String>)
    ensures
        token_view(token) == store@.token(REFRESH_TOKEN_KEY@),
{
    read_token(store.get(REFRESH_TOKEN_KEY))
}

/// What saving a token pair comes to: the process sees both new values at
/// once, and durable storage has either both of them or what it had.
pub proof fn lemma_save(store: SecureStoreView, access_token: Seq<char>, refresh_token: Seq<char>)
    ensures
        store.run(save_plan_view(access_token, refresh_token)) == (
            SecureStoreView {
                cache: store.cache.insert(
                    ACCESS_TOKEN_KEY@,
                    StoredValueView::Text(access_token),
                ).insert(REFRESH_TOKEN_KEY@, StoredValueView::Text(refresh_token)),
                durable: if store.writable {
                    store.cache.insert(
                        ACCESS_TOKEN_KEY@,
                        StoredValueView::Text(access_token),
                    ).insert(REFRESH_TOKEN_KEY@, StoredValueView::Text(refresh_token))
                } else {
                    store.durable
                },
                writable: store.writable,
            },
            store.writable,
        ),
{
    let plan = save_plan_view(access_token, refresh_token);
    let (one, _) = store.apply(plan[0]);
    let (two, _) = one.apply(plan[1]);
    assert(plan.drop_first().first() == plan[1]);
    assert(plan.drop_first().drop_first().first() == plan[2]);
    assert(plan.drop_first().drop_first().drop_first().len() == 0);
    reveal_with_fuel(SecureStoreView::run, 4);
}

/// What erasing the token pair comes to.
pub proof fn lemma_clear(store: SecureStoreView)
    ensures
        store.run(clear_plan_view()) == (
            SecureStoreView {
                cache: store.cache.remove(ACCESS_TOKEN_KEY@).remove(REFRESH_TOKEN_KEY@),
                durable: if store.writable {
                    store.cache.remove(ACCESS_TOKEN_KEY@).remove(REFRESH_TOKEN_KEY@)
                } else {
                    store.durable
                },
                writable: store.writable,
            },
            store.writable,
        ),
{
    let plan = clear_plan_view();
    assert(plan.drop_first().first() == plan[1]);
    assert(plan.drop_first().drop_first().first() == plan[2]);
    assert(plan.drop_first().drop_first().drop_first().len() == 0);
    reveal_with_fuel(SecureStoreView::run, 4);
}

/// After a save, reading gives back exactly the two tokens that were saved,
/// whether or not the flush succeeded.
pub proof fn lemma_saved_tokens_are_read(
    store: SecureStoreView,
    access_token: Seq<char>,
    refresh_token: Seq<char>,
)
    ensures
        store.run(save_plan_view(access_token, refresh_token)).0.token(ACCESS_TOKEN_KEY@) == Some(
            access_token,
        ),
        store.run(save_plan_view(access_token, refresh_token)).0.token(REFRESH_TOKEN_KEY@) == Some(
            refresh_token,
        ),
{
    lemma_save(store, access_token, refresh_token);
    reveal_strlit("access_token");
    reveal_strlit("refresh_token");
    assert(ACCESS_TOKEN_KEY@.len() != REFRESH_TOKEN_KEY@.len());
}

/// After the tokens are erased, reading finds neither, and erasing them
/// once more changes nothing.
pub proof fn lemma_cleared_tokens_are_absent(store: SecureStoreView)
    ensures
        store.run(clear_plan_view()).0.token(ACCESS_TOKEN_KEY@) is None,
        store.run(clear_plan_view()).0.token(REFRESH_TOKEN_KEY@) is None,
        store.run(clear_plan_view()).0.run(clear_plan_view()) == store.run(clear_plan_view()),
{
    lemma_clear(store);
    let once = store.run(clear_plan_view()).0;
    lemma_clear(once);
    assert(once.cache.remove(ACCESS_TOKEN_KEY@).remove(REFRESH_TOKEN_KEY@) =~= once.cache);
}

} // verus!
