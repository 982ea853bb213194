use std::collections::HashMap;
use vstd::prelude::*;
use vstd::std_specs::hash::spec_keys_iter;
use vstd::std_specs::iter::IteratorSpec;
use vstd::string::*;
use crate::clock::utc_now_micros;
use crate::entities::{
    lookup_value, own_text, record_value, text_given, text_of, user_value, users_view,
    CreateUserRequest, User, UserView, STANDARD_USER_TYPE,
};
use crate::identifier::{is_random_uuid, random_user_id, UserId};
use crate::password::{hash_password, hashed_under, password_check, DEFAULT_COST};
use crate::errors::AuthError;
use crate::traits::{UserAuthRepository, UserRepository};

verus! {

/// A stored account: the record and the hash of its password.
pub struct Account {
    pub user: User,
    pub password_hash: String,
}

/// A stored account as a mathematical value.
pub struct AccountView {
    pub user: UserView,
    pub password_hash: Seq<char>,
}

impl View for Account {
    type V = AccountView;

    open spec fn view(&self) -> AccountView {
        AccountView { user: self.user@, password_hash: self.password_hash@ }
    }
}

impl Clone for Account {
    fn clone(&self) -> (copy: Self)
        ensures
            copy == *self,
    {
        Account { user: self.user.clone(), password_hash: self.password_hash.clone() }
    }
}

/// The accounts of a store, each under its identifier.
pub type Accounts = Map<u128, AccountView>;

/// Whether some account of the store, visible or not, carries the identifier.
pub open spec fn holds_id(store: Accounts, id: u128) -> bool {
    store.contains_key(id)
}

/// Whether a visible account carries the identifier.
pub open spec fn shows_id(store: Accounts, id: u128) -> bool {
    store.contains_key(id) && store[id].user.visible()
}

/// Whether the account under the identifier is visible and carries the username.
pub open spec fn shows_username_under(store: Accounts, name: Seq<char>, id: u128) -> bool {
    store.contains_key(id) && store[id].user.visible() && store[id].user.username == name
}

/// Whether a visible account carries the username.
pub open spec fn shows_username(store: Accounts, name: Seq<char>) -> bool {
    exists|id: u128| shows_username_under(store, name, id)
}

/// The identifier of the visible account with the username.
pub open spec fn id_of_username(store: Accounts, name: Seq<char>) -> u128 {
    choose|id: u128| shows_username_under(store, name, id)
}

/// The visible account with the username, if there is one.
pub open spec fn by_username(store: Accounts, name: Seq<char>) -> Option<AccountView> {
    if shows_username(store, name) {
        Some(store[id_of_username(store, name)])
    } else {
        None
    }
}

/// The visible account with the identifier, if there is one.
pub open spec fn by_id(store: Accounts, id: u128) -> Option<AccountView> {
    if shows_id(store, id) {
        Some(store[id])
    } else {
        None
    }
}

/// The record of an account found, if one was found.
pub open spec fn record_of(found: Option<AccountView>) -> Option<UserView> {
    match found {
        Some(account) => Some(account.user),
        None => None,
    }
}

/// The stored hash of an account found, if one was found.
pub open spec fn hash_of(found: Option<AccountView>) -> Option<Seq<char>> {
    match found {
        Some(account) => Some(account.password_hash),
        None => None,
    }
}

/// A store is well formed when every account stands under its own
/// identifier and no two visible accounts share a username.
pub open spec fn store_wf(store: Accounts) -> bool {
    &&& forall|id: u128| #[trigger] store.contains_key(id) ==> store[id].user.id == id
    &&& forall|a: u128, b: u128|
        #![trigger store.contains_key(a), store.contains_key(b)]
        a != b && store.contains_key(a) && store.contains_key(b) && store[a].user.visible()
            && store[b].user.visible() ==> store[a].user.username != store[b].user.username
}

/// Whether records are a listing of the store: each is a visible account
/// of the store, every visible account is among them, and none occurs
/// twice. No order is promised.
pub open spec fn lists_visible(users: Seq<UserView>, store: Accounts) -> bool {
    &&& forall|i: int|
        0 <= i < users.len() ==> shows_id(store, (#[trigger] users[i]).id) && store[users[i].id].user
            == users[i]
    &&& forall|id: u128| #[trigger]
        shows_id(store, id) ==> exists|i: int| 0 <= i < users.len() && (#[trigger] users[i]).id == id
    &&& forall|i: int, j: int|
        0 <= i < j < users.len() ==> (#[trigger] users[i]).id != (#[trigger] users[j]).id
}

/// The user type to store where one may have been left out.
pub open spec fn user_type_or_standard(user_type_id: Option<i32>) -> i32 {
    match user_type_id {
        Some(t) => t,
        None => STANDARD_USER_TYPE,
    }
}

/// The record of an account stored at an instant.
pub open spec fn new_record(
    id: u128,
    username: Seq<char>,
    first_name: Option<Seq<char>>,
    last_name: Option<Seq<char>>,
    email: Option<Seq<char>>,
    user_type_id: i32,
    now: i64,
) -> UserView {
    UserView {
        id,
        username,
        first_name,
        last_name,
        email,
        user_type_id,
        created_at: now,
        updated_at: now,
        deleted_at: None,
    }
}

/// Whether the store takes a new account with this identifier and username.
pub open spec fn admits(store: Accounts, id: u128, username: Seq<char>) -> bool {
    !holds_id(store, id) && !shows_username(store, username)
}

/// What storing a new account comes to: the record stored and the store
/// with the account under its identifier, or the refusal and the store as
/// it was.
pub open spec fn storing(
    store: Accounts,
    id: u128,
    username: Seq<char>,
    password_hash: Seq<char>,
    first_name: Option<Seq<char>>,
    last_name: Option<Seq<char>>,
    email: Option<Seq<char>>,
    user_type_id: i32,
    now: i64,
) -> (Result<UserView, Seq<char>>, Accounts) {
    let user = new_record(id, username, first_name, last_name, email, user_type_id, now);
    if holds_id(store, id) {
        (Err("Ошибка создания пользователя: идентификатор уже занят"@), store)
    } else if shows_username(store, username) {
        (Err("Ошибка создания пользователя: username уже занят"@), store)
    } else {
        (Ok(user), store.insert(id, AccountView { user, password_hash }))
    }
}

/// The account as it stands once soft-deleted at an instant.
pub open spec fn retired(account: AccountView, now: i64) -> AccountView {
    AccountView {
        user: UserView { updated_at: now, deleted_at: Some(now), ..account.user },
        password_hash: account.password_hash,
    }
}

/// The store after the account with the identifier is soft-deleted at an
/// instant: unchanged where no visible account has it.
pub open spec fn after_delete(store: Accounts, id: u128, now: i64) -> Accounts {
    if shows_id(store, id) {
        store.insert(id, retired(store[id], now))
    } else {
        store
    }
}

/// A field after an update: the value given, or the old one where none is.
pub open spec fn replaced(old_value: Option<Seq<char>>, given: Option<Seq<char>>) -> Option<
    Seq<char>,
> {
    if given is Some {
        given
    } else {
        old_value
    }
}

/// The account as it stands once its profile is updated at an instant.
pub open spec fn revised(
    account: AccountView,
    first_name: Option<Seq<char>>,
    last_name: Option<Seq<char>>,
    email: Option<Seq<char>>,
    now: i64,
) -> AccountView {
    AccountView {
        user: UserView {
            first_name: replaced(account.user.first_name, first_name),
            last_name: replaced(account.user.last_name, last_name),
            email: replaced(account.user.email, email),
            updated_at: now,
            ..account.user
        },
        password_hash: account.password_hash,
    }
}

/// The store after the profile of the account with the identifier is
/// updated at an instant: unchanged where no visible account has it.
pub open spec fn after_update(
    store: Accounts,
    id: u128,
    first_name: Option<Seq<char>>,
    last_name: Option<Seq<char>>,
    email: Option<Seq<char>>,
    now: i64,
) -> Accounts {
    if shows_id(store, id) {
        store.insert(id, revised(store[id], first_name, last_name, email, now))
    } else {
        store
    }
}

/// In a well-formed store, a visible account with the username is the one
/// that a lookup by that username yields.
pub proof fn lemma_username_found(store: Accounts, name: Seq<char>, id: u128)
    requires
        store_wf(store),
        shows_username_under(store, name, id),
    ensures
        by_username(store, name) == Some(store[id]),
        id_of_username(store, name) == id,
{
    let chosen = id_of_username(store, name);
    assert(shows_username_under(store, name, chosen));
    if chosen != id {
        assert(store.contains_key(chosen) && store.contains_key(id));
    }
}

/// What a lookup yields is a visible account with the key looked up.
pub proof fn lemma_lookups_show(store: Accounts)
    requires
        store_wf(store),
    ensures
        forall|name: Seq<char>| #[trigger]
            by_username(store, name) is Some ==> by_username(store, name)->0.user.visible()
                && by_username(store, name)->0.user.username == name,
        forall|id: u128| #[trigger]
            by_id(store, id) is Some ==> by_id(store, id)->0.user.visible() && by_id(
                store,
                id,
            )->0.user.id == id,
{
    assert forall|name: Seq<char>| #[trigger] by_username(store, name) is Some implies by_username(
        store,
        name,
    )->0.user.visible() && by_username(store, name)->0.user.username == name by {
        assert(shows_username_under(store, name, id_of_username(store, name)));
    }
}

/// Adding an account whose identifier is not held and whose username no
/// visible account carries keeps a store well formed.
pub proof fn lemma_insert_keeps_wf(store: Accounts, account: AccountView)
    requires
        store_wf(store),
        admits(store, account.user.id, account.user.username),
    ensures
        store_wf(store.insert(account.user.id, account)),
{
    let id = account.user.id;
    let after = store.insert(id, account);
    assert forall|a: u128, b: u128|
        a != b && #[trigger] after.contains_key(a) && #[trigger] after.contains_key(b)
            && after[a].user.visible() && after[b].user.visible() implies after[a].user.username
        != after[b].user.username by {
        if a == id {
            assert(!shows_username_under(store, account.user.username, b));
        } else if b == id {
            assert(!shows_username_under(store, account.user.username, a));
        } else {
            assert(store.contains_key(a) && store.contains_key(b));
        }
    }
}

/// Replacing an account by one with the same identifier and username that
/// is visible only if the old one was keeps a store well formed.
pub proof fn lemma_update_keeps_wf(store: Accounts, id: u128, account: AccountView)
    requires
        store_wf(store),
        store.contains_key(id),
        account.user.id == id,
        account.user.username == store[id].user.username,
        account.user.visible() ==> store[id].user.visible(),
    ensures
        store_wf(store.insert(id, account)),
{
    let after = store.insert(id, account);
    assert forall|a: u128, b: u128|
        a != b && #[trigger] after.contains_key(a) && #[trigger] after.contains_key(b)
            && after[a].user.visible() && after[b].user.visible() implies after[a].user.username
        != after[b].user.username by {
        assert(store.contains_key(a) && store.contains_key(b));
        assert(store[a].user.visible() && store[b].user.visible());
    }
}

/// Soft-delete invisibility: once a visible account is soft-deleted, the
/// store stays well formed and keeps every account, and no lookup by its
/// username or by its identifier finds it, nor its password hash.
pub proof fn soft_deleted_account_is_invisible(store: Accounts, id: u128, now: i64)
    requires
        store_wf(store),
        shows_id(store, id),
    ensures
        store_wf(after_delete(store, id, now)),
        after_delete(store, id, now).dom() == store.dom(),
        by_id(after_delete(store, id, now), id) is None,
        by_username(after_delete(store, id, now), by_id(store, id)->0.user.username) is None,
        hash_of(by_username(after_delete(store, id, now), by_id(store, id)->0.user.username))
            is None,
{
    let name = store[id].user.username;
    let after = after_delete(store, id, now);
    lemma_update_keeps_wf(store, id, retired(store[id], now));
    assert(after.dom() =~= store.dom());
    assert forall|other: u128| !shows_username_under(after, name, other) by {
        if other != id && after.contains_key(other) && after[other].user.visible() {
            assert(store.contains_key(other) && store.contains_key(id));
        }
    }
}

/// Soft-deletion touches one account only: every other account is found
/// after it exactly as before.
pub proof fn soft_delete_spares_other_accounts(store: Accounts, id: u128, now: i64, other: u128)
    requires
        store_wf(store),
        other != id,
    ensures
        by_id(after_delete(store, id, now), other) == by_id(store, other),
{
}

/// The credential store held in memory: accounts under their identifiers.
/// It is a fallback for tests and small deployments; wrap it in a lock to
/// share it.
pub struct InMemoryUserRepository {
    users: HashMap<UserId, Account>,
    cost: u32,
}

/// The mathematical values of stored accounts.
pub open spec fn accounts_view(users: Map<u128, Account>) -> Accounts {
    users.map_values(|account: Account| account@)
}

impl View for InMemoryUserRepository {
    type V = Accounts;

    closed spec fn view(&self) -> Accounts {
        accounts_view(self.users@)
    }
}

impl InMemoryUserRepository {
    #[verifier::type_invariant]
    spec fn well_formed(self) -> bool {
        store_wf(self@)
    }

    /// The work factor that passwords are hashed with.
    pub closed spec fn cost(&self) -> u32 {
        self.cost
    }

    /// An empty store that hashes passwords with the default work factor.
    pub fn new() -> (store: Self)
        ensures
            store@ == Map::<u128, AccountView>::empty(),
            store.cost() == DEFAULT_COST,
    {
        let store = InMemoryUserRepository { users: HashMap::new(), cost: DEFAULT_COST };
        assert(store@ =~= Map::<u128, AccountView>::empty());
        store
    }

    /// An empty store that hashes passwords with the given work factor.
    pub fn with_cost(cost: u32) -> (store: Self)
        ensures
            store@ == Map::<u128, AccountView>::empty(),
            store.cost() == cost,
    {
        let store = InMemoryUserRepository { users: HashMap::new(), cost };
        assert(store@ =~= Map::<u128, AccountView>::empty());
        store
    }

    /// Takes the accounts out, leaving the store empty for the moment.
    fn take_users(&mut self) -> (users: HashMap<UserId, Account>)
        ensures
            accounts_view(users@) == old(self)@,
            final(self)@ == Map::<u128, AccountView>::empty(),
            final(self).cost() == old(self).cost(),
    {
        let mut users: HashMap<UserId, Account> = HashMap::new();
        assert(accounts_view(users@) =~= Map::<u128, AccountView>::empty());
        core::mem::swap(&mut self.users, &mut users);
        users
    }

    /// Puts accounts into the store in place of what it holds.
    fn put_users(&mut self, users: HashMap<UserId, Account>)
        requires
            store_wf(accounts_view(users@)),
        ensures
            final(self)@ == accounts_view(users@),
            final(self).cost() == old(self).cost(),
    {
        let mut users = users;
        core::mem::swap(&mut self.users, &mut users);
    }

    /// Puts an account under an identifier, in place of any that stands there.
    fn put_account(&mut self, id: UserId, account: Account)
        requires
            store_wf(old(self)@.insert(id, account@)),
        ensures
            final(self)@ == old(self)@.insert(id, account@),
            final(self).cost() == old(self).cost(),
    {
        broadcast use vstd::std_specs::hash::group_hash_axioms;

        let ghost before = self@;
        let ghost added = account@;
        let mut users = self.take_users();
        users.insert(id, account);
        assert(accounts_view(users@) =~= before.insert(id, added));
        self.put_users(users);
    }

    /// The account under an identifier, if one stands there.
    fn account(&self, id: UserId) -> (found: Option<&Account>)
        ensures
            match found {
                Some(account) => self@.contains_key(id) && self@[id] == account@,
                None => !self@.contains_key(id),
            },
    {
        broadcast use vstd::std_specs::hash::group_hash_axioms;

        self.users.get(&id)
    }

    /// The identifier of the visible account with the username.
    fn find_username(&self, username: &str) -> (found: Option<UserId>)
        ensures
            match found {
                Some(id) => shows_username_under(self@, username@, id),
                None => !shows_username(self@, username@),
            },
    {
        broadcast use vstd::std_specs::hash::group_hash_axioms;

        let wanted = String::from_str(username);
        let ghost all = spec_keys_iter(&self.users).remaining();
        let ghost mut done: int = 0;
        for key in it: self.users.keys()
            invariant
                it.seq() == all,
                done == it.index(),
                wanted@ == username@,
                forall|j: int|
                    0 <= j < done ==> !shows_username_under(self@, username@, *(#[trigger] all[j])),
        {
            match self.users.get(key) {
                Some(account) => {
                    if account.user.deleted_at.is_none() && account.user.username == wanted {
                        return Some(*key);
                    }
                },
                None => {},
            }
            proof {
                done = done + 1;
            }
        }
        proof {
            assert forall|id: u128| !shows_username_under(self@, username@, id) by {
                if self@.contains_key(id) {
                    assert(all.unref().to_set().contains(id));
                    let j = choose|j: int| 0 <= j < all.len() && all.unref()[j] == id;
                    assert(*all[j] == id);
                }
            }
        }
        None
    }

    /// Stores a new account under the given identifier at the given instant.
    /// The store takes it unless the identifier is held already or a visible
    /// account carries the username; then nothing changes.
    pub fn store_account(
        &mut self,
        id: UserId,
        username: &str,
        password_hash: String,
        first_name: Option<&str>,
        last_name: Option<&str>,
        email: Option<&str>,
        user_type_id: Option<i32>,
        now: i64,
    ) -> (stored: Result<User, String>)
        ensures
            final(self).cost() == old(self).cost(),
            store_wf(final(self)@),
            (record_value(stored), final(self)@) == storing(
                old(self)@,
                id,
                username@,
                password_hash@,
                text_given(first_name),
                text_given(last_name),
                text_given(email),
                user_type_or_standard(user_type_id),
                now,
            ),
    {
        proof {
            use_type_invariant(&*self);
        }
        if self.account(id).is_some() {
            return Err(String::from_str("Ошибка создания пользователя: идентификатор уже занят"));
        }
        if self.find_username(username).is_some() {
            return Err(String::from_str("Ошибка создания пользователя: username уже занят"));
        }
        let user = User {
            id,
            username: String::from_str(username),
            first_name: own_text(first_name),
            last_name: own_text(last_name),
            email: own_text(email),
            user_type_id: match user_type_id {
                Some(t) => t,
                None => STANDARD_USER_TYPE,
            },
            created_at: now,
            updated_at: now,
            deleted_at: None,
        };
        let account = Account { user: user.clone(), password_hash };
        proof {
            lemma_insert_keeps_wf(self@, account@);
        }
        self.put_account(id, account);
        Ok(user)
    }

    /// The visible account with the username.
    pub fn lookup_by_username(&self, username: &str) -> (found: Option<User>)
        ensures
            user_value(found) == record_of(by_username(self@, username@)),
    {
        proof {
            use_type_invariant(self);
        }
        match self.find_username(username) {
            Some(id) => {
                proof {
                    lemma_username_found(self@, username@, id);
                }
                match self.account(id) {
                    Some(account) => Some(account.user.clone()),
                    None => None,
                }
            },
            None => None,
        }
    }

    /// The visible account with the identifier.
    pub fn lookup_by_id(&self, id: UserId) -> (found: Option<User>)
        ensures
            user_value(found) == record_of(by_id(self@, id)),
    {
        match self.account(id) {
            Some(account) => if account.user.deleted_at.is_none() {
                Some(account.user.clone())
            } else {
                None
            },
            None => None,
        }
    }

    /// The stored password hash of the visible account with the username.
    pub fn lookup_password_hash(&self, username: &str) -> (found: Option<String>)
        ensures
            text_of(found) == hash_of(by_username(self@, username@)),
    {
        proof {
            use_type_invariant(self);
        }
        match self.find_username(username) {
            Some(id) => {
                proof {
                    lemma_username_found(self@, username@, id);
                }
                match self.account(id) {
                    Some(account) => Some(account.password_hash.clone()),
                    None => None,
                }
            },
            None => None,
        }
    }

    /// The records of the visible accounts, each once, in no promised order.
    pub fn list_visible(&self) -> (users: Vec<User>)
        ensures
            lists_visible(users_view(users@), self@),
    {
        broadcast use vstd::std_specs::hash::group_hash_axioms;

        proof {
            use_type_invariant(self);
        }
        let mut users: Vec<User> = Vec::new();
        let ghost all = spec_keys_iter(&self.users).remaining();
        let ghost mut done: int = 0;
        for key in it: self.users.keys()
            invariant
                it.seq() == all,
                done == it.index(),
                all.no_duplicates(),
                store_wf(self@),
                forall|i: int|
                    0 <= i < users@.len() ==> shows_id(self@, (#[trigger] users@[i]).id)
                        && self@[users@[i].id].user == users@[i]@ && exists|j: int|
                        0 <= j < done && *(#[trigger] all[j]) == users@[i].id,
                forall|j: int|
                    0 <= j < done && shows_id(self@, *(#[trigger] all[j])) ==> exists|i: int|
                        0 <= i < users@.len() && (#[trigger] users@[i]).id == *all[j],
                forall|i: int, j: int|
                    0 <= i < j < users@.len() ==> (#[trigger] users@[i]).id != (
                    #[trigger] users@[j]).id,
        {
            let ghost before = users@;
            match self.users.get(key) {
                Some(account) => {
                    if account.user.deleted_at.is_none() {
                        users.push(account.user.clone());
                        proof {
                            let last = before.len() as int;
                            assert(self@.contains_key(*key) && self@[*key] == account@);
                            assert(users@[last].id == *key);
                            assert(*all[done] == *key);
                            assert forall|i: int| 0 <= i < last implies users@[i].id != *key by {
                                let j = choose|j: int|
                                    0 <= j < done && *(#[trigger] all[j]) == before[i].id;
                                assert(all[j] != all[done]);
                            }
                        }
                    }
                },
                None => {},
            }
            proof {
                assert forall|j: int|
                    0 <= j < done + 1 && shows_id(self@, *(#[trigger] all[j])) implies exists|
                    i: int,
                | 0 <= i < users@.len() && (#[trigger] users@[i]).id == *all[j] by {
                    if j < done {
                        let i = choose|i: int|
                            0 <= i < before.len() && (#[trigger] before[i]).id == *all[j];
                        assert(users@[i].id == *all[j]);
                    } else {
                        assert(users@[before.len() as int].id == *all[j]);
                    }
                }
                done = done + 1;
            }
        }
        proof {
            let listed = users_view(users@);
            assert forall|i: int| 0 <= i < listed.len() implies shows_id(
                self@,
                (#[trigger] listed[i]).id,
            ) && self@[listed[i].id].user == listed[i] by {
                assert(listed[i] == users@[i]@);
            }
            assert forall|id: u128| #[trigger] shows_id(self@, id) implies exists|i: int|
                0 <= i < listed.len() && (#[trigger] listed[i]).id == id by {
                assert(all.unref().to_set().contains(id));
                let j = choose|j: int| 0 <= j < all.len() && all.unref()[j] == id;
                assert(*all[j] == id);
                let i = choose|i: int| 0 <= i < users@.len() && (#[trigger] users@[i]).id == id;
                assert(listed[i].id == id);
            }
            assert forall|i: int, j: int| 0 <= i < j < listed.len() implies (
            #[trigger] listed[i]).id != (#[trigger] listed[j]).id by {
                assert(listed[i] == users@[i]@ && listed[j] == users@[j]@);
            }
        }
        users
    }

    /// Soft-deletes the visible account with the identifier at the given
    /// instant (microseconds since the epoch): the record stays and is shown
    /// to no one from then on. Answers whether there was such an account.
    pub fn delete_user_at(&mut self, id: UserId, now: i64) -> (deleted: bool)
        ensures
            deleted == shows_id(old(self)@, id),
            final(self)@ == after_delete(old(self)@, id, now),
            store_wf(final(self)@),
            final(self).cost() == old(self).cost(),
    {
        proof {
            use_type_invariant(&*self);
        }
        let mut account = match self.account(id) {
            Some(account) => account.clone(),
            None => {
                return false;
            },
        };
        if account.user.deleted_at.is_some() {
            return false;
        }
        account.user.deleted_at = Some(now);
        account.user.updated_at = now;
        proof {
            assert(account@ == retired(self@[id], now));
            lemma_update_keeps_wf(self@, id, account@);
        }
        self.put_account(id, account);
        true
    }

    /// Updates the profile of the visible account with the identifier at
    /// the given instant (microseconds since the epoch): a field given
    /// replaces the old value, a field left out stays.
    pub fn update_user_fields_at(
        &mut self,
        id: UserId,
        first_name: Option<&str>,
        last_name: Option<&str>,
        email: Option<&str>,
        now: i64,
    ) -> (updated: Option<User>)
        ensures
            final(self)@ == after_update(
                old(self)@,
                id,
                text_given(first_name),
                text_given(last_name),
                text_given(email),
                now,
            ),
            user_value(updated) == record_of(by_id(final(self)@, id)),
            updated is Some <==> shows_id(old(self)@, id),
            store_wf(final(self)@),
            final(self).cost() == old(self).cost(),
    {
        proof {
            use_type_invariant(&*self);
        }
        let mut account = match self.account(id) {
            Some(account) => account.clone(),
            None => {
                return None;
            },
        };
        if account.user.deleted_at.is_some() {
            return None;
        }
        if let Some(value) = first_name {
            account.user.first_name = Some(String::from_str(value));
        }
        if let Some(value) = last_name {
            account.user.last_name = Some(String::from_str(value));
        }
        if let Some(value) = email {
            account.user.email = Some(String::from_str(value));
        }
        account.user.updated_at = now;
        let user = account.user.clone();
        proof {
            assert(account@ == revised(
                self@[id],
                text_given(first_name),
                text_given(last_name),
                text_given(email),
                now,
            ));
            lemma_update_keeps_wf(self@, id, account@);
        }
        self.put_account(id, account);
        Some(user)
    }

    /// Stores an account for the management interface under the given
    /// identifier at the given instant (microseconds since the epoch): a
    /// standard user with no names and no password.
    pub fn create_user_as(&mut self, user_data: CreateUserRequest, id: UserId, now: i64) -> (created:
        Result<User, String>)
        ensures
            (record_value(created), final(self)@) == storing(
                old(self)@,
                id,
                user_data.username@,
                Seq::<char>::empty(),
                None,
                None,
                Some(user_data.email@),
                STANDARD_USER_TYPE,
                now,
            ),
            store_wf(final(self)@),
            final(self).cost() == old(self).cost(),
    {
        self.store_account(
            id,
            user_data.username.as_str(),
            String::new(),
            None,
            None,
            Some(user_data.email.as_str()),
            Some(STANDARD_USER_TYPE),
            now,
        )
    }

    /// Hashes the password with the store's work factor and stores a new
    /// account under the given identifier at the given instant
    /// (microseconds since the epoch). The stored hash verifies against the
    /// password. Nothing changes where hashing fails or the store refuses
    /// the account.
    pub fn create_user_with_password_as(
        &mut self,
        username: &str,
        password: &str,
        first_name: Option<&str>,
        last_name: Option<&str>,
        email: Option<&str>,
        user_type_id: Option<i32>,
        id: UserId,
        now: i64,
    ) -> (created: Result<User, String>)
        ensures
            store_wf(final(self)@),
            final(self).cost() == old(self).cost(),
            created is Ok ==> exists|hash: Seq<char>|
                hashed_under(hash, old(self).cost()) && password_check(password@, hash) == Ok::<
                    bool,
                    AuthError,
                >(true) && (
                    record_value(created),
                    final(self)@,
                ) == #[trigger] storing(
                    old(self)@,
                    id,
                    username@,
                    hash,
                    text_given(first_name),
                    text_given(last_name),
                    text_given(email),
                    user_type_or_standard(user_type_id),
                    now,
                ),
            created is Ok ==> admits(old(self)@, id, username@),
            created matches Err(text) ==> final(self)@ == old(self)@ && (!admits(
                old(self)@,
                id,
                username@,
            ) || text@ == "Ошибка хеширования пароля"@),
    {
        proof {
            use_type_invariant(&*self);
        }
        let hash = match hash_password(password, self.cost) {
            Ok(hash) => hash,
            Err(_) => {
                return Err(String::from_str("Ошибка хеширования пароля"));
            },
        };
        let ghost hashed = hash@;
        let created = self.store_account(
            id,
            username,
            hash,
            first_name,
            last_name,
            email,
            user_type_id,
            now,
        );
        assert((record_value(created), self@) == storing(
            old(self)@,
            id,
            username@,
            hashed,
            text_given(first_name),
            text_given(last_name),
            text_given(email),
            user_type_or_standard(user_type_id),
            now,
        ));
        created
    }
}

impl UserRepository for InMemoryUserRepository {
    /// Stores the account under a fresh random identifier, at the time the
    /// clock reads.
    fn create_user(&mut self, user_data: CreateUserRequest) -> (created: Result<User, String>)
        ensures
            store_wf(final(self)@),
            exists|id: u128, now: i64|
                is_random_uuid(id) && (record_value(created), final(self)@) == #[trigger] storing(
                    old(self)@,
                    id,
                    user_data.username@,
                    Seq::<char>::empty(),
                    None,
                    None,
                    Some(user_data.email@),
                    STANDARD_USER_TYPE,
                    now,
                ),
    {
        let id = random_user_id();
        let now = utc_now_micros();
        let ghost before = self@;
        let ghost username = user_data.username@;
        let ghost email = user_data.email@;
        let created = self.create_user_as(user_data, id, now);
        assert((record_value(created), self@) == storing(
            before,
            id,
            username,
            Seq::<char>::empty(),
            None,
            None,
            Some(email),
            STANDARD_USER_TYPE,
            now,
        ));
        created
    }

    fn get_user_by_id(&self, id: UserId) -> (found: Result<Option<User>, String>)
        ensures
            lookup_value(found) == Ok::<Option<UserView>, Seq<char>>(record_of(by_id(self@, id))),
    {
        let found = self.lookup_by_id(id);
        proof {
            use_type_invariant(&*self);
            lemma_lookups_show(self@);
        }
        Ok(found)
    }

    /// Lists the visible accounts, each once, in no promised order.
    fn get_all_users(&self) -> (listed: Result<Vec<User>, String>)
        ensures
            listed matches Ok(users) && lists_visible(users_view(users@), self@),
    {
        let users = self.list_visible();
        proof {
            assert forall|i: int| 0 <= i < users@.len() implies (#[trigger] users@[i])@.visible() by {
                assert(users_view(users@)[i] == users@[i]@);
            }
        }
        Ok(users)
    }

    /// Soft-deletes the account at the time the clock reads.
    fn delete_user(&mut self, id: UserId) -> (deleted: Result<bool, String>)
        ensures
            deleted == Ok::<bool, String>(shows_id(old(self)@, id)),
            store_wf(final(self)@),
            exists|now: i64| final(self)@ == #[trigger] after_delete(old(self)@, id, now),
    {
        let now = utc_now_micros();
        let ghost before = self@;
        let deleted = self.delete_user_at(id, now);
        assert(self@ == after_delete(before, id, now));
        Ok(deleted)
    }
}

impl UserAuthRepository for InMemoryUserRepository {
    fn find_by_username(&self, username: &str) -> (found: Result<Option<User>, String>)
        ensures
            lookup_value(found) == Ok::<Option<UserView>, Seq<char>>(
                record_of(by_username(self@, username@)),
            ),
    {
        let found = self.lookup_by_username(username);
        proof {
            use_type_invariant(&*self);
            lemma_lookups_show(self@);
        }
        Ok(found)
    }

    fn find_by_id(&self, id: UserId) -> (found: Result<Option<User>, String>)
        ensures
            lookup_value(found) == Ok::<Option<UserView>, Seq<char>>(record_of(by_id(self@, id))),
    {
        let found = self.lookup_by_id(id);
        proof {
            use_type_invariant(&*self);
            lemma_lookups_show(self@);
        }
        Ok(found)
    }

    fn get_password_hash(&self, username: &str) -> (found: Result<Option<String>, String>)
        ensures
            found matches Ok(hash) && text_of(hash) == hash_of(by_username(self@, username@)),
    {
        Ok(self.lookup_password_hash(username))
    }

    /// Stores the account under a fresh random identifier, at the time the
    /// clock reads.
    fn create_user_with_password(
        &mut self,
        username: &str,
        password: &str,
        first_name: Option<&str>,
        last_name: Option<&str>,
        email: Option<&str>,
        user_type_id: Option<i32>,
    ) -> (created: Result<User, String>)
        ensures
            store_wf(final(self)@),
            created is Ok ==> exists|hash: Seq<char>, id: u128, now: i64|
                is_random_uuid(id) && hashed_under(hash, old(self).cost()) && password_check(
                    password@,
                    hash,
                ) == Ok::<bool, AuthError>(true) && (
                    record_value(created),
                    final(self)@,
                ) == #[trigger] storing(
                    old(self)@,
                    id,
                    username@,
                    hash,
                    text_given(first_name),
                    text_given(last_name),
                    text_given(email),
                    user_type_or_standard(user_type_id),
                    now,
                ),
            created is Err ==> final(self)@ == old(self)@,
    {
        let id = random_user_id();
        let now = utc_now_micros();
        self.create_user_with_password_as(
            username,
            password,
            first_name,
            last_name,
            email,
            user_type_id,
            id,
            now,
        )
    }

    /// Updates the profile at the time the clock reads.
    fn update_user_fields(
        &mut self,
        id: UserId,
        first_name: Option<&str>,
        last_name: Option<&str>,
        email: Option<&str>,
    ) -> (updated: Result<Option<User>, String>)
        ensures
            store_wf(final(self)@),
            lookup_value(updated) == Ok::<Option<UserView>, Seq<char>>(
                record_of(by_id(final(self)@, id)),
            ),
            exists|now: i64|
                final(self)@ == #[trigger] after_update(
                    old(self)@,
                    id,
                    text_given(first_name),
                    text_given(last_name),
                    text_given(email),
                    now,
                ),
    {
        let now = utc_now_micros();
        let ghost before = self@;
        let updated = self.update_user_fields_at(id, first_name, last_name, email, now);
        assert(self@ == after_update(
            before,
            id,
            text_given(first_name),
            text_given(last_name),
            text_given(email),
            now,
        ));
        proof {
            use_type_invariant(&*self);
            lemma_lookups_show(self@);
        }
        Ok(updated)
    }
}

} // verus!
