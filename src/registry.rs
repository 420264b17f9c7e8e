//! Where each user's last menu message is, per menu category, so that later
//! steps can edit it in place.

use vstd::prelude::*;

use crate::keyboard::Keyboard;

verus! {

/// A menu message as it was sent: where it is, and its keyboard.
#[derive(Clone, Debug)]
pub struct MenuRecord {
    pub chat_id: i64,
    pub message_id: i32,
    pub keyboard: Option<Keyboard>,
}

/// One category's records, keyed by user name.
#[verifier::external_body]
pub struct MenuStorage {
    storage: hashbrown::HashMap<String, MenuRecord>,
}

/// The records that a storage holds, by the text of their keys.
pub uninterp spec fn stored_menus(s: MenuStorage) -> Map<Seq<char>, MenuRecord>;

impl MenuStorage {
    /// Relies on `hashbrown::HashMap::new`: a new map is empty.
    #[verifier::external_body]
    fn new() -> (r: MenuStorage)
        ensures
            stored_menus(r).dom() == Set::<Seq<char>>::empty(),
    {
        MenuStorage { storage: hashbrown::HashMap::new() }
    }

    /// Relies on `hashbrown::HashMap::insert`: afterwards the key maps to the
    /// new record and no other entry changed. `String` keys are equal when
    /// their text is.
    #[verifier::external_body]
    fn insert(&mut self, user_name: String, message: MenuRecord)
        ensures
            stored_menus(*final(self)) == stored_menus(*old(self)).insert(user_name@, message),
    {
        self.storage.insert(user_name, message);
    }

    /// Relies on `hashbrown::HashMap::get`: the record under the key, if any.
    #[verifier::external_body]
    fn get(&self, user_name: &str) -> (r: Option<&MenuRecord>)
        ensures
            match r {
                Some(m) => stored_menus(*self).contains_key(user_name@) && *m == stored_menus(
                    *self,
                )[user_name@],
                None => !stored_menus(*self).contains_key(user_name@),
            },
    {
        self.storage.get(user_name)
    }

    /// Relies on `hashbrown::HashMap::remove`: takes the record under the key
    /// out, if any, and leaves the rest.
    #[verifier::external_body]
    fn remove(&mut self, user_name: &str) -> (r: Option<MenuRecord>)
        ensures
            stored_menus(*final(self)) == stored_menus(*old(self)).remove(user_name@),
            match r {
                Some(m) => stored_menus(*old(self)).contains_key(user_name@) && m == stored_menus(
                    *old(self),
                )[user_name@],
                None => !stored_menus(*old(self)).contains_key(user_name@),
            },
    {
        self.storage.remove(user_name)
    }

    /// Relies on `hashbrown::HashMap::clear`: the map is empty afterwards.
    #[verifier::external_body]
    fn delete_all(&mut self)
        ensures
            stored_menus(*final(self)).dom() == Set::<Seq<char>>::empty(),
    {
        self.storage.clear();
    }
}

/// The menus whose last message is tracked, each in a namespace of its own.
#[derive(Clone, Copy, Debug, PartialEq, Eq, Structural)]
pub enum MenuCategory {
    Main,
    Buy,
    Sell,
}

/// The last menu message of each (category, user name). Writes replace the
/// whole record; categories do not affect each other.
pub struct MessageRegistry {
    main: MenuStorage,
    buy: MenuStorage,
    sell: MenuStorage,
}

impl MessageRegistry {
    pub closed spec fn records(&self, category: MenuCategory) -> Map<Seq<char>, MenuRecord> {
        match category {
            MenuCategory::Main => stored_menus(self.main),
            MenuCategory::Buy => stored_menus(self.buy),
            MenuCategory::Sell => stored_menus(self.sell),
        }
    }

    pub fn new() -> (r: MessageRegistry)
        ensures
            forall|c: MenuCategory| #[trigger] r.records(c) == Map::<Seq<char>, MenuRecord>::empty(),
    {
        let r = MessageRegistry {
            main: MenuStorage::new(),
            buy: MenuStorage::new(),
            sell: MenuStorage::new(),
        };
        assert(stored_menus(r.main) =~= Map::<Seq<char>, MenuRecord>::empty());
        assert(stored_menus(r.buy) =~= Map::<Seq<char>, MenuRecord>::empty());
        assert(stored_menus(r.sell) =~= Map::<Seq<char>, MenuRecord>::empty());
        r
    }

    /// Records `record` as the user's last menu message of the category.
    pub fn put(&mut self, category: MenuCategory, user_name: String, record: MenuRecord)
        ensures
            final(self).records(category) == old(self).records(category).insert(user_name@, record),
            forall|c: MenuCategory|
                c != category ==> #[trigger] final(self).records(c) == old(self).records(c),
    {
        match category {
            MenuCategory::Main => self.main.insert(user_name, record),
            MenuCategory::Buy => self.buy.insert(user_name, record),
            MenuCategory::Sell => self.sell.insert(user_name, record),
        }
    }

    /// The user's last menu message of the category, if one was recorded.
    pub fn get(&self, category: MenuCategory, user_name: &str) -> (r: Option<&MenuRecord>)
        ensures
            match r {
                Some(m) => self.records(category).contains_key(user_name@) && *m == self.records(
                    category,
                )[user_name@],
                None => !self.records(category).contains_key(user_name@),
            },
    {
        match category {
            MenuCategory::Main => self.main.get(user_name),
            MenuCategory::Buy => self.buy.get(user_name),
            MenuCategory::Sell => self.sell.get(user_name),
        }
    }

    /// Forgets the user's record of the category, returning it.
    pub fn remove(&mut self, category: MenuCategory, user_name: &str) -> (r: Option<MenuRecord>)
        ensures
            final(self).records(category) == old(self).records(category).remove(user_name@),
            forall|c: MenuCategory|
                c != category ==> #[trigger] final(self).records(c) == old(self).records(c),
            match r {
                Some(m) => old(self).records(category).contains_key(user_name@) && m == old(
                    self,
                ).records(category)[user_name@],
                None => !old(self).records(category).contains_key(user_name@),
            },
    {
        match category {
            MenuCategory::Main => self.main.remove(user_name),
            MenuCategory::Buy => self.buy.remove(user_name),
            MenuCategory::Sell => self.sell.remove(user_name),
        }
    }

    /// Forgets every record of the category.
    pub fn clear(&mut self, category: MenuCategory)
        ensures
            final(self).records(category) == Map::<Seq<char>, MenuRecord>::empty(),
            forall|c: MenuCategory|
                c != category ==> #[trigger] final(self).records(c) == old(self).records(c),
    {
        match category {
            MenuCategory::Main => self.main.delete_all(),
            MenuCategory::Buy => self.buy.delete_all(),
            MenuCategory::Sell => self.sell.delete_all(),
        }
        assert(self.records(category) =~= Map::<Seq<char>, MenuRecord>::empty());
    }
}

} // verus!
