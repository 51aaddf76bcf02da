//! The capability contract a storage backend must satisfy. Handlers are
//! written against this trait alone and never against a concrete backend.

use vstd::prelude::*;

use crate::model::{
    pair_keys_distinct, pairs_view, store_contains, store_delete, store_get, store_set, table_of,
    StoreModel,
};
use crate::types::Kvpair;

verus! {

/// A backend owns, for each table name, an independent keyspace. Its
/// well-formedness is `inv`, which every operation preserves; `contents`
/// is the store it denotes, and each operation's contract is stated as a
/// function of that model.
pub trait Storage: Sized {
    /// Well-formedness of the backend's representation.
    spec fn inv(&self) -> bool;

    /// The store the backend denotes.
    spec fn contents(&self) -> StoreModel;

    /// Looks one key up in one table.
    fn get(&self, table: &String, key: &String) -> (r: Option<String>)
        requires
            self.inv(),
        ensures
            r.deep_view() == store_get(self.contents(), table@, key@),
    ;

    /// Writes one value unconditionally, returning the prior value if any.
    fn set(&mut self, table: String, key: String, value: String) -> (r: Option<String>)
        requires
            old(self).inv(),
        ensures
            final(self).inv(),
            final(self).contents() == store_set(old(self).contents(), table@, key@, value@),
            r.deep_view() == store_get(old(self).contents(), table@, key@),
    ;

    /// Whether one table holds one key.
    fn contains(&self, table: &String, key: &String) -> (r: bool)
        requires
            self.inv(),
        ensures
            r == store_contains(self.contents(), table@, key@),
    ;

    /// Removes one key from one table, returning the removed value if any.
    fn delete(&mut self, table: &String, key: &String) -> (r: Option<String>)
        requires
            old(self).inv(),
        ensures
            final(self).inv(),
            final(self).contents() == store_delete(old(self).contents(), table@, key@),
            r.deep_view() == store_get(old(self).contents(), table@, key@),
    ;

    /// Every pair of one table, as a snapshot taken at call time: each key
    /// of the table exactly once, in no promised order. An absent table
    /// lists as empty.
    fn get_all(&self, table: &String) -> (r: Vec<Kvpair>)
        requires
            self.inv(),
        ensures
            pair_keys_distinct(r@),
            pairs_view(r@) == table_of(self.contents(), table@),
    ;
}

} // verus!
