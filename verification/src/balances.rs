//! Books of balances: finite maps from a key to an amount, and what their
//! amounts add up to.

use vstd::prelude::*;

verus! {

/// The amounts of `book` added up.
pub open spec fn sum(book: Map<Seq<u8>, u64>) -> nat
    decreases book.dom().len(),
    when book.dom().finite()
{
    if book.dom().is_empty() {
        0
    } else {
        let key = book.dom().choose();
        book[key] as nat + sum(book.remove(key))
    }
}

/// The amount under `key`, zero where the book has no such key.
pub open spec fn amount_of(book: Map<Seq<u8>, u64>, key: Seq<u8>) -> nat {
    if book.contains_key(key) {
        book[key] as nat
    } else {
        0
    }
}

/// Any one entry can be taken out of the sum first.
pub proof fn sum_without(book: Map<Seq<u8>, u64>, key: Seq<u8>)
    requires
        book.dom().finite(),
    ensures
        sum(book) == amount_of(book, key) + sum(book.remove(key)),
    decreases book.dom().len(),
{
    if !book.contains_key(key) {
        assert(book.remove(key) =~= book);
    } else {
        let first = book.dom().choose();
        if first != key {
            sum_without(book.remove(first), key);
            sum_without(book.remove(key), first);
            assert(book.remove(first).remove(key) =~= book.remove(key).remove(first));
        }
    }
}

/// Writing `amount` under `key` replaces that key's share of the sum.
pub proof fn sum_with(book: Map<Seq<u8>, u64>, key: Seq<u8>, amount: u64)
    requires
        book.dom().finite(),
    ensures
        sum(book.insert(key, amount)) + amount_of(book, key) == sum(book) + amount,
{
    sum_without(book, key);
    sum_without(book.insert(key, amount), key);
    assert(book.insert(key, amount).remove(key) =~= book.remove(key));
}

} // verus!
