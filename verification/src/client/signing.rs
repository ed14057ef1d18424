//! Signing an index with a GPG key: which key signs.
use vstd::prelude::*;

verus! {

/// The result of signing content with a GPG key.
#[derive(Clone, Debug)]
pub struct SignedGpgContent {
    pub clearsigned: String,
    pub detachsigned: String,
    pub public_key_cert: String,
}

/// Why no signing key could be chosen.
#[derive(Clone, Debug)]
pub enum KeyChoiceError<E> {
    /// Reading a key from the keyring failed.
    Lookup(E),
    /// The named key is not in the keyring.
    NotFound,
    /// No key was named, and the keyring does not hold exactly one secret key.
    Ambiguous,
}

/// The key that signs: with a key ID, the first key that the keyring lists for it;
/// without one, the keyring's only secret key. `listed` holds what the keyring's
/// listing yielded, in order.
pub fn select_signing_key<K, E>(key_id_given: bool, listed: Vec<Result<K, E>>) -> (res: Result<
    K,
    KeyChoiceError<E>,
>)
    ensures
        key_id_given ==> match res {
            Ok(k) => listed@.len() > 0 && listed@[0] == Ok::<K, E>(k),
            Err(KeyChoiceError::Lookup(e)) => listed@.len() > 0 && listed@[0] == Err::<K, E>(e),
            Err(KeyChoiceError::NotFound) => listed@.len() == 0,
            Err(KeyChoiceError::Ambiguous) => false,
        },
        !key_id_given ==> match res {
            Ok(k) => listed@ == seq![Ok::<K, E>(k)],
            Err(KeyChoiceError::Lookup(e)) => exists|i: int|
                0 <= i < listed@.len() && listed@[i] == Err::<K, E>(e) && (forall|j: int|
                    0 <= j < i ==> #[trigger] listed@[j] is Ok),
            Err(KeyChoiceError::NotFound) => false,
            Err(KeyChoiceError::Ambiguous) => (forall|j: int|
                0 <= j < listed@.len() ==> #[trigger] listed@[j] is Ok) && listed@.len() != 1,
        },
{
    let mut pending = listed;
    let ghost all = pending@;
    if key_id_given {
        if pending.len() == 0 {
            return Err(KeyChoiceError::NotFound);
        }
        return match pending.remove(0) {
            Ok(k) => Ok(k),
            Err(e) => Err(KeyChoiceError::Lookup(e)),
        };
    }
    let mut keys: Vec<K> = Vec::new();
    let mut i: usize = 0;
    let n = pending.len();
    while pending.len() > 0
        invariant
            !key_id_given,
            all == listed@,
            all.len() == n,
            i + pending@.len() == n,
            pending@ == all.skip(i as int),
            keys@.len() == i,
            forall|j: int| 0 <= j < i ==> all[j] == Ok::<K, E>(#[trigger] keys@[j]),
        decreases pending.len(),
    {
        let item = pending.remove(0);
        assert(item == all[i as int]);
        match item {
            Ok(k) => keys.push(k),
            Err(e) => {
                assert forall|j: int| 0 <= j < i implies #[trigger] all[j] is Ok by {
                    assert(all[j] == Ok::<K, E>(keys@[j]));
                }
                assert(all[i as int] == Err::<K, E>(e));
                return Err(KeyChoiceError::Lookup(e));
            },
        }
        assert(pending@ =~= all.skip(i + 1));
        i = i + 1;
    }
    assert forall|j: int| 0 <= j < all.len() implies #[trigger] all[j] is Ok by {
        assert(all[j] == Ok::<K, E>(keys@[j]));
    }
    if keys.len() == 1 {
        let k = keys.pop().unwrap();
        assert(all =~= seq![Ok::<K, E>(k)]);
        Ok(k)
    } else {
        Err(KeyChoiceError::Ambiguous)
    }
}

} // verus!
