//! Keys of the node keyring and the data needed to filter them by balance.

use vstd::prelude::*;

use crate::evmosd::ClientConfig;
use crate::network::Network;
use crate::strutil::str_eq;

verus! {

/// A key of the keyring: its name and its address.
#[derive(Clone, Debug)]
pub struct Key {
    pub name: String,
    pub address: String,
}

/// All configuration needed to list the keys of a keyring and filter for
/// the ones holding a balance.
#[derive(Clone, Debug)]
pub struct FilterKeysConfig {
    pub config: ClientConfig,
    pub home: String,
    pub network: Network,
}

/// Returns whether a queried balance amount is non-zero: any amount other
/// than the literal `0`.
pub fn is_nonzero_amount(amount: &str) -> (r: bool)
    ensures
        r == (amount@ != "0"@),
{
    !str_eq(amount, "0")
}

/// Why no key could be offered for submitting the proposal.
#[derive(Clone, Copy, Debug, PartialEq, Eq, Structural)]
pub enum KeysError {
    /// No key holds a balance on the configured network.
    NoKeysWithBalance,
}

/// The names of the keys whose balance flag is set, in key order.
pub open spec fn spec_keys_with_balance(keys: Seq<Key>, has_balance: Seq<bool>) -> Seq<Seq<char>>
    decreases keys.len(),
{
    if keys.len() == 0 {
        Seq::empty()
    } else {
        let init = spec_keys_with_balance(keys.drop_last(), has_balance.drop_last());
        if has_balance[keys.len() - 1] {
            init + seq![keys.last().name@]
        } else {
            init
        }
    }
}

/// Keeps the names of the keys whose balance flag is set, in key order;
/// when none is, no key can submit the proposal and an error is returned.
pub fn filter_keys_with_balance(keys: &Vec<Key>, has_balance: &Vec<bool>) -> (r: Result<
    Vec<String>,
    KeysError,
>)
    requires
        keys@.len() == has_balance@.len(),
    ensures
        ({
            let selected = spec_keys_with_balance(keys@, has_balance@);
            match r {
                Ok(names) => {
                    &&& selected.len() > 0
                    &&& names@.len() == selected.len()
                    &&& forall|i: int| 0 <= i < names@.len() ==> (#[trigger] names@[i])@ == selected[i]
                },
                Err(e) => e == KeysError::NoKeysWithBalance && selected.len() == 0,
            }
        }),
{
    let n = keys.len();
    let mut names: Vec<String> = Vec::new();
    proof {
        assert(keys@.take(0) =~= Seq::<Key>::empty());
        assert(has_balance@.take(0) =~= Seq::<bool>::empty());
    }
    let mut i: usize = 0;
    while i < n
        invariant
            i <= n,
            n == keys@.len(),
            n == has_balance@.len(),
            names@.len() == spec_keys_with_balance(keys@.take(i as int), has_balance@.take(i as int)).len(),
            forall|j: int|
                0 <= j < names@.len() ==> (#[trigger] names@[j])@ == spec_keys_with_balance(
                    keys@.take(i as int),
                    has_balance@.take(i as int),
                )[j],
        decreases n - i,
    {
        proof {
            assert(keys@.take(i + 1).drop_last() =~= keys@.take(i as int));
            assert(has_balance@.take(i + 1).drop_last() =~= has_balance@.take(i as int));
            assert(keys@.take(i + 1).last() == keys@[i as int]);
        }
        if has_balance[i] {
            names.push(keys[i].name.clone());
        }
        i = i + 1;
    }
    proof {
        assert(keys@.take(n as int) =~= keys@);
        assert(has_balance@.take(n as int) =~= has_balance@);
    }
    if names.len() == 0 {
        return Err(KeysError::NoKeysWithBalance);
    }
    Ok(names)
}

} // verus!
