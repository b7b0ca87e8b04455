use vstd::prelude::*;
use crate::address::Address;

verus! {

/// One entry of an instruction's account list.
#[derive(Clone, Copy, Debug)]
pub struct AccountEntry {
    pub key: Address,
    pub is_signer: bool,
    pub is_writable: bool,
}

impl PartialEq for AccountEntry {
    fn eq(&self, other: &AccountEntry) -> (r: bool) {
        self.key.same_as(&other.key) && self.is_signer == other.is_signer && self.is_writable
            == other.is_writable
    }
}

impl vstd::std_specs::cmp::PartialEqSpecImpl for AccountEntry {
    open spec fn obeys_eq_spec() -> bool {
        true
    }

    open spec fn eq_spec(&self, other: &AccountEntry) -> bool {
        self.key.key() == other.key.key() && self.is_signer == other.is_signer
            && self.is_writable == other.is_writable
    }
}

impl Eq for AccountEntry {
}

/// The entry with its signer flag set and everything else kept.
pub open spec fn promoted(e: AccountEntry) -> AccountEntry {
    AccountEntry { is_signer: true, ..e }
}

/// Some entry of `s` has the address `key`.
pub open spec fn has_match(s: Seq<AccountEntry>, key: Seq<u8>) -> bool {
    exists|k: int| 0 <= k < s.len() && s[k].key.key() == key
}

/// `k` is the first position of `s` whose address is `key`.
pub open spec fn is_first_match(s: Seq<AccountEntry>, key: Seq<u8>, k: int) -> bool {
    &&& 0 <= k < s.len()
    &&& s[k].key.key() == key
    &&& forall|j: int| 0 <= j < k ==> s[j].key.key() != key
}

/// `out` is `s` with the first entry whose address is `key` promoted to
/// signer, and every other entry as it was.
pub open spec fn rewritten(s: Seq<AccountEntry>, key: Seq<u8>, out: Seq<AccountEntry>) -> bool {
    exists|k: int| is_first_match(s, key, k) && out == s.update(k, promoted(s[k]))
}

/// Promotes the first entry whose address is `custody` to signer; `None`
/// when no entry has that address.
pub fn rewrite_accounts(accounts: &Vec<AccountEntry>, custody: &Address) -> (r: Option<
    Vec<AccountEntry>,
>)
    ensures
        r is None <==> !has_match(accounts@, custody.key()),
        r is Some ==> rewritten(accounts@, custody.key(), r.unwrap()@),
{
    let n = accounts.len();
    let mut k: usize = 0;
    while k < n
        invariant
            n == accounts@.len(),
            0 <= k <= n,
            forall|j: int| 0 <= j < k ==> accounts@[j].key.key() != custody.key(),
        ensures
            0 <= k <= n,
            k < n ==> accounts@[k as int].key.key() == custody.key(),
            forall|j: int| 0 <= j < k ==> accounts@[j].key.key() != custody.key(),
        decreases n - k,
    {
        if accounts[k].key.same_as(custody) {
            break;
        }
        k = k + 1;
    }
    if k == n {
        return None;
    }
    let mut out: Vec<AccountEntry> = Vec::new();
    let mut i: usize = 0;
    while i < n
        invariant
            n == accounts@.len(),
            k < n,
            0 <= i <= n,
            out@.len() == i,
            forall|j: int|
                0 <= j < i ==> out@[j] == (if j == k {
                    promoted(accounts@[j])
                } else {
                    accounts@[j]
                }),
        decreases n - i,
    {
        let e = accounts[i];
        if i == k {
            out.push(AccountEntry { is_signer: true, ..e });
        } else {
            out.push(e);
        }
        i = i + 1;
    }
    assert(out@ =~= accounts@.update(k as int, promoted(accounts@[k as int])));
    assert(is_first_match(accounts@, custody.key(), k as int));
    Some(out)
}

/// Rewriting touches nothing but the signer flag, and only sets it, and
/// only on an entry whose address is the custody address: every address
/// and every writable flag, and every other signer flag, is kept.
pub proof fn lemma_rewrite_only_promotes_custody(
    accounts: Seq<AccountEntry>,
    custody: Seq<u8>,
    out: Seq<AccountEntry>,
)
    requires
        rewritten(accounts, custody, out),
    ensures
        out.len() == accounts.len(),
        forall|i: int|
            0 <= i < out.len() ==> out[i].key == accounts[i].key && out[i].is_writable
                == accounts[i].is_writable,
        forall|i: int|
            0 <= i < out.len() && out[i].is_signer != accounts[i].is_signer ==> out[i].is_signer
                && accounts[i].key.key() == custody,
        exists|k: int| 0 <= k < out.len() && out[k].is_signer && out[k].key.key() == custody,
{
    let k = choose|k: int| is_first_match(accounts, custody, k) && out == accounts.update(k, promoted(accounts[k]));
    assert(out[k].is_signer);
}

} // verus!
