//! An in-process vault of named secrets (cached tokens), with a key of its
//! own, independent of the store. It holds its entries in memory only.

use vstd::prelude::*;

use crate::secret::{zeroed, SecretKey};

verus! {

/// Errors of the vault.
#[derive(Debug, Clone, Copy, PartialEq, Eq, Structural)]
pub enum VaultError {
    /// The vault was used before `init`.
    VaultUninitialized,
    /// `init` was called a second time.
    AlreadyInitialized,
    /// No secret is stored under the name.
    EntryNotFound,
}

/// The message of a vault error.
pub open spec fn vault_error_message(e: VaultError) -> Seq<char> {
    match e {
        VaultError::VaultUninitialized => "The credential vault has not been initialized."@,
        VaultError::AlreadyInitialized => "The credential vault is already initialized."@,
        VaultError::EntryNotFound => "No credential is stored under that name."@,
    }
}

impl VaultError {
    /// A human-readable message for the error. It never holds key or token
    /// material.
    pub fn message(&self) -> (r: &'static str)
        ensures
            r@ == vault_error_message(*self),
    {
        match self {
            VaultError::VaultUninitialized => "The credential vault has not been initialized.",
            VaultError::AlreadyInitialized => "The credential vault is already initialized.",
            VaultError::EntryNotFound => "No credential is stored under that name.",
        }
    }
}

/// A named secret.
pub struct VaultEntry {
    pub name: String,
    pub secret: Vec<u8>,
}

/// The mathematical state of a vault: its key, once initialised, and the
/// secret stored under each name.
pub struct VaultModel {
    pub key: Option<Seq<u8>>,
    pub entries: Map<Seq<char>, Seq<u8>>,
}

impl VaultModel {
    /// Whether `init` has succeeded (and `close` has not followed).
    pub open spec fn initialized(self) -> bool {
        self.key is Some
    }
}

/// No two entries have the same name.
pub open spec fn names_unique(s: Seq<VaultEntry>) -> bool {
    forall|i: int, j: int|
        0 <= i < s.len() && 0 <= j < s.len() && i != j ==> #[trigger] s[i].name@ != #[trigger] s[j].name@
}

/// Some entry of `s` has the name `n`.
pub open spec fn has_name(s: Seq<VaultEntry>, n: Seq<char>) -> bool {
    exists|i: int| 0 <= i < s.len() && #[trigger] s[i].name@ == n
}

/// The secret stored under each name in `s`.
pub open spec fn contents(s: Seq<VaultEntry>) -> Map<Seq<char>, Seq<u8>> {
    Map::new(
        |n: Seq<char>| has_name(s, n),
        |n: Seq<char>| s[choose|i: int| 0 <= i < s.len() && #[trigger] s[i].name@ == n].secret@,
    )
}

proof fn lemma_contents_at(s: Seq<VaultEntry>, i: int)
    requires
        names_unique(s),
        0 <= i < s.len(),
    ensures
        contents(s).contains_key(s[i].name@),
        contents(s)[s[i].name@] == s[i].secret@,
{
    let n = s[i].name@;
    assert(has_name(s, n));
    let j = choose|j: int| 0 <= j < s.len() && #[trigger] s[j].name@ == n;
    assert(j == i);
}

/// Overwrites every byte of `bytes` with zero.
fn wipe_bytes(bytes: &mut Vec<u8>)
    ensures
        final(bytes)@ == zeroed(old(bytes)@.len()),
{
    let n = bytes.len();
    let mut i: usize = 0;
    while i < n
        invariant
            i <= n,
            n == bytes@.len(),
            forall|k: int| 0 <= k < i ==> #[trigger] bytes@[k] == 0u8,
        decreases n - i,
    {
        bytes.set(i, 0u8);
        i += 1;
    }
    assert(bytes@ =~= zeroed(n as nat));
}

/// A vault of named secrets.
pub struct CredentialVault {
    key: Option<SecretKey>,
    entries: Vec<VaultEntry>,
}

impl View for CredentialVault {
    type V = VaultModel;

    closed spec fn view(&self) -> VaultModel {
        VaultModel {
            key: match self.key {
                Some(k) => Some(k@),
                None => None,
            },
            entries: contents(self.entries@),
        }
    }
}

impl CredentialVault {
    #[verifier::type_invariant]
    spec fn inv(&self) -> bool {
        names_unique(self.entries@)
    }

    /// A vault not yet initialised, with no entries.
    pub fn new() -> (r: Self)
        ensures
            !r@.initialized(),
            r@.entries == Map::<Seq<char>, Seq<u8>>::empty(),
    {
        let r = CredentialVault { key: None, entries: Vec::new() };
        assert(r@.entries =~= Map::<Seq<char>, Seq<u8>>::empty());
        r
    }

    /// Whether `init` has succeeded.
    pub fn is_initialized(&self) -> (r: bool)
        ensures
            r == self@.initialized(),
    {
        match &self.key {
            Some(_) => true,
            None => false,
        }
    }

    /// Initialises the vault with its key; a second call fails with
    /// `AlreadyInitialized` and changes nothing.
    pub fn init(&mut self, vault_key: SecretKey) -> (r: Result<(), VaultError>)
        ensures
            match r {
                Ok(()) => !old(self)@.initialized(),
                Err(e) => old(self)@.initialized() && e == VaultError::AlreadyInitialized,
            },
            final(self)@.key == if old(self)@.initialized() {
                old(self)@.key
            } else {
                Some(vault_key@)
            },
            final(self)@.entries == old(self)@.entries,
    {
        proof {
            use_type_invariant(&*self);
        }
        if self.is_initialized() {
            return Err(VaultError::AlreadyInitialized);
        }
        self.key = Some(vault_key);
        Ok(())
    }

    /// Stores `secret` under `name`, replacing what was stored there.
    pub fn insert(&mut self, name: &str, secret: Vec<u8>) -> (r: Result<(), VaultError>)
        ensures
            match r {
                Ok(()) => {
                    &&& old(self)@.initialized()
                    &&& final(self)@.entries == old(self)@.entries.insert(name@, secret@)
                },
                Err(e) => !old(self)@.initialized() && e == VaultError::VaultUninitialized
                    && final(self)@ == old(self)@,
            },
            final(self)@.key == old(self)@.key,
    {
        if !self.is_initialized() {
            return Err(VaultError::VaultUninitialized);
        }
        proof {
            use_type_invariant(&*self);
        }
        let ghost old_entries = self.entries@;
        let entry = VaultEntry { name: name.to_owned(), secret };
        let found = self.position(name);
        let mut taken = CredentialVault { key: None, entries: Vec::new() };
        std::mem::swap(self, &mut taken);
        let CredentialVault { key, mut entries } = taken;
        match found {
            Some(i) => {
                entries.set(i, entry);
                proof {
                    let s = entries@;
                    assert(names_unique(s));
                    assert forall|n: Seq<char>| #[trigger]
                        contents(s).contains_key(n) == contents(old_entries).insert(
                            name@,
                            secret@,
                        ).contains_key(n) by {
                        if has_name(old_entries, n) {
                            let k = choose|k: int|
                                0 <= k < old_entries.len() && #[trigger] old_entries[k].name@ == n;
                            assert(s[k].name@ == n);
                        }
                        if has_name(s, n) {
                            let k = choose|k: int| 0 <= k < s.len() && #[trigger] s[k].name@ == n;
                            assert(old_entries[k].name@ == n);
                        }
                    }
                    assert forall|n: Seq<char>| #[trigger] contents(s).contains_key(n) implies contents(
                        s,
                    )[n] == contents(old_entries).insert(name@, secret@)[n] by {
                        let k = choose|k: int| 0 <= k < s.len() && #[trigger] s[k].name@ == n;
                        lemma_contents_at(s, k);
                        if k != i {
                            lemma_contents_at(old_entries, k);
                        }
                    }
                    assert(contents(s) =~= contents(old_entries).insert(name@, secret@));
                }
            },
            None => {
                entries.push(entry);
                proof {
                    let s = entries@;
                    let last = s.len() - 1;
                    assert(names_unique(s));
                    assert forall|n: Seq<char>| #[trigger]
                        contents(s).contains_key(n) == contents(old_entries).insert(
                            name@,
                            secret@,
                        ).contains_key(n) by {
                        if has_name(old_entries, n) {
                            let k = choose|k: int|
                                0 <= k < old_entries.len() && #[trigger] old_entries[k].name@ == n;
                            assert(s[k].name@ == n);
                        }
                        if n == name@ {
                            assert(s[last].name@ == n);
                        }
                        if has_name(s, n) {
                            let k = choose|k: int| 0 <= k < s.len() && #[trigger] s[k].name@ == n;
                            if k < last {
                                assert(old_entries[k].name@ == n);
                            }
                        }
                    }
                    assert forall|n: Seq<char>| #[trigger] contents(s).contains_key(n) implies contents(
                        s,
                    )[n] == contents(old_entries).insert(name@, secret@)[n] by {
                        let k = choose|k: int| 0 <= k < s.len() && #[trigger] s[k].name@ == n;
                        lemma_contents_at(s, k);
                        if k != last {
                            lemma_contents_at(old_entries, k);
                        }
                    }
                    assert(contents(s) =~= contents(old_entries).insert(name@, secret@));
                }
            },
        }
        *self = CredentialVault { key, entries };
        Ok(())
    }

    /// Retires the vault: every stored secret is overwritten with zeros and
    /// dropped, and the key is wiped and handed back. The vault is then
    /// uninitialised and empty.
    pub fn close(&mut self) -> (r: Option<SecretKey>)
        ensures
            match old(self)@.key {
                Some(k) => r matches Some(w) && w@ == zeroed(k.len()),
                None => r is None,
            },
            !final(self)@.initialized(),
            final(self)@.entries == Map::<Seq<char>, Seq<u8>>::empty(),
    {
        let mut taken = CredentialVault { key: None, entries: Vec::new() };
        std::mem::swap(self, &mut taken);
        let CredentialVault { key, mut entries } = taken;
        while entries.len() > 0
            decreases entries@.len(),
        {
            match entries.pop() {
                Some(entry) => {
                    let mut secret = entry.secret;
                    wipe_bytes(&mut secret);
                },
                None => {},
            }
        }
        assert(self.entries@ =~= Seq::<VaultEntry>::empty());
        assert(contents(self.entries@) =~= Map::<Seq<char>, Seq<u8>>::empty());
        match key {
            Some(k) => {
                let mut k = k;
                k.wipe();
                Some(k)
            },
            None => None,
        }
    }

    /// The secret stored under `name`.
    pub fn get(&self, name: &str) -> (r: Result<Vec<u8>, VaultError>)
        ensures
            match r {
                Ok(v) => self@.initialized() && self@.entries.contains_key(name@) && v@
                    == self@.entries[name@],
                Err(e) => if !self@.initialized() {
                    e == VaultError::VaultUninitialized
                } else {
                    !self@.entries.contains_key(name@) && e == VaultError::EntryNotFound
                },
            },
    {
        if !self.is_initialized() {
            return Err(VaultError::VaultUninitialized);
        }
        proof {
            use_type_invariant(self);
        }
        match self.position(name) {
            Some(i) => {
                proof {
                    lemma_contents_at(self.entries@, i as int);
                }
                Ok(self.entries[i].secret.clone())
            },
            None => Err(VaultError::EntryNotFound),
        }
    }

    /// The index of the entry named `name`, if any.
    fn position(&self, name: &str) -> (r: Option<usize>)
        ensures
            match r {
                Some(i) => i < self.entries@.len() && self.entries@[i as int].name@ == name@,
                None => !has_name(self.entries@, name@),
            },
    {
        let wanted = name.to_owned();
        let mut i: usize = 0;
        while i < self.entries.len()
            invariant
                i <= self.entries@.len(),
                wanted@ == name@,
                forall|k: int| 0 <= k < i ==> #[trigger] self.entries@[k].name@ != name@,
            decreases self.entries@.len() - i,
        {
            if self.entries[i].name == wanted {
                return Some(i);
            }
            i += 1;
        }
        None
    }
}

} // verus!
