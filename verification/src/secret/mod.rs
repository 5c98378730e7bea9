//! Secret store: an opaque mapping from aliases to secret bytes.
//!
//! The platform implementation forwards to the Android Keystore; tests and
//! hosts without one use [`InMemorySecretStore`].

use vstd::prelude::*;
use vstd::utf8::{decode_utf8, valid_utf8};

pub mod jni;

use crate::text::{chars_of, push_decimal, push_str, decimal, seq_eq};

verus! {

/// Errors returned by a secret store.
#[derive(Debug)]
pub enum SecretError {
    NotFound(String),
    Backend(String),
}

/// The human-readable text of a secret-store error.
pub open spec fn secret_error_text(e: SecretError) -> Seq<char> {
    match e {
        SecretError::NotFound(a) => "unknown alias: "@ + a@,
        SecretError::Backend(m) => "backend error: "@ + m@,
    }
}

impl SecretError {
    /// The human-readable text of this error.
    pub fn display_string(&self) -> (s: String)
        ensures
            s@ == secret_error_text(*self),
    {
        let mut s = String::new();
        match self {
            SecretError::NotFound(a) => {
                push_str(&mut s, "unknown alias: ");
                push_str(&mut s, a.as_str());
            },
            SecretError::Backend(m) => {
                push_str(&mut s, "backend error: ");
                push_str(&mut s, m.as_str());
            },
        }
        assert(s@ =~= secret_error_text(*self));
        s
    }
}

/// An owned buffer of secret bytes. Its debug text never shows the bytes.
pub struct SecretBytes(Vec<u8>);

impl View for SecretBytes {
    type V = Seq<u8>;

    closed spec fn view(&self) -> Seq<u8> {
        self.0@
    }
}

/// std's error for bytes that are not UTF-8.
#[verifier::external_type_specification]
#[verifier::external_body]
pub struct ExUtf8Error(std::str::Utf8Error);

/// Reads bytes as UTF-8 text (std `str::from_utf8`): text exactly when the
/// bytes are valid UTF-8, holding their decoding.
#[verifier::external_body]
fn str_from_utf8(v: &[u8]) -> (r: Result<&str, std::str::Utf8Error>)
    ensures
        r is Ok <==> valid_utf8(v@),
        r matches Ok(s) ==> s@ == decode_utf8(v@),
{
    std::str::from_utf8(v)
}

/// The display text of a UTF-8 error (std `ToString` on `Utf8Error`). The
/// text describes where decoding failed; its content is not stated.
#[verifier::external_body]
fn utf8_error_text(e: &std::str::Utf8Error) -> String {
    e.to_string()
}

/// The debug text of a secret buffer: its length only.
pub open spec fn secret_debug_text(len: nat) -> Seq<char> {
    "SecretBytes(<"@ + decimal(len) + " bytes>)"@
}

impl SecretBytes {
    pub fn new(v: Vec<u8>) -> (s: SecretBytes)
        ensures
            s@ == v@,
    {
        SecretBytes(v)
    }

    pub fn as_slice(&self) -> (r: &[u8])
        ensures
            r@ == self@,
    {
        self.0.as_slice()
    }

    /// The bytes as text, when they are valid UTF-8.
    pub fn as_str(&self) -> (r: Result<&str, std::str::Utf8Error>)
        ensures
            r is Ok <==> valid_utf8(self@),
            r matches Ok(s) ==> s@ == decode_utf8(self@),
    {
        str_from_utf8(self.0.as_slice())
    }

    /// The debug text: `SecretBytes(<N bytes>)`, never the bytes.
    pub fn debug_string(&self) -> (s: String)
        ensures
            s@ == secret_debug_text(self@.len()),
    {
        let mut s = String::new();
        push_str(&mut s, "SecretBytes(<");
        push_decimal(&mut s, self.0.len() as u64);
        push_str(&mut s, " bytes>)");
        assert(s@ =~= secret_debug_text(self@.len()));
        s
    }
}

/// A store of secrets by alias. A store that keeps to the model
/// ([`SecretStore::keeps_model`]) answers from the mapping from alias to
/// bytes that it holds ([`SecretStore::secrets`]), and a change it refuses
/// leaves that mapping as it was. A store whose contents Verus cannot see
/// (one implemented outside the library) keeps the defaults, under which
/// nothing is claimed of it.
pub trait SecretStore {
    /// Whether the store's answers follow [`SecretStore::secrets`].
    open spec fn keeps_model() -> bool {
        false
    }

    /// The secrets the store holds, by alias.
    open spec fn secrets(&self) -> Map<Seq<char>, Seq<u8>> {
        Map::empty()
    }

    /// Whether the store, as it is, refuses to store `value` under `alias`.
    open spec fn refuses(&self, alias: Seq<char>, value: Seq<u8>) -> bool {
        true
    }

    /// The secret under `alias`: a value only when the store holds one
    /// there, and `NotFound` only when it holds none.
    fn get(&self, alias: &str) -> (r: Result<SecretBytes, SecretError>)
        ensures
            Self::keeps_model() ==> {
                &&& r matches Ok(b) ==> self.secrets().contains_key(alias@) && b@ == self.secrets()[alias@]
                &&& r matches Err(SecretError::NotFound(_)) ==> !self.secrets().contains_key(alias@)
            };

    /// Stores `value` under `alias`, replacing any earlier value; it fails
    /// exactly when the store refuses the value, and then nothing changes.
    fn put(&mut self, alias: &str, value: &[u8]) -> (r: Result<(), SecretError>)
        ensures
            Self::keeps_model() ==> {
                &&& r is Err <==> old(self).refuses(alias@, value@)
                &&& r is Ok ==> final(self).secrets() == old(self).secrets().insert(alias@, value@)
                &&& r is Err ==> final(self).secrets() == old(self).secrets()
            };

    /// Removes any secret under `alias`; on an error nothing changes.
    fn delete(&mut self, alias: &str) -> (r: Result<(), SecretError>)
        ensures
            Self::keeps_model() ==> {
                &&& r is Ok ==> final(self).secrets() == old(self).secrets().remove(alias@)
                &&& r is Err ==> final(self).secrets() == old(self).secrets()
            };
}

/// The mapping held by a list of entries.
pub open spec fn entries_map(entries: Seq<(String, Vec<u8>)>) -> Map<Seq<char>, Seq<u8>>
    decreases entries.len(),
{
    if entries.len() == 0 {
        Map::empty()
    } else {
        entries_map(entries.drop_last()).insert(entries.last().0@, entries.last().1@)
    }
}

/// No two entries share an alias.
pub open spec fn unique_aliases(entries: Seq<(String, Vec<u8>)>) -> bool {
    forall|i: int, j: int| 0 <= i < j < entries.len() ==> entries[i].0@ != entries[j].0@
}

proof fn lemma_map_absent(entries: Seq<(String, Vec<u8>)>, k: Seq<char>)
    requires
        forall|i: int| 0 <= i < entries.len() ==> entries[i].0@ != k,
    ensures
        !entries_map(entries).contains_key(k),
    decreases entries.len(),
{
    if entries.len() > 0 {
        let init = entries.drop_last();
        assert forall|i: int| 0 <= i < init.len() implies init[i].0@ != k by {
            assert(init[i] == entries[i]);
        }
        lemma_map_absent(init, k);
    }
}

proof fn lemma_map_present(entries: Seq<(String, Vec<u8>)>, i: int)
    requires
        unique_aliases(entries),
        0 <= i < entries.len(),
    ensures
        entries_map(entries).contains_key(entries[i].0@),
        entries_map(entries)[entries[i].0@] == entries[i].1@,
    decreases entries.len(),
{
    let init = entries.drop_last();
    if i < entries.len() - 1 {
        assert(init[i] == entries[i]);
        lemma_map_present(init, i);
    }
}

proof fn lemma_map_update(entries: Seq<(String, Vec<u8>)>, i: int, e: (String, Vec<u8>))
    requires
        unique_aliases(entries),
        0 <= i < entries.len(),
        entries[i].0@ == e.0@,
    ensures
        entries_map(entries.update(i, e)) == entries_map(entries).insert(e.0@, e.1@),
    decreases entries.len(),
{
    let init = entries.drop_last();
    let up = entries.update(i, e);
    if i == entries.len() - 1 {
        assert(up.drop_last() =~= init);
        assert(entries_map(init).insert(entries.last().0@, entries.last().1@).insert(e.0@, e.1@) =~= entries_map(init).insert(e.0@, e.1@));
    } else {
        lemma_map_update(init, i, e);
        assert(up.drop_last() =~= init.update(i, e));
        assert(entries.last().0@ != e.0@);
        assert(entries_map(up) =~= entries_map(entries).insert(e.0@, e.1@));
    }
}

proof fn lemma_map_remove(entries: Seq<(String, Vec<u8>)>, i: int)
    requires
        unique_aliases(entries),
        0 <= i < entries.len(),
    ensures
        entries_map(entries.remove(i)) == entries_map(entries).remove(entries[i].0@),
    decreases entries.len(),
{
    let init = entries.drop_last();
    let k = entries[i].0@;
    if i == entries.len() - 1 {
        assert(entries.remove(i) =~= init);
        assert forall|j: int| 0 <= j < init.len() implies init[j].0@ != k by {
            assert(init[j] == entries[j]);
        }
        lemma_map_absent(init, k);
        assert(entries_map(init) =~= entries_map(entries).remove(k));
    } else {
        lemma_map_remove(init, i);
        assert(entries.remove(i).drop_last() =~= init.remove(i));
        assert(entries.remove(i).last() == entries.last());
        assert(entries.last().0@ != k);
        assert(entries_map(entries.remove(i)) =~= entries_map(entries).remove(k));
    }
}

/// In-memory implementation; used by tests and as a fallback when the host
/// platform has no secret store available.
pub struct InMemorySecretStore {
    entries: Vec<(String, Vec<u8>)>,
}

impl View for InMemorySecretStore {
    type V = Map<Seq<char>, Seq<u8>>;

    closed spec fn view(&self) -> Map<Seq<char>, Seq<u8>> {
        entries_map(self.entries@)
    }
}

/// What a lookup in a secret mapping answers.
pub open spec fn lookup_result(m: Map<Seq<char>, Seq<u8>>, alias: Seq<char>, r: Result<SecretBytes, SecretError>) -> bool {
    if m.contains_key(alias) {
        r matches Ok(b) && b@ == m[alias]
    } else {
        r matches Err(SecretError::NotFound(a)) && a@ == alias
    }
}

impl InMemorySecretStore {
    #[verifier::type_invariant]
    closed spec fn inv(self) -> bool {
        unique_aliases(self.entries@)
    }

    pub fn new() -> (s: InMemorySecretStore)
        ensures
            s@ == Map::<Seq<char>, Seq<u8>>::empty(),
    {
        InMemorySecretStore { entries: Vec::new() }
    }

    /// The index of the entry for `alias`, if any.
    fn find(&self, alias: &Vec<char>) -> (r: Option<usize>)
        ensures
            match r {
                Some(i) => i < self.entries@.len() && self.entries@[i as int].0@ == alias@,
                None => forall|i: int| 0 <= i < self.entries@.len() ==> self.entries@[i].0@ != alias@,
            },
    {
        let mut i: usize = 0;
        while i < self.entries.len()
            invariant
                i <= self.entries@.len(),
                forall|j: int| 0 <= j < i ==> self.entries@[j].0@ != alias@,
            decreases self.entries@.len() - i,
        {
            let kc = chars_of(self.entries[i].0.as_str());
            if seq_eq(&kc, alias) {
                return Some(i);
            }
            i = i + 1;
        }
        None
    }

    /// The secret stored under `alias`, or `NotFound(alias)`.
    pub fn get(&self, alias: &str) -> (r: Result<SecretBytes, SecretError>)
        ensures
            lookup_result(self@, alias@, r),
    {
        proof {
            use_type_invariant(self);
        }
        let ac = chars_of(alias);
        match self.find(&ac) {
            Some(i) => {
                proof { lemma_map_present(self.entries@, i as int); }
                Ok(SecretBytes::new(self.entries[i].1.clone()))
            },
            None => {
                proof { lemma_map_absent(self.entries@, alias@); }
                Err(SecretError::NotFound(alias.to_owned()))
            },
        }
    }

    /// Stores `value` under `alias`, replacing any earlier value.
    pub fn put(&mut self, alias: &str, value: &[u8]) -> (r: Result<(), SecretError>)
        ensures
            r is Ok,
            final(self)@ == old(self)@.insert(alias@, value@),
    {
        proof {
            use_type_invariant(&*self);
        }
        let ac = chars_of(alias);
        let v = vstd::slice::slice_to_vec(value);
        let ghost old_entries = self.entries@;
        let mut entries: Vec<(String, Vec<u8>)> = Vec::new();
        std::mem::swap(&mut entries, &mut self.entries);
        match self.find_in(&entries, &ac) {
            Some(i) => {
                let e = (alias.to_owned(), v);
                proof { lemma_map_update(entries@, i as int, e); }
                entries.set(i, e);
            },
            None => {
                let e = (alias.to_owned(), v);
                entries.push(e);
                proof {
                    assert(entries@.drop_last() =~= old_entries);
                }
            },
        }
        proof {
            assert(unique_aliases(entries@));
            assert(entries_map(entries@) =~= entries_map(old_entries).insert(alias@, value@));
        }
        self.entries = entries;
        Ok(())
    }

    /// Removes any secret stored under `alias`.
    pub fn delete(&mut self, alias: &str) -> (r: Result<(), SecretError>)
        ensures
            r is Ok,
            final(self)@ == old(self)@.remove(alias@),
    {
        proof {
            use_type_invariant(&*self);
        }
        let ac = chars_of(alias);
        let ghost old_entries = self.entries@;
        let mut entries: Vec<(String, Vec<u8>)> = Vec::new();
        std::mem::swap(&mut entries, &mut self.entries);
        match self.find_in(&entries, &ac) {
            Some(i) => {
                proof { lemma_map_remove(entries@, i as int); }
                entries.remove(i);
                proof {
                    assert forall|a: int, b: int| 0 <= a < b < entries@.len() implies entries@[a].0@ != entries@[b].0@ by {
                        let oa = if a < i { a } else { a + 1 };
                        let ob = if b < i { b } else { b + 1 };
                        assert(entries@[a] == old_entries[oa]);
                        assert(entries@[b] == old_entries[ob]);
                    }
                }
            },
            None => {
                proof {
                    lemma_map_absent(old_entries, alias@);
                    assert(entries_map(old_entries) =~= entries_map(old_entries).remove(alias@));
                }
            },
        }
        self.entries = entries;
        Ok(())
    }

    fn find_in(&self, entries: &Vec<(String, Vec<u8>)>, alias: &Vec<char>) -> (r: Option<usize>)
        ensures
            match r {
                Some(i) => i < entries@.len() && entries@[i as int].0@ == alias@,
                None => forall|i: int| 0 <= i < entries@.len() ==> entries@[i].0@ != alias@,
            },
    {
        let mut i: usize = 0;
        while i < entries.len()
            invariant
                i <= entries@.len(),
                forall|j: int| 0 <= j < i ==> entries@[j].0@ != alias@,
            decreases entries@.len() - i,
        {
            let kc = chars_of(entries[i].0.as_str());
            if seq_eq(&kc, alias) {
                return Some(i);
            }
            i = i + 1;
        }
        None
    }
}

impl SecretStore for InMemorySecretStore {
    open spec fn keeps_model() -> bool {
        true
    }

    open spec fn secrets(&self) -> Map<Seq<char>, Seq<u8>> {
        self@
    }

    open spec fn refuses(&self, alias: Seq<char>, value: Seq<u8>) -> bool {
        false
    }

    fn get(&self, alias: &str) -> (r: Result<SecretBytes, SecretError>)
        ensures
            lookup_result(self@, alias@, r),
    {
        InMemorySecretStore::get(self, alias)
    }

    fn put(&mut self, alias: &str, value: &[u8]) -> (r: Result<(), SecretError>)
        ensures
            r is Ok,
            final(self)@ == old(self)@.insert(alias@, value@),
    {
        InMemorySecretStore::put(self, alias, value)
    }

    fn delete(&mut self, alias: &str) -> (r: Result<(), SecretError>)
        ensures
            r is Ok,
            final(self)@ == old(self)@.remove(alias@),
    {
        InMemorySecretStore::delete(self, alias)
    }
}

/// Whether `r` is the text that the store's answer `got` resolves to: the
/// decoded bytes when they are UTF-8, a backend error `not utf-8: ...` when
/// they are not, and the store's own error otherwise.
pub open spec fn text_answer(got: Result<SecretBytes, SecretError>, r: Result<String, SecretError>) -> bool {
    match got {
        Ok(b) => if valid_utf8(b@) {
            r matches Ok(s) && s@ == decode_utf8(b@)
        } else {
            r matches Err(SecretError::Backend(m)) && m@.len() >= 11 && m@.subrange(0, 11) == "not utf-8: "@
        },
        Err(e) => r == Err::<String, SecretError>(e),
    }
}

/// The text a secret resolves to, given the store's answer: the decoded
/// bytes when they are UTF-8, a backend error `not utf-8: ...` when they are
/// not, and the store's own error otherwise.
pub fn secret_str_from(got: Result<SecretBytes, SecretError>) -> (r: Result<String, SecretError>)
    ensures
        text_answer(got, r),
{
    match got {
        Ok(bytes) => match bytes.as_str() {
            Ok(s) => Ok(s.to_owned()),
            Err(e) => {
                let mut m = String::new();
                push_str(&mut m, "not utf-8: ");
                let t = utf8_error_text(&e);
                push_str(&mut m, t.as_str());
                proof {
                    reveal_strlit("not utf-8: ");
                    assert(m@.subrange(0, 11) =~= "not utf-8: "@);
                }
                Err(SecretError::Backend(m))
            },
        },
        Err(e) => Err(e),
    }
}

/// Convenience accessor: the secret under `alias` as UTF-8 text (typical
/// for API keys). What the store answers is its own; the rest is
/// decided by [`secret_str_from`].
pub fn resolve_secret_str<S: SecretStore>(store: &S, alias: &str) -> (r: Result<String, SecretError>)
    ensures
        exists|got: Result<SecretBytes, SecretError>|
            #[trigger] call_ensures(S::get, (store, alias), got) && text_answer(got, r),
{
    let got = store.get(alias);
    secret_str_from(got)
}

/// Convenience accessor for non-text secrets: the store's answer for
/// `alias`.
pub fn resolve_secret_bytes<S: SecretStore>(store: &S, alias: &str) -> (r: Result<SecretBytes, SecretError>)
    ensures
        call_ensures(S::get, (store, alias), r),
{
    store.get(alias)
}

/// A secret read back after it was stored is the stored value.
pub proof fn law_get_after_put(m: Map<Seq<char>, Seq<u8>>, alias: Seq<char>, value: Seq<u8>, r: Result<SecretBytes, SecretError>)
    requires
        lookup_result(m.insert(alias, value), alias, r),
    ensures
        r matches Ok(b) && b@ == value,
{
}

/// After a delete, reading the alias reports it unknown, by name.
pub proof fn law_get_after_delete(m: Map<Seq<char>, Seq<u8>>, alias: Seq<char>, r: Result<SecretBytes, SecretError>)
    requires
        lookup_result(m.remove(alias), alias, r),
    ensures
        r matches Err(SecretError::NotFound(a)) && a@ == alias,
{
}

/// Storing or deleting one alias leaves every other alias as it was.
pub proof fn law_other_aliases_untouched(m: Map<Seq<char>, Seq<u8>>, alias: Seq<char>, other: Seq<char>, value: Seq<u8>)
    requires
        alias != other,
    ensures
        m.insert(alias, value).contains_key(other) == m.contains_key(other),
        m.insert(alias, value).contains_key(other) ==> m.insert(alias, value)[other] == m[other],
        m.remove(alias).contains_key(other) == m.contains_key(other),
        m.remove(alias).contains_key(other) ==> m.remove(alias)[other] == m[other],
{
}

/// Deleting twice is deleting once; storing the same value twice is
/// storing it once.
pub proof fn law_idempotent(m: Map<Seq<char>, Seq<u8>>, alias: Seq<char>, value: Seq<u8>)
    ensures
        m.remove(alias).remove(alias) == m.remove(alias),
        m.insert(alias, value).insert(alias, value) == m.insert(alias, value),
{
    assert(m.remove(alias).remove(alias) =~= m.remove(alias));
    assert(m.insert(alias, value).insert(alias, value) =~= m.insert(alias, value));
}

} // verus!
