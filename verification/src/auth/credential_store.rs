//! Persistence of sessions, one per profile. The store interface is specified
//! over a map from profile names to session contents; the in-memory store
//! implements it verified, and the file-backed core prepares paths and
//! payloads for the surrounding program's filesystem layer.

use vstd::prelude::*;

use crate::auth::envelope::{
    encode_envelope, parse_envelope, spec_encode_envelope, spec_parse_envelope, SessionEnvelope,
};
use crate::auth::error::AuthError;
use crate::auth::session::{clone_session, AuthSession, SessionView};
use crate::config::ConfigLocator;
use crate::strutil::{chars_eq_str, str_chars};
use crate::time::Timestamp;

verus! {

/// Persistence abstraction for authentication credentials: a map from
/// profile names to stored sessions.
pub trait CredentialStore: Sized {
    /// The stored sessions, by profile name. Verified implementations
    /// override this; the default stands for stores Verus does not see.
    open spec fn model(&self) -> Map<Seq<char>, SessionView> {
        Map::empty()
    }

    /// Load the session stored for a profile; a profile with nothing stored
    /// yields `None`, not an error.
    fn load(&self, profile: &str) -> (r: Result<Option<AuthSession>, AuthError>)
        ensures
            r matches Ok(o) ==> match o {
                Some(s) => self.model().contains_key(profile@) && s@ == self.model()[profile@],
                None => !self.model().contains_key(profile@),
            },
    ;

    /// Store a session for a profile, replacing any previous one.
    fn save(&mut self, profile: &str, session: &AuthSession) -> (r: Result<(), AuthError>)
        ensures
            r is Ok ==> final(self).model() == old(self).model().insert(profile@, session@),
    ;

    /// Remove the session stored for a profile; removing a profile with
    /// nothing stored succeeds.
    fn delete(&mut self, profile: &str) -> (r: Result<(), AuthError>)
        ensures
            r is Ok ==> final(self).model() == old(self).model().remove(profile@),
    ;
}

/// The map denoted by a sequence of profile/session entries; the first entry
/// for a profile wins.
pub open spec fn entries_model(es: Seq<(String, AuthSession)>) -> Map<Seq<char>, SessionView>
    decreases es.len(),
{
    if es.len() == 0 {
        Map::empty()
    } else {
        entries_model(es.drop_first()).insert(es[0].0@, es[0].1@)
    }
}

/// Entries whose profile is not `k` do not decide `k`.
proof fn lemma_model_skip(es: Seq<(String, AuthSession)>, i: int, k: Seq<char>)
    requires
        0 <= i <= es.len(),
        forall|j: int| 0 <= j < i ==> (#[trigger] es[j]).0@ != k,
    ensures
        entries_model(es).contains_key(k) == entries_model(es.skip(i)).contains_key(k),
        entries_model(es).contains_key(k) ==> entries_model(es)[k] == entries_model(es.skip(i))[k],
    decreases i,
{
    if i == 0 {
        assert(es.skip(0) =~= es);
    } else {
        lemma_model_skip(es, i - 1, k);
        let pre = es.skip(i - 1);
        assert(pre.len() > 0);
        assert(pre.drop_first() =~= es.skip(i));
        assert(pre[0] == es[i - 1]);
        let m1 = entries_model(pre);
        let m0 = entries_model(es.skip(i));
        assert(m1 == m0.insert(pre[0].0@, pre[0].1@));
        assert(es[i - 1].0@ != k);
        assert(m1.contains_key(k) == m0.contains_key(k));
        assert(m1.contains_key(k) ==> m1[k] == m0[k]);
    }
}

/// The entries with profile `k` removed.
pub open spec fn entries_without(es: Seq<(String, AuthSession)>, k: Seq<char>) -> Seq<
    (String, AuthSession),
>
    decreases es.len(),
{
    if es.len() == 0 {
        es
    } else if es[0].0@ == k {
        entries_without(es.drop_first(), k)
    } else {
        seq![es[0]] + entries_without(es.drop_first(), k)
    }
}

/// Filtering a profile out of the entries removes it from the model.
proof fn lemma_model_without(es: Seq<(String, AuthSession)>, k: Seq<char>)
    ensures
        entries_model(entries_without(es, k)) == entries_model(es).remove(k),
    decreases es.len(),
{
    if es.len() == 0 {
        assert(entries_model(es) =~= Map::<Seq<char>, SessionView>::empty());
        assert(entries_model(es).remove(k) =~= entries_model(es));
    } else {
        lemma_model_without(es.drop_first(), k);
        if es[0].0@ == k {
            assert(entries_model(es).remove(k) =~= entries_model(es.drop_first()).remove(k));
        } else {
            let w = entries_without(es, k);
            assert(w == seq![es[0]] + entries_without(es.drop_first(), k));
            assert(w[0] == es[0]);
            assert(w.drop_first() =~= entries_without(es.drop_first(), k));
            assert(entries_model(es).remove(k) =~= entries_model(es.drop_first()).remove(k).insert(
                es[0].0@,
                es[0].1@,
            ));
        }
    }
}

/// An in-memory credential store: the production interface over a plain
/// vector, useful as a substitute for the file store in tests.
pub struct MemoryCredentialStore {
    entries: Vec<(String, AuthSession)>,
}

impl MemoryCredentialStore {
    /// An empty store.
    pub fn new() -> (r: MemoryCredentialStore)
        ensures
            r.model() == Map::<Seq<char>, SessionView>::empty(),
    {
        let r = MemoryCredentialStore { entries: Vec::new() };
        proof {
            assert(r.entries@ =~= Seq::<(String, AuthSession)>::empty());
        }
        r
    }
}

impl CredentialStore for MemoryCredentialStore {
    closed spec fn model(&self) -> Map<Seq<char>, SessionView> {
        entries_model(self.entries@)
    }

    fn load(&self, profile: &str) -> (r: Result<Option<AuthSession>, AuthError>)
        ensures
            r matches Ok(o) ==> match o {
                Some(s) => self.model().contains_key(profile@) && s@ == self.model()[profile@],
                None => !self.model().contains_key(profile@),
            },
            r is Ok,
    {
        let mut i: usize = 0;
        while i < self.entries.len()
            invariant
                i <= self.entries@.len(),
                forall|j: int| 0 <= j < i ==> (#[trigger] self.entries@[j]).0@ != profile@,
            decreases self.entries@.len() - i,
        {
            let key_chars = str_chars(self.entries[i].0.as_str());
            if chars_eq_str(&key_chars, profile) {
                proof {
                    lemma_model_skip(self.entries@, i as int, profile@);
                    assert(self.entries@.skip(i as int)[0] == self.entries@[i as int]);
                    assert(self.entries@.skip(i as int).drop_first() =~= self.entries@.skip(
                        i as int + 1,
                    ));
                }
                return Ok(Some(clone_session(&self.entries[i].1)));
            }
            i += 1;
        }
        proof {
            lemma_model_skip(self.entries@, self.entries@.len() as int, profile@);
            assert(self.entries@.skip(self.entries@.len() as int) =~= Seq::<
                (String, AuthSession),
            >::empty());
        }
        Ok(None)
    }

    fn save(&mut self, profile: &str, session: &AuthSession) -> (r: Result<(), AuthError>)
        ensures
            r is Ok ==> final(self).model() == old(self).model().insert(profile@, session@),
            r is Ok,
    {
        let entry = (String::from_str(profile), clone_session(session));
        self.entries.insert(0, entry);
        proof {
            assert(self.entries@.drop_first() =~= old(self).entries@);
        }
        Ok(())
    }

    fn delete(&mut self, profile: &str) -> (r: Result<(), AuthError>)
        ensures
            r is Ok ==> final(self).model() == old(self).model().remove(profile@),
            r is Ok,
    {
        let ghost orig = self.entries@;
        let ghost n = orig.len() as int;
        let mut kept: Vec<(String, AuthSession)> = Vec::new();
        proof {
            assert(orig.skip(n) =~= Seq::<(String, AuthSession)>::empty());
            assert(kept@ =~= entries_without(orig.skip(n), profile@));
            assert(self.entries@ =~= orig.take(n));
        }
        while self.entries.len() > 0
            invariant
                n == orig.len() as int,
                self.entries@ == orig.take(self.entries@.len() as int),
                self.entries@.len() <= n,
                kept@ == entries_without(orig.skip(self.entries@.len() as int), profile@),
            decreases self.entries@.len(),
        {
            let ghost before = self.entries@;
            let ghost len_before = before.len() as int;
            proof {
                assert(before == orig.take(len_before));
            }
            let entry = match self.entries.pop() {
                Some(e) => e,
                None => {
                    proof {
                        assert(false);
                    }
                    return Err(AuthError::Io(String::from_str("store entry disappeared")));
                },
            };
            let ghost j = len_before - 1;
            proof {
                assert(self.entries@ == before.drop_last());
                assert(before.drop_last() =~= orig.take(j));
                assert(entry == before.last());
                assert(before.last() == orig.take(len_before)[len_before - 1]);
                assert(orig.take(len_before)[j] == orig[j]);
                assert(entry == orig[j]);
                let pre = orig.skip(j);
                assert(pre[0] == orig[j]);
                assert(pre.drop_first() =~= orig.skip(len_before));
            }
            let key_chars = str_chars(entry.0.as_str());
            if !chars_eq_str(&key_chars, profile) {
                let ghost kept_before = kept@;
                kept.insert(0, entry);
                proof {
                    assert(kept@ =~= entries_without(orig.skip(j), profile@));
                }
            }
        }
        proof {
            assert(orig.skip(0) =~= orig);
        }
        self.entries = kept;
        proof {
            lemma_model_without(orig, profile@);
        }
        Ok(())
    }
}

/// Filesystem-backed credential storage located in the user configuration
/// directory. This core prepares the file path and the exact payload bytes
/// and interprets loaded payloads; reading and writing the file itself is
/// the surrounding program's job.
#[derive(Debug, Clone)]
pub struct FileCredentialStore {
    locator: ConfigLocator,
}

impl FileCredentialStore {
    /// The locator's directory, for specifications.
    pub closed spec fn root_view(&self) -> Seq<char> {
        self.locator.root_view()
    }

    /// A store over the given locator.
    pub fn new(locator: ConfigLocator) -> (r: FileCredentialStore)
        ensures
            r.root_view() == locator.root_view(),
    {
        FileCredentialStore { locator }
    }

    /// A store over the discovered per-user configuration directory.
    pub fn with_default_locator() -> (r: Result<FileCredentialStore, AuthError>)
        ensures
            r matches Err(e) ==> e matches AuthError::Config(_),
    {
        match ConfigLocator::new() {
            Ok(locator) => Ok(FileCredentialStore::new(locator)),
            Err(e) => Err(AuthError::Config(e)),
        }
    }

    /// The path of the file holding a profile's session.
    pub fn credentials_path(&self, profile: &str) -> (r: String)
        ensures
            r@ == self.root_view() + "/credentials-"@ + profile@ + ".json"@,
    {
        self.locator.credentials_file(profile)
    }

    /// The exact payload written for a profile: the canonical envelope text,
    /// which [`FileCredentialStore::parse_payload`] reads back unchanged.
    pub fn save_payload(&self, profile: &str, session: &AuthSession) -> (r: String)
        ensures
            r@ == spec_encode_envelope(profile@, session@),
            forall|read_now: i64| #![auto] spec_parse_envelope(r@, read_now) == Some(
                (1u32, profile@, session@),
            ),
    {
        encode_envelope(profile, session)
    }

    /// Interpret a loaded payload; text that is not a stored envelope is a
    /// deserialization error. A file predating the `created_at` field gets
    /// `now` as its creation instant.
    pub fn parse_payload(&self, payload: &str, now: Timestamp) -> (r: Result<
        SessionEnvelope,
        AuthError,
    >)
        ensures
            match spec_parse_envelope(payload@, now.spec_millis()) {
                Some((ver, prof, sv)) => r matches Ok(env) && env.version == ver && env.profile@
                    == prof && env.session@ == sv,
                None => r matches Err(e) && e matches AuthError::Deserialize(_),
            },
    {
        match parse_envelope(payload, now) {
            Some(env) => Ok(env),
            None => Err(
                AuthError::Deserialize(String::from_str("stored credentials file is malformed")),
            ),
        }
    }
}

} // verus!
