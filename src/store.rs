//! The key-value engine: entries keyed by string, with transparent
//! encryption, per-key locking, numeric updates and advisory expiration.
use crate::cipher::{Cipher, hex_of_len, zero_unpadded};
use chashmap::CHashMap;
use vstd::prelude::*;
use crate::text::{MAX_INSTANT, now_seconds, utf8_text};
use vstd::utf8::{decode_utf8, valid_utf8};

verus! {

#[verifier::external_type_specification]
#[verifier::external_body]
#[verifier::reject_recursive_types(K)]
#[verifier::reject_recursive_types(V)]
pub struct ExCHashMap<K, V>(CHashMap<K, V>);

/// The entries that a map holds, by key text, as raw (possibly encrypted) records.
pub uninterp spec fn chm_entries(m: CHashMap<String, KvElement>) -> Map<Seq<char>, EntryView>;

/// Relies on chashmap's `CHashMap::new`: a new map holds nothing.
#[verifier::external_body]
fn chm_new() -> (r: CHashMap<String, KvElement>)
    ensures
        chm_entries(r).dom() == Set::<Seq<char>>::empty(),
{
    CHashMap::new()
}

/// Relies on chashmap's `CHashMap::get`: the value stored under the key, if
/// any, read under its lock and copied out. A lookup probes from the key's
/// slot up to the key or an empty slot, and panics when there is neither;
/// the maps here always keep an empty slot: `insert` grows the table before
/// live entries pass 85% of its slots, and `chm_remove` rebuilds it after each
/// removal, so that no slot is left marked as removed.
#[verifier::external_body]
fn chm_get(m: &CHashMap<String, KvElement>, key: &String) -> (r: Option<KvElement>)
    ensures
        r is Some <==> chm_entries(*m).contains_key(key@),
        r matches Some(e) ==> e@ == chm_entries(*m)[key@],
{
    m.get(key).map(|guard| guard.snapshot())
}

/// Relies on chashmap's `CHashMap::insert`: the key now maps to the value,
/// and the value that it replaced is returned.
#[verifier::external_body]
fn chm_insert(m: &mut CHashMap<String, KvElement>, key: String, value: KvElement)
    -> (r: Option<KvElement>)
    ensures
        chm_entries(*final(m)) == chm_entries(*old(m)).insert(key@, value@),
        r is Some <==> chm_entries(*old(m)).contains_key(key@),
        r matches Some(e) ==> e@ == chm_entries(*old(m))[key@],
{
    m.insert(key, value)
}

/// Relies on chashmap's `CHashMap::remove` and `CHashMap::shrink_to_fit`:
/// the key no longer maps to anything, and the value that it held is
/// returned. `remove` leaves its slot marked as removed, which a lookup steps
/// over; `shrink_to_fit` then rebuilds the table from the live entries alone
/// (at least four slots per entry), so that lookups always meet an empty slot.
#[verifier::external_body]
fn chm_remove(m: &mut CHashMap<String, KvElement>, key: &String) -> (r: Option<KvElement>)
    ensures
        chm_entries(*final(m)) == chm_entries(*old(m)).remove(key@),
        r is Some <==> chm_entries(*old(m)).contains_key(key@),
{
    let r = m.remove(key);
    m.shrink_to_fit();
    r
}

/// Relies on tree_magic's `from_u8`: a content type guessed from the bytes
/// with the machine's MIME database. Nothing is promised of it.
#[verifier::external_body]
fn sniff_mime(data: &[u8]) -> (r: String) {
    tree_magic::from_u8(data)
}

/// The stored record for one key. Timestamps are seconds since the Unix epoch.
#[derive(Clone, Debug)]
pub struct KvElement {
    pub data: Vec<u8>,
    pub mime_type: String,
    pub created_at: i64,
    pub updated_at: i64,
    pub expire_at: i64,
    pub update_count: u64,
    pub locked: bool,
}

/// An entry as a mathematical value.
pub struct EntryView {
    pub data: Seq<u8>,
    pub mime_type: Seq<char>,
    pub created_at: i64,
    pub updated_at: i64,
    pub expire_at: i64,
    pub update_count: u64,
    pub locked: bool,
}

impl View for KvElement {
    type V = EntryView;

    open spec fn view(&self) -> EntryView {
        EntryView {
            data: self.data@,
            mime_type: self.mime_type@,
            created_at: self.created_at,
            updated_at: self.updated_at,
            expire_at: self.expire_at,
            update_count: self.update_count,
            locked: self.locked,
        }
    }
}

/// The mutation counter after one more mutation (it stops at its maximum).
pub open spec fn bumped(c: u64) -> u64 {
    if c < u64::MAX {
        (c + 1) as u64
    } else {
        c
    }
}

fn bump(c: u64) -> (r: u64)
    ensures
        r == bumped(c),
{
    if c < u64::MAX {
        c + 1
    } else {
        c
    }
}

/// `e` with a new payload and content type.
pub open spec fn with_payload(e: EntryView, data: Seq<u8>, mime_type: Seq<char>) -> EntryView {
    EntryView { data, mime_type, ..e }
}

/// `e` after a mutation at `now`.
pub open spec fn touched(e: EntryView, now: i64) -> EntryView {
    EntryView { updated_at: now, update_count: bumped(e.update_count), ..e }
}

/// The entry that `set` leaves, from the entry before (if any), the payload as
/// it reads back, the content type and the time of the call. A locked entry
/// keeps its payload and content type.
pub open spec fn set_entry(
    prev: Option<EntryView>,
    data: Seq<u8>,
    mime_type: Seq<char>,
    now: i64,
) -> EntryView {
    match prev {
        Some(e) => if e.locked {
            touched(e, now)
        } else {
            touched(with_payload(e, data, mime_type), now)
        },
        None => EntryView {
            data,
            mime_type,
            created_at: now,
            updated_at: now,
            expire_at: now,
            update_count: 1,
            locked: false,
        },
    }
}

/// The entry under `k` in `m`, if any.
pub open spec fn prior(m: Map<Seq<char>, EntryView>, k: Seq<char>) -> Option<EntryView> {
    if m.contains_key(k) {
        Some(m[k])
    } else {
        None
    }
}

/// The entry that a run of sets leaves on a key that had none, each set
/// given as (payload as it reads back, content type, time).
pub open spec fn after_sets(steps: Seq<(Seq<u8>, Seq<char>, i64)>) -> Option<EntryView>
    decreases steps.len(),
{
    if steps.len() == 0 {
        None
    } else {
        let (data, ty, now) = steps.last();
        Some(set_entry(after_sets(steps.drop_last()), data, ty, now))
    }
}

/// Whether an integer is in the `i64` range.
pub open spec fn fits_i64(v: int) -> bool {
    i64::MIN <= v <= i64::MAX
}

/// The instant that an expiration of `ttl` seconds set at `now` on `key`
/// gives: `None` for a missing key or an instant out of range.
pub open spec fn expiry(m: Map<Seq<char>, EntryView>, key: Seq<char>, now: i64, ttl: i64) -> Option<i64> {
    if m.contains_key(key) && fits_i64(now as int + ttl as int) {
        Some((now + ttl) as i64)
    } else {
        None
    }
}

/// `e` after its expiration is set to `at` by an update at `now`.
pub open spec fn expired(e: EntryView, now: i64, at: i64) -> EntryView {
    with_expiry(touched(e, now), at)
}

/// `e` with its lock flag set to `to_lock`.
pub open spec fn with_lock(e: EntryView, to_lock: bool) -> EntryView {
    EntryView { locked: to_lock, ..e }
}

/// `e` with its expiration instant set to `at`.
pub open spec fn with_expiry(e: EntryView, at: i64) -> EntryView {
    EntryView { expire_at: at, ..e }
}

/// The concurrent key-value map, with an optional cipher fixed at creation.
pub struct KvStore {
    container: CHashMap<String, KvElement>,
    cipher: Option<Cipher>,
}

impl KvStore {
    /// Whether values are encrypted at rest.
    pub closed spec fn encrypted(&self) -> bool {
        self.cipher is Some
    }

    /// What a payload `p` that was set reads back as: with encryption, zero
    /// padding takes its trailing zero bytes (but never its first byte).
    pub open spec fn readback(&self, p: Seq<u8>) -> Seq<u8> {
        if self.encrypted() {
            zero_unpadded(p)
        } else {
            p
        }
    }

    closed spec fn plain_data(&self, data: Seq<u8>) -> Seq<u8> {
        match self.cipher {
            Some(c) => c.opened(data),
            None => data,
        }
    }

    closed spec fn plain(&self, e: EntryView) -> EntryView {
        EntryView { data: self.plain_data(e.data), ..e }
    }

    /// The records as stored.
    closed spec fn stored(&self) -> Map<Seq<char>, EntryView> {
        chm_entries(self.container)
    }

    /// Stored ciphertexts are whole blocks.
    pub closed spec fn wf(&self) -> bool {
        self.cipher is Some ==> forall|k: Seq<char>| #[trigger]
            self.stored().contains_key(k) ==> self.stored()[k].data.len() % 16 == 0
    }
}

impl View for KvStore {
    type V = Map<Seq<char>, EntryView>;

    /// Each key with its entry as `get` returns it (payload in plaintext).
    closed spec fn view(&self) -> Map<Seq<char>, EntryView> {
        self.stored().map_values(|e: EntryView| self.plain(e))
    }
}

impl KvElement {
    /// A field-by-field copy.
    pub fn snapshot(&self) -> (r: KvElement)
        ensures
            r@ == self@,
    {
        let data = self.data.clone();
        assert(data@ =~= self.data@);
        KvElement {
            data,
            mime_type: self.mime_type.clone(),
            created_at: self.created_at,
            updated_at: self.updated_at,
            expire_at: self.expire_at,
            update_count: self.update_count,
            locked: self.locked,
        }
    }
}

impl KvStore {
    /// A store with no entries; with `cipher` (hex key text and hex iv text)
    /// values are encrypted at rest.
    pub fn new(cipher: Option<[&str; 2]>) -> (r: KvStore)
        requires
            cipher matches Some(c) ==> hex_of_len(c[0]@, 24) && hex_of_len(c[1]@, 16),
        ensures
            r.wf(),
            r@ == Map::<Seq<char>, EntryView>::empty(),
            r.encrypted() == cipher is Some,
    {
        let c = match cipher {
            Some(c) => Cipher::from_hex(c[0], c[1]),
            None => None,
        };
        let r = KvStore { container: chm_new(), cipher: c };
        assert(r@ =~= Map::<Seq<char>, EntryView>::empty());
        r
    }

    /// A stored record with its payload decrypted.
    fn decrypted(&self, e: KvElement) -> (r: KvElement)
        requires
            self.cipher is Some ==> e.data@.len() % 16 == 0,
        ensures
            r@ == self.plain(e@),
    {
        match &self.cipher {
            Some(c) => {
                let data = c.decrypt(e.data.as_slice());
                KvElement { data, ..e }
            },
            None => e,
        }
    }

    /// A payload as it is to be stored.
    fn seal(&self, value: Vec<u8>) -> (r: Vec<u8>)
        ensures
            self.cipher is Some ==> r@.len() % 16 == 0,
            self.plain_data(r@) == self.readback(value@),
    {
        match &self.cipher {
            Some(c) => c.encrypt(value.as_slice()),
            None => value,
        }
    }

    proof fn lemma_put(&self, k: Seq<char>, e: EntryView)
        requires
            self.cipher is Some ==> e.data.len() % 16 == 0,
        ensures
            self.stored().insert(k, e).map_values(|x: EntryView| self.plain(x)) =~= self@.insert(
                k,
                self.plain(e),
            ),
    {
    }

    /// The entry under `key`, with its payload in plaintext; `None` if absent.
    pub fn get(&self, key: String) -> (r: Option<KvElement>)
        requires
            self.wf(),
        ensures
            r is Some <==> self@.contains_key(key@),
            r matches Some(e) ==> e@ == self@[key@],
    {
        match chm_get(&self.container, &key) {
            Some(e) => {
                assert(self.stored().contains_key(key@));
                Some(self.decrypted(e))
            },
            None => None,
        }
    }

    /// Stores `value` under `key` with the declared content type, or else a
    /// sniffed one. An existing locked entry keeps its payload and type; any
    /// existing entry is touched. Returns the entry as it was before, if any.
    pub fn set(&mut self, key: String, value: Vec<u8>, mime: Option<String>) -> (r: Option<
        KvElement,
    >)
        requires
            old(self).wf(),
        ensures
            final(self).wf(),
            final(self).encrypted() == old(self).encrypted(),
            r is Some <==> old(self)@.contains_key(key@),
            r matches Some(e) ==> e@ == old(self)@[key@],
            final(self)@ == old(self)@.insert(
                key@,
                set_entry(
                    prior(old(self)@, key@),
                    old(self).readback(value@),
                    final(self)@[key@].mime_type,
                    final(self)@[key@].updated_at,
                ),
            ),
            mime matches Some(m) ==> (old(self)@.contains_key(key@) && old(self)@[key@].locked)
                || final(self)@[key@].mime_type == m@,
    {
        let now = now_seconds();
        let mime_type = match mime {
            Some(m) => m,
            None => sniff_mime(value.as_slice()),
        };
        let data = self.seal(value);
        match chm_get(&self.container, &key) {
            Some(e) => {
                assert(self.stored().contains_key(key@));
                let before = self.decrypted(e.snapshot());
                let next = if e.locked {
                    KvElement { updated_at: now, update_count: bump(e.update_count), ..e }
                } else {
                    KvElement {
                        data,
                        mime_type,
                        updated_at: now,
                        update_count: bump(e.update_count),
                        ..e
                    }
                };
                proof {
                    self.lemma_put(key@, next@);
                }
                chm_insert(&mut self.container, key, next);
                Some(before)
            },
            None => {
                let next = KvElement {
                    data,
                    mime_type,
                    created_at: now,
                    updated_at: now,
                    expire_at: now,
                    update_count: 1,
                    locked: false,
                };
                proof {
                    self.lemma_put(key@, next@);
                }
                chm_insert(&mut self.container, key, next);
                None
            },
        }
    }
    /// Locks or unlocks the entry under `key`; true exactly when its lock
    /// state changed (false for a missing key or one already in that state).
    pub fn switch_lock(&mut self, key: String, to_lock: bool) -> (r: bool)
        requires
            old(self).wf(),
        ensures
            final(self).wf(),
            final(self).encrypted() == old(self).encrypted(),
            r == (old(self)@.contains_key(key@) && old(self)@[key@].locked != to_lock),
            r ==> final(self)@ == old(self)@.insert(
                key@,
                touched(with_lock(old(self)@[key@], to_lock), final(self)@[key@].updated_at),
            ),
            !r ==> final(self)@ == old(self)@,
    {
        match chm_get(&self.container, &key) {
            Some(e) => {
                assert(self.stored().contains_key(key@));
                if e.locked == to_lock {
                    return false;
                }
                let now = now_seconds();
                let next = KvElement {
                    locked: to_lock,
                    updated_at: now,
                    update_count: bump(e.update_count),
                    ..e
                };
                proof {
                    self.lemma_put(key@, next@);
                }
                chm_insert(&mut self.container, key, next);
                true
            },
            None => false,
        }
    }

    /// Replaces the numeric payload under `key` by what `step` makes of its
    /// text and `delta`; `step` does the parsing and the arithmetic. False,
    /// with nothing changed, for a missing key, a payload that is not UTF-8,
    /// or text that `step` rejects. The lock flag does not block this update.
    pub fn increment_or_decrement<F: Fn(String, i64) -> Option<Vec<u8>>>(
        &mut self,
        key: String,
        delta: i64,
        step: F,
    ) -> (r: bool)
        requires
            old(self).wf(),
            forall|t: String, d: i64| step.requires((t, d)),
        ensures
            final(self).wf(),
            final(self).encrypted() == old(self).encrypted(),
            !r ==> final(self)@ == old(self)@,
            !old(self)@.contains_key(key@) ==> !r,
            old(self)@.contains_key(key@) && !valid_utf8(old(self)@[key@].data) ==> !r,
            r ==> old(self)@.contains_key(key@) && exists|t: String, b: Vec<u8>|
                t@ == decode_utf8(old(self)@[key@].data) && step.ensures((t, delta), Some(b))
                    && final(self)@ == old(self)@.insert(
                    key@,
                    touched(
                        with_payload(
                            old(self)@[key@],
                            old(self).readback(b@),
                            old(self)@[key@].mime_type,
                        ),
                        final(self)@[key@].updated_at,
                    ),
                ),
            !r && old(self)@.contains_key(key@) && valid_utf8(old(self)@[key@].data) ==> exists|
                t: String,
            |
                t@ == decode_utf8(old(self)@[key@].data) && step.ensures((t, delta), None),
    {
        match chm_get(&self.container, &key) {
            Some(e) => {
                assert(self.stored().contains_key(key@));
                let plain = self.decrypted(e.snapshot());
                let text = match utf8_text(plain.data) {
                    Some(t) => t,
                    None => return false,
                };
                let bytes = match step(text, delta) {
                    Some(b) => b,
                    None => return false,
                };
                let data = self.seal(bytes);
                let now = now_seconds();
                let next = KvElement {
                    data,
                    updated_at: now,
                    update_count: bump(e.update_count),
                    ..e
                };
                proof {
                    self.lemma_put(key@, next@);
                }
                chm_insert(&mut self.container, key, next);
                assert(final(self)@[key@].updated_at == now);
                true
            },
            None => false,
        }
    }

    /// Sets the entry's advisory expiration to `ttl` seconds after `now`,
    /// dating the update at `now`, and returns that instant; `None`, with
    /// nothing changed, for a missing key or an instant out of the `i64` range.
    pub fn expire_at(&mut self, key: String, now: i64, ttl: i64) -> (r: Option<i64>)
        requires
            old(self).wf(),
        ensures
            final(self).wf(),
            final(self).encrypted() == old(self).encrypted(),
            r == expiry(old(self)@, key@, now, ttl),
            r is None ==> final(self)@ == old(self)@,
            r matches Some(at) ==> final(self)@ == old(self)@.insert(
                key@,
                expired(old(self)@[key@], now, at),
            ),
    {
        match chm_get(&self.container, &key) {
            Some(e) => {
                assert(self.stored().contains_key(key@));
                let at = match now.checked_add(ttl) {
                    Some(at) => at,
                    None => return None,
                };
                let next = KvElement {
                    expire_at: at,
                    updated_at: now,
                    update_count: bump(e.update_count),
                    ..e
                };
                proof {
                    self.lemma_put(key@, next@);
                }
                chm_insert(&mut self.container, key, next);
                Some(at)
            },
            None => None,
        }
    }

    /// Sets the entry's advisory expiration to `ttl` seconds from now and
    /// returns that instant: what `expire_at` does with the current time.
    pub fn set_expiration(&mut self, key: String, ttl: i64) -> (r: Option<i64>)
        requires
            old(self).wf(),
        ensures
            final(self).wf(),
            final(self).encrypted() == old(self).encrypted(),
            exists|now: i64|
                r == #[trigger] expiry(old(self)@, key@, now, ttl) && (r matches Some(at) ==> final(self)@ == old(self)@.insert(
                    key@,
                    expired(old(self)@[key@], now, at),
                )),
            old(self)@.contains_key(key@) && ttl <= i64::MAX - MAX_INSTANT ==> r is Some,
            r is Some ==> old(self)@.contains_key(key@),
            r is None ==> final(self)@ == old(self)@,
    {
        let now = now_seconds();
        self.expire_at(key, now, ttl)
    }

    /// Removes the entry under `key`, if any.
    pub fn drop(&mut self, key: String)
        requires
            old(self).wf(),
        ensures
            final(self).wf(),
            final(self).encrypted() == old(self).encrypted(),
            final(self)@ == old(self)@.remove(key@),
    {
        chm_remove(&mut self.container, &key);
        assert(self@ =~= old(self)@.remove(key@));
    }
}

/// What a set of payload `p` leaves on a key that is not locked is what a
/// read of that key returns next: `p` itself, unless encryption is on and
/// `p` ends in a zero byte, for zero padding takes trailing zero bytes.
pub proof fn lemma_set_then_get(store: KvStore, key: Seq<char>, p: Seq<u8>, ty: Seq<char>, now: i64)
    requires
        !(store@.contains_key(key) && store@[key].locked),
    ensures
        set_entry(prior(store@, key), store.readback(p), ty, now).data == store.readback(p),
        !store.encrypted() ==> store.readback(p) == p,
        p.len() == 0 || p.last() != 0 ==> store.readback(p) == p,
        store.encrypted() && p.len() > 1 && p.last() == 0 ==> store.readback(p) != p,
{
    if store.encrypted() && p.len() > 1 && p.last() == 0 {
        lemma_unpadded_shorter(p);
    }
}

proof fn lemma_unpadded_shorter(p: Seq<u8>)
    requires
        p.len() > 1,
        p.last() == 0,
    ensures
        zero_unpadded(p).len() < p.len(),
    decreases p.len(),
{
    let q = p.drop_last();
    assert(zero_unpadded(p) == zero_unpadded(q));
    if q.len() > 1 && q.last() == 0 {
        lemma_unpadded_shorter(q);
    }
}

/// A set on a fresh key creates an entry with one mutation, created, updated
/// and expiring at the time of the call; a set on an existing entry keeps
/// its creation time and lock, dates its update at the time of the call and
/// counts one more mutation.
pub proof fn lemma_create_then_update(
    e: EntryView,
    data: Seq<u8>,
    ty: Seq<char>,
    now: i64,
)
    ensures
        set_entry(None, data, ty, now) == (EntryView {
            data,
            mime_type: ty,
            created_at: now,
            updated_at: now,
            expire_at: now,
            update_count: 1,
            locked: false,
        }),
        set_entry(Some(e), data, ty, now).created_at == e.created_at,
        set_entry(Some(e), data, ty, now).updated_at == now,
        set_entry(Some(e), data, ty, now).locked == e.locked,
        e.update_count < u64::MAX ==> set_entry(Some(e), data, ty, now).update_count
            == e.update_count + 1,
{
}

/// A set on a locked entry leaves its payload and content type as they
/// were, and the entry stays locked.
pub proof fn lemma_locked_payload_stays(e: EntryView, data: Seq<u8>, ty: Seq<char>, now: i64)
    requires
        e.locked,
    ensures
        set_entry(Some(e), data, ty, now).data == e.data,
        set_entry(Some(e), data, ty, now).mime_type == e.mime_type,
        set_entry(Some(e), data, ty, now).locked,
{
}

/// Any run of `n` sets on a fresh key, in whatever order they are applied,
/// leaves an entry with `n` mutations whose payload and content type are
/// those of the set applied last, never a mix of two sets.
pub proof fn lemma_sets_counted(steps: Seq<(Seq<u8>, Seq<char>, i64)>)
    requires
        0 < steps.len() < u64::MAX,
    ensures
        after_sets(steps) is Some,
        after_sets(steps)->Some_0.update_count == steps.len(),
        after_sets(steps)->Some_0.data == steps.last().0,
        after_sets(steps)->Some_0.mime_type == steps.last().1,
        !after_sets(steps)->Some_0.locked,
    decreases steps.len(),
{
    let rest = steps.drop_last();
    assert(after_sets(steps) == Some(
        set_entry(after_sets(rest), steps.last().0, steps.last().1, steps.last().2),
    ));
    if steps.len() > 1 {
        lemma_sets_counted(rest);
    } else {
        assert(after_sets(rest) is None);
    }
}

/// A set on an existing key, as `set` states it over the store before and
/// after: the key keeps its creation time, expiration and lock, counts one
/// more mutation and is dated at the time of the call; a locked entry keeps
/// its payload and content type, an unlocked one takes the new ones.
pub proof fn lemma_set_existing(
    before: Map<Seq<char>, EntryView>,
    after: Map<Seq<char>, EntryView>,
    key: Seq<char>,
    data: Seq<u8>,
    ty: Seq<char>,
    now: i64,
)
    requires
        before.contains_key(key),
        after == before.insert(key, set_entry(prior(before, key), data, ty, now)),
    ensures
        after.contains_key(key),
        after[key].created_at == before[key].created_at,
        after[key].expire_at == before[key].expire_at,
        after[key].locked == before[key].locked,
        after[key].updated_at == now,
        before[key].update_count < u64::MAX ==> after[key].update_count == before[key].update_count
            + 1,
        before[key].locked ==> after[key].data == before[key].data && after[key].mime_type
            == before[key].mime_type,
        !before[key].locked ==> after[key].data == data && after[key].mime_type == ty,
        forall|k: Seq<char>| k != key ==> (#[trigger] after.contains_key(k)) == before.contains_key(k),
{
}

} // verus!
