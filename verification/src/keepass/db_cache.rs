use vstd::prelude::*;
use crate::keepass::encrypted::Encrypted;
use crate::keepass::encrypted::EncryptedView;

verus! {

/// A refresh that would move the expiry by no more than this many
/// milliseconds is skipped.
pub const UPDATE_THRESHOLD: u64 = 1000;

/// The blob is still in the cache, but its time is over.
#[derive(Debug, Clone, Copy, PartialEq, Eq, Structural)]
pub struct CacheExpiredError;

impl CacheExpiredError {
    /// The error in words.
    pub fn message(&self) -> (text: String)
        ensures
            text@ == "entry expired"@,
    {
        "entry expired".to_owned()
    }
}

/// Why the cache handed out no blob.
#[derive(Debug, Clone, Copy, PartialEq, Eq, Structural)]
pub enum CacheError {
    /// Nothing is cached for the identity.
    NotFound,
    /// What is cached for the identity has expired.
    Expired(CacheExpiredError),
}

impl CacheError {
    /// The error in words.
    pub fn message(&self) -> (text: String)
        ensures
            text@ == (match *self {
                CacheError::NotFound => "enc db not found in store"@,
                CacheError::Expired(_) => "entry expired"@,
            }),
    {
        match self {
            CacheError::NotFound => "enc db not found in store".to_owned(),
            CacheError::Expired(e) => e.message(),
        }
    }
}

/// The blob as a read at `now` with the window `timeout` hands it out: with
/// the expiry moved to the window's end where that is more than the threshold
/// away from the present expiry, unchanged otherwise.
pub open spec fn refreshed(blob: EncryptedView, now: u64, timeout: u64) -> EncryptedView {
    if now + timeout > blob.expiry + UPDATE_THRESHOLD {
        EncryptedView { expiry: (now + timeout) as u64, ..blob }
    } else {
        blob
    }
}

/// What a read of `id` at `now` with the window `timeout` returns.
pub open spec fn lookup(
    cache: Map<Seq<char>, EncryptedView>,
    id: Seq<char>,
    now: u64,
    timeout: u64,
) -> Result<EncryptedView, CacheError> {
    if !cache.dom().contains(id) {
        Err(CacheError::NotFound)
    } else if now >= cache[id].expiry {
        Err(CacheError::Expired(CacheExpiredError))
    } else {
        Ok(refreshed(cache[id], now, timeout))
    }
}

/// What the cache holds after that read: the blob as it was handed out, or
/// what it held before where none was.
pub open spec fn after_lookup(
    cache: Map<Seq<char>, EncryptedView>,
    id: Seq<char>,
    now: u64,
    timeout: u64,
) -> Map<Seq<char>, EncryptedView> {
    match lookup(cache, id, now, timeout) {
        Ok(blob) => cache.insert(id, blob),
        Err(_) => cache,
    }
}

/// The view of a read's result.
pub open spec fn result_view(r: Result<Encrypted, CacheError>) -> Result<
    EncryptedView,
    CacheError,
> {
    match r {
        Ok(blob) => Ok(blob@),
        Err(e) => Err(e),
    }
}

/// A read never hands out a blob whose expiry has passed, and it never
/// touches the ciphertext or the nonce: a refresh re-stamps the blob, it does
/// not encrypt again.
pub proof fn lemma_read_keeps_ciphertext(
    cache: Map<Seq<char>, EncryptedView>,
    id: Seq<char>,
    now: u64,
    timeout: u64,
)
    requires
        lookup(cache, id, now, timeout) is Ok,
    ensures
        cache.dom().contains(id),
        now < cache[id].expiry,
        lookup(cache, id, now, timeout)->Ok_0.data == cache[id].data,
        lookup(cache, id, now, timeout)->Ok_0.iv == cache[id].iv,
{
}

/// A read whose window ends after the blob's expiry hands the blob out with
/// an expiry strictly later than before, namely the window's end, unless the
/// window ends within the threshold of the present expiry: then the expiry is
/// unchanged.
pub proof fn lemma_expiry_monotone(
    cache: Map<Seq<char>, EncryptedView>,
    id: Seq<char>,
    now: u64,
    timeout: u64,
)
    requires
        now + timeout <= u64::MAX,
        lookup(cache, id, now, timeout) is Ok,
        now + timeout > cache[id].expiry,
    ensures
        now + timeout > cache[id].expiry + UPDATE_THRESHOLD ==> lookup(
            cache,
            id,
            now,
            timeout,
        )->Ok_0.expiry == now + timeout && lookup(cache, id, now, timeout)->Ok_0.expiry
            > cache[id].expiry,
        now + timeout <= cache[id].expiry + UPDATE_THRESHOLD ==> lookup(
            cache,
            id,
            now,
            timeout,
        )->Ok_0.expiry == cache[id].expiry,
{
}

/// After a read at `first` that refreshed the blob, a read at `second` with
/// the same window hands the blob out with a strictly later expiry where more
/// than the threshold has passed since the refresh, and with the same expiry
/// where not.
pub proof fn lemma_expiry_after_refresh(
    cache: Map<Seq<char>, EncryptedView>,
    id: Seq<char>,
    first: u64,
    second: u64,
    timeout: u64,
)
    requires
        first <= second,
        second + timeout <= u64::MAX,
        lookup(cache, id, first, timeout) is Ok,
        first + timeout > cache[id].expiry + UPDATE_THRESHOLD,
        lookup(after_lookup(cache, id, first, timeout), id, second, timeout) is Ok,
    ensures
        ({
            let one = lookup(cache, id, first, timeout)->Ok_0;
            let two = lookup(after_lookup(cache, id, first, timeout), id, second, timeout)->Ok_0;
            &&& second - first > UPDATE_THRESHOLD ==> two.expiry > one.expiry
            &&& second - first <= UPDATE_THRESHOLD ==> two.expiry == one.expiry
        }),
{
}

/// Two reads no further apart than the threshold, with the same window, hand
/// the blob out with the same expiry. The one case apart is a first read that
/// left the expiry alone because the window ended exactly within the
/// threshold, followed by a read whose window ends beyond it.
pub proof fn lemma_debounce(
    cache: Map<Seq<char>, EncryptedView>,
    id: Seq<char>,
    first: u64,
    second: u64,
    timeout: u64,
)
    requires
        first <= second,
        second - first <= UPDATE_THRESHOLD,
        second + timeout <= u64::MAX,
        lookup(cache, id, first, timeout) is Ok,
        lookup(after_lookup(cache, id, first, timeout), id, second, timeout) is Ok,
        !(first + timeout <= cache[id].expiry + UPDATE_THRESHOLD && cache[id].expiry
            + UPDATE_THRESHOLD < second + timeout),
    ensures
        lookup(cache, id, first, timeout)->Ok_0.expiry == lookup(
            after_lookup(cache, id, first, timeout),
            id,
            second,
            timeout,
        )->Ok_0.expiry,
{
}

/// What was stored for an identity is what the next read hands out, with the
/// ciphertext untouched; what was stored for another identity does not
/// matter.
pub proof fn lemma_read_after_store(
    cache: Map<Seq<char>, EncryptedView>,
    id: Seq<char>,
    blob: EncryptedView,
    now: u64,
    timeout: u64,
)
    ensures
        now < blob.expiry ==> lookup(cache.insert(id, blob), id, now, timeout) == Ok::<
            EncryptedView,
            CacheError,
        >(refreshed(blob, now, timeout)),
        now >= blob.expiry ==> lookup(cache.insert(id, blob), id, now, timeout) == Err::<
            EncryptedView,
            CacheError,
        >(CacheError::Expired(CacheExpiredError)),
        refreshed(blob, now, timeout).data == blob.data,
{
}

/// Once an identity's blob is dropped, a read finds nothing, whatever the
/// time; dropping it again changes nothing.
pub proof fn lemma_clear_is_final(
    cache: Map<Seq<char>, EncryptedView>,
    id: Seq<char>,
    now: u64,
    timeout: u64,
)
    ensures
        lookup(cache.remove(id), id, now, timeout) == Err::<EncryptedView, CacheError>(
            CacheError::NotFound,
        ),
        cache.remove(id).remove(id) == cache.remove(id),
{
    assert(cache.remove(id).remove(id) =~= cache.remove(id));
}

struct CacheEntry {
    user: String,
    blob: Encrypted,
}

/// The encrypted vaults of the identities that have one open, one blob per
/// identity.
pub struct DbCache {
    entries: Vec<CacheEntry>,
}

spec fn holds(entries: Seq<CacheEntry>, i: int, id: Seq<char>) -> bool {
    0 <= i < entries.len() && entries[i].user@ == id
}

spec fn distinct(entries: Seq<CacheEntry>) -> bool {
    forall|i: int, j: int|
        0 <= i < entries.len() && 0 <= j < entries.len() && #[trigger] entries[i].user@
            == #[trigger] entries[j].user@ ==> i == j
}

spec fn as_map(entries: Seq<CacheEntry>) -> Map<Seq<char>, EncryptedView> {
    Map::new(
        |id: Seq<char>| exists|i: int| holds(entries, i, id),
        |id: Seq<char>| entries[choose|i: int| holds(entries, i, id)].blob@,
    )
}

proof fn lemma_entry(entries: Seq<CacheEntry>, i: int)
    requires
        distinct(entries),
        0 <= i < entries.len(),
    ensures
        as_map(entries).dom().contains(entries[i].user@),
        as_map(entries)[entries[i].user@] == entries[i].blob@,
{
    let id = entries[i].user@;
    assert(holds(entries, i, id));
    let c = choose|c: int| holds(entries, c, id);
    assert(holds(entries, c, id));
    assert(c == i);
}

proof fn lemma_absent(entries: Seq<CacheEntry>, id: Seq<char>)
    requires
        forall|i: int| 0 <= i < entries.len() ==> (#[trigger] entries[i]).user@ != id,
    ensures
        !as_map(entries).dom().contains(id),
{
    assert forall|i: int| !holds(entries, i, id) by {
        if 0 <= i < entries.len() {
            assert(entries[i].user@ != id);
        }
    }
}

impl View for DbCache {
    type V = Map<Seq<char>, EncryptedView>;

    closed spec fn view(&self) -> Map<Seq<char>, EncryptedView> {
        as_map(self.entries@)
    }
}

impl DbCache {
    #[verifier::type_invariant]
    spec fn well_formed(self) -> bool {
        distinct(self.entries@)
    }

    /// A cache that holds nothing.
    pub fn new() -> (cache: Self)
        ensures
            cache@ == Map::<Seq<char>, EncryptedView>::empty(),
    {
        let cache = DbCache { entries: Vec::new() };
        assert(cache@ =~= Map::<Seq<char>, EncryptedView>::empty()) by {
            assert forall|id: Seq<char>| !cache@.dom().contains(id) by {
                lemma_absent(cache.entries@, id);
            }
        }
        cache
    }

    /// The place of `id` among the entries.
    fn position(&self, id: &String) -> (found: Option<usize>)
        ensures
            match found {
                Some(i) => holds(self.entries@, i as int, id@),
                None => !self@.dom().contains(id@),
            },
    {
        let mut i: usize = 0;
        while i < self.entries.len()
            invariant
                i <= self.entries.len(),
                forall|j: int| 0 <= j < i ==> (#[trigger] self.entries@[j]).user@ != id@,
            decreases self.entries.len() - i,
        {
            if self.entries[i].user == *id {
                return Some(i);
            }
            i = i + 1;
        }
        proof {
            lemma_absent(self.entries@, id@);
        }
        None
    }

    /// Keeps `blob` for `identity_id`, in place of what was kept for it
    /// before.
    pub fn store(&mut self, identity_id: &str, blob: Encrypted)
        ensures
            final(self)@ == old(self)@.insert(identity_id@, blob@),
    {
        proof {
            use_type_invariant(&*self);
        }
        let user = identity_id.to_owned();
        let ghost before = self.entries@;
        let found = self.position(&user);
        let mut entries: Vec<CacheEntry> = Vec::new();
        core::mem::swap(&mut self.entries, &mut entries);
        match found {
            Some(i) => {
                entries.set(i, CacheEntry { user, blob });
            },
            None => {
                entries.push(CacheEntry { user, blob });
            },
        }
        proof {
            let after = entries@;
            let id = identity_id@;
            let slot: int = match found {
                Some(i) => i as int,
                None => before.len() as int,
            };
            assert(after[slot].user@ == id);
            assert(holds(after, slot, id));
            if found is None {
                assert forall|j: int| 0 <= j < before.len() implies (#[trigger] before[j]).user@
                    != id by {
                    if before[j].user@ == id {
                        assert(holds(before, j, id));
                    }
                }
            }
            assert forall|a: int, b: int|
                0 <= a < after.len() && 0 <= b < after.len() && #[trigger] after[a].user@
                    == #[trigger] after[b].user@ implies a == b by {
                if a != slot && b != slot {
                    assert(before[a].user@ == before[b].user@);
                } else if a != slot {
                    assert(before[a].user@ == id);
                    if found is Some {
                        assert(before[a].user@ == before[slot].user@);
                    }
                } else if b != slot {
                    assert(before[b].user@ == id);
                    if found is Some {
                        assert(before[b].user@ == before[slot].user@);
                    }
                }
            }
            assert(distinct(after));
            assert(as_map(after) =~= as_map(before).insert(id, blob@)) by {
                assert forall|q: Seq<char>|
                    as_map(after).dom().contains(q) <==> as_map(before).insert(
                        id,
                        blob@,
                    ).dom().contains(q) by {
                    if as_map(after).dom().contains(q) {
                        let c = choose|c: int| holds(after, c, q);
                        assert(holds(after, c, q));
                        if q != id {
                            assert(holds(before, c, q));
                        }
                    }
                    if as_map(before).dom().contains(q) && q != id {
                        let c = choose|c: int| holds(before, c, q);
                        assert(holds(before, c, q));
                        assert(holds(after, c, q));
                    }
                }
                assert forall|q: Seq<char>| as_map(after).dom().contains(q) implies as_map(
                    after,
                )[q] == as_map(before).insert(id, blob@)[q] by {
                    let c = choose|c: int| holds(after, c, q);
                    assert(holds(after, c, q));
                    lemma_entry(after, c);
                    if q != id {
                        assert(holds(before, c, q));
                        lemma_entry(before, c);
                    }
                }
            }
        }
        self.entries = entries;
    }

    /// Looks the blob of `identity_id` up as `retrieve` does, without
    /// touching the cache: the blob comes back as `retrieve` would hand it
    /// out, with the word whether its expiry was moved and the cache is
    /// therefore behind.
    pub fn read(&self, identity_id: &str, now: u64, timeout: u64) -> (r: Result<
        (Encrypted, bool),
        CacheError,
    >)
        requires
            now + timeout <= u64::MAX,
        ensures
            match r {
                Ok((blob, moved)) => lookup(self@, identity_id@, now, timeout) == Ok::<
                    EncryptedView,
                    CacheError,
                >(blob@) && moved == (blob@ != self@[identity_id@]),
                Err(e) => lookup(self@, identity_id@, now, timeout) == Err::<
                    EncryptedView,
                    CacheError,
                >(e),
            },
    {
        proof {
            use_type_invariant(self);
        }
        let user = identity_id.to_owned();
        let i = match self.position(&user) {
            Some(i) => i,
            None => return Err(CacheError::NotFound),
        };
        proof {
            lemma_entry(self.entries@, i as int);
        }
        let mut enc = self.entries[i].blob.clone();
        if now >= enc.expiry() {
            return Err(CacheError::Expired(CacheExpiredError));
        }
        if (now + timeout) as u128 > enc.expiry() as u128 + UPDATE_THRESHOLD as u128 {
            enc.update_expiry(now, timeout);
            Ok((enc, true))
        } else {
            Ok((enc, false))
        }
    }

    /// Hands out the blob kept for `identity_id`, as long as `now` is before
    /// its expiry. A blob that would expire within less than `timeout`
    /// milliseconds, by more than the threshold, has its expiry moved to
    /// `timeout` from `now`, in the cache and in what is handed out.
    pub fn retrieve(&mut self, identity_id: &str, now: u64, timeout: u64) -> (r: Result<
        Encrypted,
        CacheError,
    >)
        requires
            now + timeout <= u64::MAX,
        ensures
            result_view(r) == lookup(old(self)@, identity_id@, now, timeout),
            final(self)@ == after_lookup(old(self)@, identity_id@, now, timeout),
    {
        match self.read(identity_id, now, timeout) {
            Ok((enc, moved)) => {
                if moved {
                    self.store(identity_id, enc.clone());
                } else {
                    assert(self@ =~= self@.insert(identity_id@, enc@));
                }
                Ok(enc)
            },
            Err(e) => Err(e),
        }
    }

    /// Drops what is kept for `identity_id`. Where nothing is kept for it,
    /// nothing happens.
    pub fn clear(&mut self, identity_id: &str)
        ensures
            final(self)@ == old(self)@.remove(identity_id@),
    {
        proof {
            use_type_invariant(&*self);
        }
        let user = identity_id.to_owned();
        let ghost before = self.entries@;
        let ghost id = identity_id@;
        match self.position(&user) {
            Some(i) => {
                let mut entries: Vec<CacheEntry> = Vec::new();
                core::mem::swap(&mut self.entries, &mut entries);
                entries.remove(i);
                proof {
                    let after = entries@;
                    assert forall|a: int, b: int|
                        0 <= a < after.len() && 0 <= b < after.len() && #[trigger] after[a].user@
                            == #[trigger] after[b].user@ implies a == b by {
                        let a0 = if a < i { a } else { a + 1 };
                        let b0 = if b < i { b } else { b + 1 };
                        assert(before[a0].user@ == before[b0].user@);
                    }
                    assert(as_map(after) =~= as_map(before).remove(id)) by {
                        assert forall|q: Seq<char>|
                            as_map(after).dom().contains(q) <==> as_map(before).remove(
                                id,
                            ).dom().contains(q) by {
                            if as_map(after).dom().contains(q) {
                                let c = choose|c: int| holds(after, c, q);
                                assert(holds(after, c, q));
                                let c0 = if c < i { c } else { c + 1 };
                                assert(holds(before, c0, q));
                                assert(before[c0].user@ != before[i as int].user@);
                            }
                            if as_map(before).dom().contains(q) && q != id {
                                let c = choose|c: int| holds(before, c, q);
                                assert(holds(before, c, q));
                                let c1 = if c < i { c } else { c - 1 };
                                assert(holds(after, c1, q));
                            }
                        }
                        assert forall|q: Seq<char>| as_map(after).dom().contains(q) implies as_map(
                            after,
                        )[q] == as_map(before).remove(id)[q] by {
                            let c = choose|c: int| holds(after, c, q);
                            assert(holds(after, c, q));
                            lemma_entry(after, c);
                            let c0 = if c < i { c } else { c + 1 };
                            assert(holds(before, c0, q));
                            lemma_entry(before, c0);
                        }
                    }
                }
                self.entries = entries;
            },
            None => {
                assert(self@ =~= self@.remove(id));
            },
        }
    }
}

} // verus!
