use vstd::prelude::*;

verus! {

/// What a key is selected for.
#[derive(Debug, Clone, Copy, PartialEq, Eq, Structural)]
pub enum Capability {
    /// Keys flagged for storage encryption.
    StorageEncryption,
    /// Keys flagged for signing.
    Signing,
    /// Every key, whatever its flags.
    Any,
}

/// How strictly the validity of a key is judged.
#[derive(Debug, Clone, Copy, PartialEq, Eq, Structural)]
pub enum Posture {
    /// Expired and revoked keys are left out.
    Standard,
    /// Expiration and revocation are not looked at.
    Permissive,
}

/// What the selection reads of one key of a certificate.
#[derive(Debug, Clone)]
pub struct KeyInfo {
    /// The key's identifier, as bytes.
    pub key_id: Vec<u8>,
    /// The key is flagged for storage encryption.
    pub storage_encryption: bool,
    /// The key is flagged for signing.
    pub signing: bool,
    /// The key is within its validity window now.
    pub alive: bool,
    /// The key is known to be revoked.
    pub revoked: bool,
    /// The key carries secret material.
    pub has_secret: bool,
}

pub open spec fn has_capability(k: KeyInfo, cap: Capability) -> bool {
    match cap {
        Capability::StorageEncryption => k.storage_encryption,
        Capability::Signing => k.signing,
        Capability::Any => true,
    }
}

/// A key is eligible when it has the capability, is valid under the posture,
/// and holds secret material where that is asked for.
pub open spec fn eligible(k: KeyInfo, cap: Capability, posture: Posture, need_secret: bool) -> bool {
    &&& has_capability(k, cap)
    &&& (posture == Posture::Standard ==> k.alive && !k.revoked)
    &&& (need_secret ==> k.has_secret)
}

/// The indices, in order, of the eligible keys among the first `n` of `keys`.
pub open spec fn eligible_prefix(
    keys: Seq<KeyInfo>,
    n: int,
    cap: Capability,
    posture: Posture,
    need_secret: bool,
) -> Seq<usize>
    decreases n,
{
    if n <= 0 {
        Seq::empty()
    } else {
        let rest = eligible_prefix(keys, n - 1, cap, posture, need_secret);
        if eligible(keys[n - 1], cap, posture, need_secret) {
            rest.push((n - 1) as usize)
        } else {
            rest
        }
    }
}

/// The indices, in order, of the eligible keys of `keys`.
pub open spec fn eligible_indices(
    keys: Seq<KeyInfo>,
    cap: Capability,
    posture: Posture,
    need_secret: bool,
) -> Seq<usize> {
    eligible_prefix(keys, keys.len() as int, cap, posture, need_secret)
}

/// Decides whether one key is eligible.
pub fn is_eligible(k: &KeyInfo, cap: Capability, posture: Posture, need_secret: bool) -> (r: bool)
    ensures
        r == eligible(*k, cap, posture, need_secret),
{
    let cap_ok = match cap {
        Capability::StorageEncryption => k.storage_encryption,
        Capability::Signing => k.signing,
        Capability::Any => true,
    };
    let valid = match posture {
        Posture::Standard => k.alive && !k.revoked,
        Posture::Permissive => true,
    };
    cap_ok && valid && (!need_secret || k.has_secret)
}

/// Selects the keys that may serve the capability under the posture, keeping
/// the certificate's order. An empty result is no error here.
pub fn select_keys(keys: &Vec<KeyInfo>, cap: Capability, posture: Posture, need_secret: bool) -> (r:
    Vec<usize>)
    ensures
        r@ == eligible_indices(keys@, cap, posture, need_secret),
        forall|j: int| 0 <= j < r@.len() ==> r@[j] < keys@.len(),
{
    let mut r: Vec<usize> = Vec::new();
    let mut i: usize = 0;
    while i < keys.len()
        invariant
            i <= keys@.len(),
            r@ == eligible_prefix(keys@, i as int, cap, posture, need_secret),
            forall|j: int| 0 <= j < r@.len() ==> r@[j] < i,
        decreases keys@.len() - i,
    {
        if is_eligible(&keys[i], cap, posture, need_secret) {
            r.push(i);
        }
        i = i + 1;
    }
    r
}

} // verus!

verus! {

/// Keeps, in order, the items whose key is eligible; `items` and `keys`
/// describe the same keys position by position.
pub fn keep_eligible<T>(
    items: Vec<T>,
    keys: &Vec<KeyInfo>,
    cap: Capability,
    posture: Posture,
    need_secret: bool,
) -> (r: Vec<T>)
    requires
        items@.len() == keys@.len(),
    ensures
        r@ == eligible_indices(keys@, cap, posture, need_secret).map_values(
            |j: usize| items@[j as int],
        ),
{
    let ghost orig = items@;
    let mut rest = items;
    let mut r: Vec<T> = Vec::new();
    let mut i: usize = 0;
    while i < keys.len()
        invariant
            i <= keys@.len(),
            orig.len() == keys@.len(),
            rest@ == orig.subrange(i as int, orig.len() as int),
            r@ == eligible_prefix(keys@, i as int, cap, posture, need_secret).map_values(
                |j: usize| orig[j as int],
            ),
        decreases keys@.len() - i,
    {
        let item = rest.remove(0);
        assert(item == orig[i as int]);
        if is_eligible(&keys[i], cap, posture, need_secret) {
            r.push(item);
        }
        assert(r@ =~= eligible_prefix(keys@, i + 1, cap, posture, need_secret).map_values(
            |j: usize| orig[j as int],
        ));
        assert(rest@ =~= orig.subrange(i + 1, orig.len() as int));
        i = i + 1;
    }
    r
}

} // verus!

verus! {

/// Every key the selection yields is eligible, each is yielded once, and
/// the certificate's order is kept.
pub proof fn lemma_selected_keys_eligible(
    keys: Seq<KeyInfo>,
    cap: Capability,
    posture: Posture,
    need_secret: bool,
)
    requires
        keys.len() <= usize::MAX,
    ensures
        forall|j: int|
            0 <= j < eligible_indices(keys, cap, posture, need_secret).len() ==> #[trigger] eligible_indices(
                keys,
                cap,
                posture,
                need_secret,
            )[j] < keys.len() && eligible(
                keys[eligible_indices(keys, cap, posture, need_secret)[j] as int],
                cap,
                posture,
                need_secret,
            ),
        forall|j: int, k: int|
            0 <= j < k < eligible_indices(keys, cap, posture, need_secret).len() ==> #[trigger] eligible_indices(
                keys,
                cap,
                posture,
                need_secret,
            )[j] < #[trigger] eligible_indices(keys, cap, posture, need_secret)[k],
{
    lemma_prefix_sound(keys, keys.len() as int, cap, posture, need_secret);
}

proof fn lemma_prefix_sound(
    keys: Seq<KeyInfo>,
    n: int,
    cap: Capability,
    posture: Posture,
    need_secret: bool,
)
    requires
        n <= keys.len() <= usize::MAX,
    ensures
        forall|j: int|
            0 <= j < eligible_prefix(keys, n, cap, posture, need_secret).len() ==> #[trigger] eligible_prefix(
                keys,
                n,
                cap,
                posture,
                need_secret,
            )[j] < n && eligible(
                keys[eligible_prefix(keys, n, cap, posture, need_secret)[j] as int],
                cap,
                posture,
                need_secret,
            ),
        forall|j: int, k: int|
            0 <= j < k < eligible_prefix(keys, n, cap, posture, need_secret).len()
                ==> #[trigger] eligible_prefix(keys, n, cap, posture, need_secret)[j]
                < #[trigger] eligible_prefix(keys, n, cap, posture, need_secret)[k],
    decreases n,
{
    if n > 0 {
        lemma_prefix_sound(keys, n - 1, cap, posture, need_secret);
        let rest = eligible_prefix(keys, n - 1, cap, posture, need_secret);
        let all = eligible_prefix(keys, n, cap, posture, need_secret);
        if eligible(keys[n - 1], cap, posture, need_secret) {
            assert(all == rest.push((n - 1) as usize));
            assert forall|j: int| 0 <= j < all.len() implies #[trigger] all[j] < n && eligible(
                keys[all[j] as int],
                cap,
                posture,
                need_secret,
            ) by {
                if j < rest.len() {
                    assert(all[j] == rest[j]);
                }
            }
            assert forall|j: int, k: int| 0 <= j < k < all.len() implies #[trigger] all[j]
                < #[trigger] all[k] by {
                assert(all[j] == rest[j]);
                if k < rest.len() {
                    assert(all[k] == rest[k]);
                }
            }
        } else {
            assert(all == rest);
        }
    }
}

/// Under the standard posture an expired or revoked key is never selected:
/// where every key with the capability is expired or revoked, the selection
/// is empty, and encryption or signing has no key to use.
pub proof fn lemma_expired_keys_never_selected(
    keys: Seq<KeyInfo>,
    cap: Capability,
    need_secret: bool,
)
    requires
        keys.len() <= usize::MAX,
        forall|i: int|
            0 <= i < keys.len() && has_capability(#[trigger] keys[i], cap) ==> !keys[i].alive
                || keys[i].revoked,
    ensures
        eligible_indices(keys, cap, Posture::Standard, need_secret).len() == 0,
{
    lemma_selected_keys_eligible(keys, cap, Posture::Standard, need_secret);
    let sel = eligible_indices(keys, cap, Posture::Standard, need_secret);
    if sel.len() > 0 {
        assert(eligible(keys[sel[0] as int], cap, Posture::Standard, need_secret));
    }
}

} // verus!
