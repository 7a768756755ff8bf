use vstd::prelude::*;

verus! {

/// Some local key has the identifier `id`.
pub open spec fn addressed(local: Seq<Vec<u8>>, id: Seq<u8>) -> bool {
    exists|j: int| 0 <= j < local.len() && local[j]@ == id
}

/// Compares two byte strings, such as key identifiers, byte by byte.
pub fn bytes_equal(a: &[u8], b: &[u8]) -> (r: bool)
    ensures
        r == (a@ == b@),
{
    if a.len() != b.len() {
        return false;
    }
    let mut i: usize = 0;
    while i < a.len()
        invariant
            i <= a@.len(),
            a@.len() == b@.len(),
            forall|j: int| 0 <= j < i ==> a@[j] == b@[j],
        decreases a@.len() - i,
    {
        if a[i] != b[i] {
            return false;
        }
        i = i + 1;
    }
    assert(a@ =~= b@);
    true
}

/// Finds the first local key with the given identifier.
pub fn find_key(local: &Vec<Vec<u8>>, id: &Vec<u8>) -> (r: Option<usize>)
    ensures
        match r {
            Some(k) => k < local@.len() && local@[k as int]@ == id@ && forall|j: int|
                0 <= j < k ==> local@[j]@ != id@,
            None => !addressed(local@, id@),
        },
{
    let mut k: usize = 0;
    while k < local.len()
        invariant
            k <= local@.len(),
            forall|j: int| 0 <= j < k ==> local@[j]@ != id@,
        decreases local@.len() - k,
    {
        if bytes_equal(local[k].as_slice(), id.as_slice()) {
            return Some(k);
        }
        k = k + 1;
    }
    None
}

/// Finds, from position `from` on, the next session-key packet addressed to
/// a local key, with that key's position. Packets addressed to no local key
/// are skipped: the message was simply not meant for them.
pub fn next_candidate(recipients: &Vec<Vec<u8>>, local: &Vec<Vec<u8>>, from: usize) -> (r: Option<
    (usize, usize),
>)
    ensures
        match r {
            Some((p, k)) => {
                &&& from <= p < recipients@.len()
                &&& k < local@.len()
                &&& local@[k as int]@ == recipients@[p as int]@
                &&& forall|j: int| 0 <= j < k ==> local@[j]@ != recipients@[p as int]@
                &&& forall|q: int| from <= q < p ==> !addressed(local@, recipients@[q]@)
            },
            None => forall|q: int|
                from <= q < recipients@.len() ==> !addressed(local@, recipients@[q]@),
        },
{
    let mut p: usize = from;
    while p < recipients.len()
        invariant
            from <= p,
            forall|q: int| from <= q < p ==> !addressed(local@, recipients@[q]@),
        decreases recipients@.len() - p,
    {
        match find_key(local, &recipients[p]) {
            Some(k) => {
                return Some((p, k));
            },
            None => {},
        }
        p = p + 1;
    }
    None
}

} // verus!

verus! {

/// The walk over a message's session-key packets: where the next search
/// starts.
pub struct PacketSearch {
    pub from: usize,
}

impl PacketSearch {
    /// A walk that starts at the first packet.
    pub fn new() -> (r: PacketSearch)
        ensures
            r.from == 0,
    {
        PacketSearch { from: 0 }
    }

    /// The next packet addressed to a local key, with that key's position,
    /// as `next_candidate` finds it from where the walk stands; the walk then
    /// moves past that packet, so each packet is tried at most once.
    pub fn next(&mut self, recipients: &Vec<Vec<u8>>, local: &Vec<Vec<u8>>) -> (r: Option<
        (usize, usize),
    >)
        ensures
            match r {
                Some((p, k)) => {
                    &&& old(self).from <= p < recipients@.len()
                    &&& k < local@.len()
                    &&& local@[k as int]@ == recipients@[p as int]@
                    &&& forall|j: int| 0 <= j < k ==> local@[j]@ != recipients@[p as int]@
                    &&& forall|q: int|
                        old(self).from <= q < p ==> !addressed(local@, recipients@[q]@)
                    &&& final(self).from == p + 1
                },
                None => {
                    &&& forall|q: int|
                        old(self).from <= q < recipients@.len() ==> !addressed(
                            local@,
                            recipients@[q]@,
                        )
                    &&& final(self).from == old(self).from
                },
            },
    {
        let count: usize = recipients.len();
        let r = next_candidate(recipients, local, self.from);
        match r {
            Some((p, _k)) => {
                assert(p < count);
                self.from = p + 1;
            },
            None => {},
        }
        r
    }
}

} // verus!
