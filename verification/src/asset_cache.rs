use vstd::multiset::Multiset;
use vstd::prelude::*;

use crate::hashing::{blake3_hex, hash_hex};

verus! {

/// One entry of the asset cache: a file in the cache directory, named by the
/// content-addressed identifier of its logical path, together with its size
/// in bytes and its last-accessed time in milliseconds since epoch. The
/// last-accessed time is maintained by the filesystem and approximates
/// recency; it is the basis for eviction ordering.
pub struct AssetEntry {
    /// The content-addressed identifier, which is also the file name.
    pub id: String,
    /// The file's size in bytes.
    pub size: u64,
    /// The file's last-accessed time, in milliseconds since epoch.
    pub atime_ms: i64,
}

/// The file name under which an asset with the given logical path is stored:
/// the content-addressed identifier of the path. A later lookup of the same
/// path addresses the same file.
pub fn entry_file_name(path: &str) -> (r: String)
    ensures
        r@ == blake3_hex(path@),
        r@.len() == 64,
{
    hash_hex(path)
}

/// A character the content-addressed identifiers are written with: a
/// lower-case hexadecimal digit.
pub open spec fn is_hex_digit(c: char) -> bool {
    ('0' <= c && c <= '9') || ('a' <= c && c <= 'f')
}

/// A well-formed asset identifier: exactly 64 lower-case hexadecimal
/// characters.
pub open spec fn is_valid_asset_id_spec(name: Seq<char>) -> bool {
    name.len() == 64 && forall|i: int| 0 <= i < name.len() ==> is_hex_digit(#[trigger] name[i])
}

/// Whether a file name in the cache directory is a well-formed asset
/// identifier. Files whose name is not are foreign to the cache and are
/// skipped defensively: they are never counted and never removed.
pub fn is_valid_asset_id(name: &str) -> (r: bool)
    ensures
        r == is_valid_asset_id_spec(name@),
{
    let len = name.unicode_len();
    if len != 64 {
        return false;
    }
    let mut i: usize = 0;
    while i < len
        invariant
            len == name@.len(),
            0 <= i <= len,
            forall|k: int| 0 <= k < i ==> is_hex_digit(#[trigger] name@[k]),
        decreases len - i,
    {
        let c = name.get_char(i);
        let digit = ('0' <= c && c <= '9') || ('a' <= c && c <= 'f');
        if !digit {
            return false;
        }
        i += 1;
    }
    true
}

/// The cache directory viewed as a map from file name to file contents,
/// after an asset is inserted for the given logical path.
pub open spec fn asset_dir_insert(
    dir: Map<Seq<char>, Seq<u8>>,
    path: Seq<char>,
    data: Seq<u8>,
) -> Map<Seq<char>, Seq<u8>> {
    dir.insert(blake3_hex(path), data)
}

/// A lookup of the given logical path against the cache directory viewed as
/// a map from file name to file contents.
pub open spec fn asset_dir_lookup(dir: Map<Seq<char>, Seq<u8>>, path: Seq<char>) -> Option<
    Seq<u8>,
> {
    if dir.contains_key(blake3_hex(path)) {
        Some(dir[blake3_hex(path)])
    } else {
        None
    }
}

/// Law: the asset cache round-trips its entries.
///
/// For every state of the cache directory and every (logical path, bytes)
/// pair, inserting the asset and then looking the same path up yields
/// exactly the inserted bytes: both operations address the directory at the
/// same content-addressed file name.
pub proof fn lemma_asset_round_trip(dir: Map<Seq<char>, Seq<u8>>, path: Seq<char>, data: Seq<u8>)
    ensures
        asset_dir_lookup(asset_dir_insert(dir, path, data), path) == Some(data),
{
}

/// The total size in bytes of a sequence of entries.
pub open spec fn total_size(s: Seq<AssetEntry>) -> int
    decreases s.len(),
{
    if s.len() == 0 {
        0
    } else {
        s[0].size + total_size(s.drop_first())
    }
}

/// Entries ordered by last-accessed time, oldest first.
pub open spec fn sorted_by_atime(s: Seq<AssetEntry>) -> bool {
    forall|i: int, j: int| 0 <= i <= j < s.len() ==> s[i].atime_ms <= s[j].atime_ms
}

/// An eviction order for a set of entries: the same entries, arranged
/// oldest-accessed first. Ties between equal access times leave the order
/// between them unspecified.
pub open spec fn is_eviction_order(entries: Seq<AssetEntry>, s: Seq<AssetEntry>) -> bool {
    &&& s.to_multiset() == entries.to_multiset()
    &&& sorted_by_atime(s)
}

/// A correct prune plan: the entries to remove are a least-recently-accessed
/// prefix of an eviction order of all entries, long enough that what remains
/// fits the target size, and no longer than that.
pub open spec fn is_prune_plan(
    entries: Seq<AssetEntry>,
    target: int,
    plan: Seq<AssetEntry>,
    s: Seq<AssetEntry>,
) -> bool {
    &&& is_eviction_order(entries, s)
    &&& plan.len() <= s.len()
    &&& plan == s.take(plan.len() as int)
    &&& total_size(s.skip(plan.len() as int)) <= target
    &&& plan.len() > 0 ==> total_size(s.skip(plan.len() as int - 1)) > target
}

/// Law: pruning evicts strictly least-recently-accessed first.
///
/// Any correct prune plan removes no more than needed to bring the
/// remaining entries at or below the target size, and never removes an
/// entry while one accessed less recently remains: every removed entry's
/// access time is at or below every kept entry's.
pub proof fn lemma_prune_plan_lru(
    entries: Seq<AssetEntry>,
    target: int,
    plan: Seq<AssetEntry>,
    s: Seq<AssetEntry>,
)
    requires
        is_prune_plan(entries, target, plan, s),
    ensures
        total_size(s.skip(plan.len() as int)) <= target,
        forall|i: int, j: int|
            0 <= i < plan.len() && plan.len() <= j < s.len() ==> plan[i].atime_ms <= s[j].atime_ms,
{
    assert forall|i: int, j: int|
        0 <= i < plan.len() && plan.len() <= j < s.len() implies plan[i].atime_ms
        <= s[j].atime_ms by {
        assert(plan[i] == s.take(plan.len() as int)[i]);
        assert(plan[i] == s[i]);
    }
}

/// The total size of a sequence grows by the pushed entry's size.
proof fn lemma_total_size_push(s: Seq<AssetEntry>, e: AssetEntry)
    ensures
        total_size(s.push(e)) == total_size(s) + e.size,
    decreases s.len(),
{
    if s.len() == 0 {
        assert(s.push(e).drop_first() =~= s);
    } else {
        assert(s.push(e).drop_first() =~= s.drop_first().push(e));
        lemma_total_size_push(s.drop_first(), e);
    }
}

/// Removing one entry lowers the total size by exactly its size.
proof fn lemma_total_size_remove(s: Seq<AssetEntry>, i: int)
    requires
        0 <= i < s.len(),
    ensures
        total_size(s.remove(i)) == total_size(s) - s[i].size,
    decreases s.len(),
{
    if i == 0 {
        assert(s.remove(0) =~= s.drop_first());
    } else {
        assert(s.remove(i).drop_first() =~= s.drop_first().remove(i - 1));
        lemma_total_size_remove(s.drop_first(), i - 1);
    }
}

/// No sequence of entries has a negative total size.
proof fn lemma_total_size_nonneg(s: Seq<AssetEntry>)
    ensures
        0 <= total_size(s),
    decreases s.len(),
{
    if s.len() > 0 {
        lemma_total_size_nonneg(s.drop_first());
    }
}

/// Dropping the head of a suffix accounts for exactly the head's size.
proof fn lemma_total_size_skip(s: Seq<AssetEntry>, k: int)
    requires
        0 <= k < s.len(),
    ensures
        total_size(s.skip(k)) == s[k].size + total_size(s.skip(k + 1)),
{
    assert(s.skip(k)[0] == s[k]);
    assert(s.skip(k).drop_first() =~= s.skip(k + 1));
}

/// Returns the total size of the given cache entries, saturating at the
/// largest representable total.
pub fn usage(entries: &Vec<AssetEntry>) -> (r: u64)
    ensures
        total_size(entries@) <= u64::MAX ==> r as int == total_size(entries@),
        total_size(entries@) > u64::MAX ==> r == u64::MAX,
{
    let ghost s = entries@;
    let mut sum: u64 = 0;
    let mut i: usize = 0;
    while i < entries.len()
        invariant
            0 <= i <= s.len(),
            entries@ == s,
            total_size(s.take(i as int)) <= u64::MAX ==> sum as int == total_size(
                s.take(i as int),
            ),
            total_size(s.take(i as int)) > u64::MAX ==> sum == u64::MAX,
        decreases s.len() - i,
    {
        proof {
            assert(s.take(i + 1) =~= s.take(i as int).push(s[i as int]));
            lemma_total_size_push(s.take(i as int), s[i as int]);
            lemma_total_size_nonneg(s.take(i as int));
        }
        let size = entries[i].size;
        sum = if size <= u64::MAX - sum {
            sum + size
        } else {
            u64::MAX
        };
        i += 1;
    }
    proof {
        assert(s.take(s.len() as int) =~= s);
    }
    sum
}

/// Arrange the given entries into an eviction order: oldest-accessed first,
/// with the same entries and the same total size.
fn sort_by_atime(entries: Vec<AssetEntry>) -> (r: Vec<AssetEntry>)
    ensures
        is_eviction_order(entries@, r@),
        r@.len() == entries@.len(),
        total_size(r@) == total_size(entries@),
{
    let ghost orig = entries@;
    let mut rest = entries;
    let mut out: Vec<AssetEntry> = Vec::new();
    proof {
        broadcast use vstd::seq_lib::group_to_multiset_ensures;

        assert(out@.to_multiset() =~= Multiset::<AssetEntry>::empty());
    }
    while rest.len() > 0
        invariant
            out@.to_multiset().add(rest@.to_multiset()) =~= orig.to_multiset(),
            total_size(out@) + total_size(rest@) == total_size(orig),
            sorted_by_atime(out@),
            forall|i: int, j: int|
                0 <= i < out@.len() && 0 <= j < rest@.len() ==> out@[i].atime_ms
                    <= rest@[j].atime_ms,
            out@.len() + rest@.len() == orig.len(),
        decreases rest@.len(),
    {
        let mut min_idx: usize = 0;
        let mut i: usize = 1;
        while i < rest.len()
            invariant
                0 <= min_idx < i <= rest@.len(),
                forall|j: int| 0 <= j < i ==> rest@[min_idx as int].atime_ms <= rest@[j].atime_ms,
            decreases rest@.len() - i,
        {
            if rest[i].atime_ms < rest[min_idx].atime_ms {
                min_idx = i;
            }
            i += 1;
        }
        let ghost rest_before = rest@;
        let picked = rest.remove(min_idx);
        proof {
            broadcast use vstd::seq_lib::group_to_multiset_ensures;

            lemma_total_size_remove(rest_before, min_idx as int);
            lemma_total_size_push(out@, picked);
            assert(rest_before.to_multiset().contains(picked));
            assert(out@.push(picked).to_multiset() =~= out@.to_multiset().insert(picked));
            assert(out@.push(picked).to_multiset().add(rest@.to_multiset()) =~= out@.to_multiset()
                .add(rest_before.to_multiset()));
        }
        out.push(picked);
    }
    proof {
        assert(rest@.to_multiset() =~= Multiset::<AssetEntry>::empty());
        assert(out@.to_multiset() =~= orig.to_multiset());
    }
    out
}

/// Compute which entries a prune to the given capacity removes.
///
/// The entries are considered oldest-accessed first, and are marked for
/// removal until the total size of what remains is at or below the target;
/// nothing is removed once the target is met. The returned entries are the
/// ones to remove, in removal order. Ties between equal access times are
/// resolved arbitrarily.
pub fn prune_plan(entries: Vec<AssetEntry>, target_size: u64) -> (r: Vec<AssetEntry>)
    requires
        total_size(entries@) <= u64::MAX,
    ensures
        exists|s: Seq<AssetEntry>| is_prune_plan(entries@, target_size as int, r@, s),
{
    let ghost orig = entries@;
    let mut sorted_entries = sort_by_atime(entries);
    let ghost s = sorted_entries@;
    let total = usage(&sorted_entries);
    let mut remaining: u64 = total;
    let mut k: usize = 0;
    proof {
        assert(s.skip(0) =~= s);
    }
    while remaining > target_size && k < sorted_entries.len()
        invariant
            0 <= k <= s.len(),
            sorted_entries@ == s,
            total_size(s) <= u64::MAX,
            remaining as int == total_size(s.skip(k as int)),
            k > 0 ==> total_size(s.skip(k as int - 1)) > target_size,
        decreases s.len() - k,
    {
        proof {
            lemma_total_size_skip(s, k as int);
            lemma_total_size_nonneg(s.skip(k + 1));
        }
        remaining = remaining - sorted_entries[k].size;
        k += 1;
    }
    proof {
        if remaining > target_size {
            assert(k == s.len());
            assert(s.skip(k as int) =~= Seq::<AssetEntry>::empty());
        }
    }
    sorted_entries.truncate(k);
    proof {
        assert(sorted_entries@ =~= s.take(k as int));
        assert(is_prune_plan(orig, target_size as int, sorted_entries@, s));
    }
    sorted_entries
}

} // verus!
