//! File counting over the entries of a directory walk.
//!
//! A walk yields one entry per visited path. Only regular files are counted;
//! directories, other kinds and entries that failed to read are skipped, so a
//! count can never fail. The parallel mode hands entries out to workers in
//! batches, in no particular order, and adds up what each worker counted.
use vstd::multiset::Multiset;
use vstd::prelude::*;

verus! {

/// What a directory walk found at one path.
#[derive(Clone, Copy, Debug, PartialEq, Eq, Structural)]
pub enum EntryKind {
    File,
    Directory,
    Other,
    /// The entry could not be read (permission denied, broken link, ...).
    Unreadable,
}

/// Number of regular files among `s`.
pub open spec fn file_count(s: Seq<EntryKind>) -> nat
    decreases s.len(),
{
    if s.len() == 0 {
        0
    } else {
        file_count(s.drop_last()) + if s.last() is File { 1nat } else { 0nat }
    }
}

/// The entries of each batch, as sequences.
pub open spec fn batch_views(batches: Seq<Vec<EntryKind>>) -> Seq<Seq<EntryKind>> {
    batches.map_values(|b: Vec<EntryKind>| b@)
}

/// All entries of all batches, batch after batch.
pub open spec fn all_entries(batches: Seq<Vec<EntryKind>>) -> Seq<EntryKind> {
    batch_views(batches).flatten()
}

/// Counting a concatenation adds the counts of its parts.
pub proof fn lemma_file_count_concat(a: Seq<EntryKind>, b: Seq<EntryKind>)
    ensures
        file_count(a + b) == file_count(a) + file_count(b),
    decreases b.len(),
{
    if b.len() == 0 {
        assert(a + b =~= a);
    } else {
        assert((a + b).drop_last() =~= a + b.drop_last());
        assert((a + b).last() == b.last());
        lemma_file_count_concat(a, b.drop_last());
    }
}

/// The count depends only on which entries were seen, not on their order:
/// it is the multiplicity of `File` in the multiset of entries.
pub proof fn lemma_file_count_multiset(s: Seq<EntryKind>)
    ensures
        file_count(s) == s.to_multiset().count(EntryKind::File),
    decreases s.len(),
{
    broadcast use vstd::seq_lib::group_seq_properties;
    if s.len() == 0 {
        assert(s.to_multiset() =~= Multiset::empty());
    } else {
        let init = s.drop_last();
        lemma_file_count_multiset(init);
        assert(init.push(s.last()) =~= s);
        init.to_multiset_ensures();
    }
}

/// A count never exceeds the number of entries.
pub proof fn lemma_file_count_le_len(s: Seq<EntryKind>)
    ensures
        file_count(s) <= s.len(),
    decreases s.len(),
{
    if s.len() > 0 {
        lemma_file_count_le_len(s.drop_last());
    }
}

/// The batches before position `j` hold no more entries than all batches.
proof fn lemma_prefix_flatten_len(bs: Seq<Seq<EntryKind>>, j: int)
    requires
        0 <= j <= bs.len(),
    ensures
        bs.take(j).flatten().len() <= bs.flatten().len(),
    decreases bs.len() - j,
{
    broadcast use vstd::seq_lib::group_seq_properties;
    if j == bs.len() {
        assert(bs.take(j) =~= bs);
    } else {
        assert(bs.take(j + 1) =~= bs.take(j).push(bs[j]));
        bs.take(j).lemma_flatten_push(bs[j]);
        lemma_prefix_flatten_len(bs, j + 1);
    }
}

/// Sequential and parallel counting agree: whatever order a walk visits the
/// tree in, and however its entries are split into batches among workers, the
/// sum of the batch counts equals the count of one sequential pass.
pub proof fn lemma_parallel_count_matches_sequential(
    walk: Seq<EntryKind>,
    batches: Seq<Seq<EntryKind>>,
)
    requires
        batches.flatten().to_multiset() == walk.to_multiset(),
    ensures
        file_count(batches.flatten()) == file_count(walk),
{
    lemma_file_count_multiset(walk);
    lemma_file_count_multiset(batches.flatten());
}

/// Whether an entry is counted.
pub fn is_counted(kind: EntryKind) -> (r: bool)
    ensures
        r == (kind is File),
{
    match kind {
        EntryKind::File => true,
        _ => false,
    }
}

/// Counts the regular files among the entries of a walk, one after another.
pub fn count_sequential(entries: &Vec<EntryKind>) -> (r: u64)
    ensures
        r == file_count(entries@),
{
    let mut count: u64 = 0;
    let mut i: usize = 0;
    while i < entries.len()
        invariant
            i <= entries@.len(),
            count <= i,
            count == file_count(entries@.take(i as int)),
        decreases entries@.len() - i,
    {
        assert(entries@.take(i as int + 1).drop_last() =~= entries@.take(i as int));
        if is_counted(entries[i]) {
            count = count + 1;
        }
        i = i + 1;
    }
    assert(entries@.take(i as int) =~= entries@);
    count
}

/// Counts the regular files among entries that workers took in batches:
/// each batch is counted on its own and the batch counts are summed.
pub fn count_parallel(batches: &Vec<Vec<EntryKind>>) -> (r: u64)
    requires
        all_entries(batches@).len() <= u64::MAX,
    ensures
        r == file_count(all_entries(batches@)),
{
    broadcast use vstd::seq_lib::group_seq_properties;
    let mut total: u64 = 0;
    let mut i: usize = 0;
    while i < batches.len()
        invariant
            i <= batches@.len(),
            all_entries(batches@).len() <= u64::MAX,
            total == file_count(all_entries(batches@.take(i as int))),
            total <= all_entries(batches@.take(i as int)).len(),
        decreases batches@.len() - i,
    {
        let part = count_sequential(&batches[i]);
        proof {
            let before = batch_views(batches@.take(i as int));
            assert(batch_views(batches@.take(i as int + 1)) =~= before.push(batches@[i as int]@));
            before.lemma_flatten_push(batches@[i as int]@);
            lemma_file_count_concat(before.flatten(), batches@[i as int]@);
            lemma_prefix_flatten_len(batch_views(batches@), i as int + 1);
            assert(batch_views(batches@).take(i as int + 1) =~= batch_views(
                batches@.take(i as int + 1),
            ));
            lemma_file_count_le_len(batches@[i as int]@);
        }
        total = total + part;
        i = i + 1;
    }
    assert(batches@.take(i as int) =~= batches@);
    total
}

} // verus!
