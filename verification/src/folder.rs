//! Loading a folder into the play queue: which entries become songs, and in
//! which order they are queued.
use vstd::prelude::*;

verus! {

/// The type of a folder entry, as far as loading tells them apart.
#[derive(Clone, Copy, Debug, PartialEq, Eq, Structural)]
pub enum FileKind {
    Directory,
    Regular,
    Other,
}

/// What loading does with a folder entry.
#[derive(Clone, Copy, Debug, PartialEq, Eq, Structural)]
pub enum EntryAction {
    /// Load the files of this sub-folder, in its place.
    Descend,
    /// Queue this file.
    Enqueue,
    /// Leave this entry out.
    Skip,
}

/// What loading does with an entry of kind `kind`, whose content type is
/// known to be audio when `is_audio`: sub-folders are entered only when
/// loading recursively, and only regular audio files are queued.
pub open spec fn spec_entry_action(kind: FileKind, recursive: bool, is_audio: bool) -> EntryAction {
    if recursive && kind == FileKind::Directory {
        EntryAction::Descend
    } else if kind == FileKind::Regular && is_audio {
        EntryAction::Enqueue
    } else {
        EntryAction::Skip
    }
}

/// Only regular audio files are queued, and sub-folders are entered exactly
/// when loading recursively; everything else is skipped.
pub proof fn lemma_entry_action_outcomes(kind: FileKind, recursive: bool, is_audio: bool)
    ensures
        (spec_entry_action(kind, recursive, is_audio) == EntryAction::Enqueue) <==> (kind
            == FileKind::Regular && is_audio),
        (spec_entry_action(kind, recursive, is_audio) == EntryAction::Descend) <==> (kind
            == FileKind::Directory && recursive),
{
}

/// What loading does with a folder entry.
pub fn folder_entry_action(kind: FileKind, recursive: bool, is_audio: bool) -> (action: EntryAction)
    ensures
        action == spec_entry_action(kind, recursive, is_audio),
{
    if recursive && kind == FileKind::Directory {
        EntryAction::Descend
    } else if kind == FileKind::Regular {
        if is_audio {
            EntryAction::Enqueue
        } else {
            EntryAction::Skip
        }
    } else {
        EntryAction::Skip
    }
}

/// The key a file is queued by: the name of its folder, a dash, its own name.
pub open spec fn spec_sort_key(parent_name: Seq<char>, name: Seq<char>) -> Seq<char> {
    parent_name + seq!['-'] + name
}

/// The key a file is queued by.
pub fn sort_key(parent_name: &str, name: &str) -> (key: String)
    ensures
        key@ == spec_sort_key(parent_name@, name@),
{
    let mut key = parent_name.to_owned();
    key.append("-");
    proof { reveal_strlit("-"); }
    key.append(name);
    assert(key@ =~= spec_sort_key(parent_name@, name@));
    key
}

/// Lexicographic order of strings by character: the order of `String`'s
/// comparison, as UTF-8 preserves the order of code points.
pub open spec fn lex_lt(a: Seq<char>, b: Seq<char>) -> bool
    decreases a.len(),
{
    if a.len() == 0 {
        b.len() > 0
    } else if b.len() == 0 {
        false
    } else if a[0] < b[0] {
        true
    } else if a[0] == b[0] {
        lex_lt(a.drop_first(), b.drop_first())
    } else {
        false
    }
}

/// Whether `a` is a proper prefix of `b`.
pub open spec fn proper_prefix(a: Seq<char>, b: Seq<char>) -> bool {
    a.len() < b.len() && a == b.subrange(0, a.len() as int)
}

/// Whether `a` and `b` first differ at `i`, where `a` has the smaller
/// character (characters are ordered by code point).
pub open spec fn smaller_at(a: Seq<char>, b: Seq<char>, i: int) -> bool {
    &&& 0 <= i < a.len()
    &&& i < b.len()
    &&& a.subrange(0, i) == b.subrange(0, i)
    &&& a[i] < b[i]
}

/// The order of strings is that of Rust's `String` comparison: `a` comes
/// before `b` exactly when it is a proper prefix of `b`, or when at the first
/// position where they differ, `a` has the smaller code point.
pub proof fn lemma_lex_lt_first_difference(a: Seq<char>, b: Seq<char>)
    ensures
        lex_lt(a, b) <==> (proper_prefix(a, b) || exists|i: int| smaller_at(a, b, i)),
    decreases a.len(),
{
    if a.len() == 0 {
        if b.len() > 0 {
            assert(a =~= b.subrange(0, 0));
        }
    } else if b.len() == 0 {
    } else {
        let a1 = a.drop_first();
        let b1 = b.drop_first();
        lemma_lex_lt_first_difference(a1, b1);
        if a[0] == b[0] {
            if proper_prefix(a1, b1) {
                assert forall|k: int| 0 <= k < a.len() implies a[k] == b.subrange(0, a.len() as int)[k] by {
                    if k > 0 {
                        assert(a[k] == a1[k - 1]);
                        assert(a1[k - 1] == b1.subrange(0, a1.len() as int)[k - 1]);
                    }
                }
                assert(a =~= b.subrange(0, a.len() as int));
            }
            if proper_prefix(a, b) {
                assert(a1 =~= b1.subrange(0, a1.len() as int));
            }
            if exists|i: int| smaller_at(a1, b1, i) {
                let i = choose|i: int| smaller_at(a1, b1, i);
                assert(a.subrange(0, i + 1) =~= seq![a[0]] + a1.subrange(0, i));
                assert(b.subrange(0, i + 1) =~= seq![b[0]] + b1.subrange(0, i));
                assert(smaller_at(a, b, i + 1));
            }
            if exists|i: int| smaller_at(a, b, i) {
                let i = choose|i: int| smaller_at(a, b, i);
                if i == 0 {
                    assert(false);
                } else {
                    assert(a1.subrange(0, i - 1) =~= a.subrange(0, i).drop_first());
                    assert(b1.subrange(0, i - 1) =~= b.subrange(0, i).drop_first());
                    assert(smaller_at(a1, b1, i - 1));
                }
            }
        } else if a[0] < b[0] {
            assert(a.subrange(0, 0) =~= b.subrange(0, 0));
            assert(smaller_at(a, b, 0));
        } else {
            if proper_prefix(a, b) {
                assert(a[0] == b.subrange(0, a.len() as int)[0]);
            }
            if exists|i: int| smaller_at(a, b, i) {
                let i = choose|i: int| smaller_at(a, b, i);
                if i > 0 {
                    assert(a[0] == a.subrange(0, i)[0]);
                    assert(b[0] == b.subrange(0, i)[0]);
                }
            }
        }
    }
}

/// Whether the file at index `i` is queued before the one at index `j`:
/// by key, and in their listed order where the keys are equal.
pub open spec fn queued_before(keys: Seq<Seq<char>>, i: int, j: int) -> bool {
    lex_lt(keys[i], keys[j]) || (keys[i] == keys[j] && i < j)
}

/// The views of a list of strings.
pub open spec fn key_views(keys: Seq<String>) -> Seq<Seq<char>> {
    keys.map_values(|k: String| k@)
}

/// `order` lists each index below `n` exactly once.
pub open spec fn is_permutation(order: Seq<usize>, n: nat) -> bool {
    &&& order.len() == n
    &&& forall|i: int| 0 <= i < order.len() ==> #[trigger] order[i] < n
    &&& forall|i: int, j: int| 0 <= i < j < order.len() ==> order[i] != order[j]
}

/// `order` lists indices in queue order.
pub open spec fn is_queue_order(keys: Seq<Seq<char>>, order: Seq<usize>) -> bool {
    forall|i: int, j: int|
        #![trigger order[i], order[j]]
        0 <= i < j < order.len() ==> queued_before(keys, order[i] as int, order[j] as int)
}

/// No string comes before itself.
pub proof fn lemma_lex_irreflexive(a: Seq<char>)
    ensures
        !lex_lt(a, a),
    decreases a.len(),
{
    if a.len() > 0 {
        lemma_lex_irreflexive(a.drop_first());
    }
}

/// The order of strings is transitive.
pub proof fn lemma_lex_transitive(a: Seq<char>, b: Seq<char>, c: Seq<char>)
    requires
        lex_lt(a, b),
        lex_lt(b, c),
    ensures
        lex_lt(a, c),
    decreases a.len(),
{
    if a.len() > 0 && b.len() > 0 && c.len() > 0 && a[0] == b[0] && b[0] == c[0] {
        lemma_lex_transitive(a.drop_first(), b.drop_first(), c.drop_first());
    }
}

/// Of two different strings, one comes before the other.
pub proof fn lemma_lex_total(a: Seq<char>, b: Seq<char>)
    requires
        a != b,
    ensures
        lex_lt(a, b) || lex_lt(b, a),
    decreases a.len(),
{
    if a.len() > 0 && b.len() > 0 && a[0] == b[0] {
        if a.drop_first() == b.drop_first() {
            assert(a =~= seq![a[0]] + a.drop_first());
            assert(b =~= seq![b[0]] + b.drop_first());
        }
        lemma_lex_total(a.drop_first(), b.drop_first());
    } else if a.len() == 0 && b.len() == 0 {
        assert(a =~= b);
    }
}

/// Two strings that agree on their first `i` characters compare as their rests do.
proof fn lemma_lex_skip(a: Seq<char>, b: Seq<char>, i: int)
    requires
        0 <= i <= a.len(),
        i <= b.len(),
        a.subrange(0, i) == b.subrange(0, i),
    ensures
        lex_lt(a, b) == lex_lt(a.subrange(i, a.len() as int), b.subrange(i, b.len() as int)),
    decreases i,
{
    if i > 0 {
        assert(a[0] == a.subrange(0, i)[0]);
        assert(b[0] == b.subrange(0, i)[0]);
        assert(a.drop_first().subrange(0, i - 1) =~= a.subrange(0, i).drop_first());
        assert(b.drop_first().subrange(0, i - 1) =~= b.subrange(0, i).drop_first());
        lemma_lex_skip(a.drop_first(), b.drop_first(), i - 1);
        assert(a.drop_first().subrange(i - 1, a.len() - 1) =~= a.subrange(i, a.len() as int));
        assert(b.drop_first().subrange(i - 1, b.len() - 1) =~= b.subrange(i, b.len() as int));
    } else {
        assert(a.subrange(0, a.len() as int) =~= a);
        assert(b.subrange(0, b.len() as int) =~= b);
    }
}

/// Whether `a` comes before `b`, comparing character by character.
pub fn string_lt(a: &String, b: &String) -> (lt: bool)
    ensures
        lt == lex_lt(a@, b@),
{
    let sa = a.as_str();
    let sb = b.as_str();
    let la = sa.unicode_len();
    let lb = sb.unicode_len();
    let mut i: usize = 0;
    while i < la && i < lb
        invariant
            sa@ == a@,
            sb@ == b@,
            la == a@.len(),
            lb == b@.len(),
            i <= la,
            i <= lb,
            a@.subrange(0, i as int) == b@.subrange(0, i as int),
        decreases la - i,
    {
        let ca = sa.get_char(i);
        let cb = sb.get_char(i);
        if ca != cb {
            proof {
                lemma_lex_skip(a@, b@, i as int);
                let ra = a@.subrange(i as int, la as int);
                let rb = b@.subrange(i as int, lb as int);
                assert(ra[0] == ca);
                assert(rb[0] == cb);
                assert(ra.len() > 0 && rb.len() > 0);
                assert(lex_lt(ra, rb) == (ca < cb));
                assert(lex_lt(a@, b@) == (ca < cb));
            }
            return ca < cb;
        }
        assert(a@.subrange(0, i + 1) =~= a@.subrange(0, i as int).push(ca));
        assert(b@.subrange(0, i + 1) =~= b@.subrange(0, i as int).push(cb));
        i = i + 1;
    }
    proof {
        lemma_lex_skip(a@, b@, i as int);
        let ra = a@.subrange(i as int, la as int);
        let rb = b@.subrange(i as int, lb as int);
        assert(ra.len() == 0 || rb.len() == 0);
    }
    la < lb
}

proof fn lemma_queued_before_transitive(keys: Seq<Seq<char>>, i: int, j: int, k: int)
    requires
        queued_before(keys, i, j),
        queued_before(keys, j, k),
    ensures
        queued_before(keys, i, k),
{
    if lex_lt(keys[i], keys[j]) && lex_lt(keys[j], keys[k]) {
        lemma_lex_transitive(keys[i], keys[j], keys[k]);
    }
}

/// The order in which files are queued: indices into `keys`, sorted by key,
/// files with equal keys keeping their listed order (a stable sort).
pub fn queue_order(keys: &Vec<String>) -> (order: Vec<usize>)
    ensures
        is_permutation(order@, keys@.len()),
        is_queue_order(key_views(keys@), order@),
{
    let ghost kv = key_views(keys@);
    let n = keys.len();
    let mut order: Vec<usize> = Vec::new();
    let mut next: usize = 0;
    while next < n
        invariant
            n == keys@.len(),
            kv == key_views(keys@),
            next <= n,
            is_permutation(order@, next as nat),
            is_queue_order(kv, order@),
        decreases n - next,
    {
        let mut pos = order.len();
        while pos > 0 && string_lt(&keys[next], &keys[order[pos - 1]])
            invariant
                n == keys@.len(),
                kv == key_views(keys@),
                next < n,
                pos <= order@.len(),
                is_permutation(order@, next as nat),
                is_queue_order(kv, order@),
                forall|q: int| pos <= q < order@.len() ==> lex_lt(kv[next as int], #[trigger] kv[order@[q] as int]),
            decreases pos,
        {
            assert(kv[next as int] == keys@[next as int]@);
            assert(kv[order@[pos - 1] as int] == keys@[order@[pos - 1] as int]@);
            pos = pos - 1;
        }
        proof {
            if pos > 0 {
                let prev = order@[pos - 1] as int;
                assert(kv[next as int] == keys@[next as int]@);
                assert(kv[prev] == keys@[prev]@);
                assert(!lex_lt(kv[next as int], kv[prev]));
                if kv[prev] != kv[next as int] {
                    lemma_lex_total(kv[prev], kv[next as int]);
                }
                assert(queued_before(kv, prev, next as int));
                assert forall|q: int| 0 <= q < pos implies queued_before(kv, #[trigger] order@[q] as int, next as int) by {
                    if q < pos - 1 {
                        lemma_queued_before_transitive(kv, order@[q] as int, prev, next as int);
                    }
                }
            }
        }
        let ghost old_order = order@;
        order.insert(pos, next);
        proof {
            assert(order@ == old_order.insert(pos as int, next));
            assert forall|i: int, j: int| 0 <= i < j < order@.len() implies #[trigger] order@[i] != #[trigger] order@[j] by {
                if i < pos as int && j < pos as int {
                    assert(order@[i] == old_order[i] && order@[j] == old_order[j]);
                } else if i < pos as int && j == pos as int {
                    assert(order@[i] == old_order[i]);
                } else if i < pos as int {
                    assert(order@[i] == old_order[i] && order@[j] == old_order[j - 1]);
                } else if i == pos as int {
                    assert(order@[j] == old_order[j - 1]);
                } else {
                    assert(order@[i] == old_order[i - 1] && order@[j] == old_order[j - 1]);
                }
            }
            assert forall|i: int| 0 <= i < order@.len() implies #[trigger] order@[i] < next + 1 by {
                if i < pos as int {
                    assert(order@[i] == old_order[i]);
                } else if i > pos as int {
                    assert(order@[i] == old_order[i - 1]);
                }
            }
            assert forall|i: int, j: int|
                #![trigger order@[i], order@[j]]
                0 <= i < j < order@.len() implies queued_before(kv, order@[i] as int, order@[j] as int) by {
                if i < pos as int && j < pos as int {
                    assert(order@[i] == old_order[i] && order@[j] == old_order[j]);
                    assert(queued_before(kv, old_order[i] as int, old_order[j] as int));
                } else if i < pos as int && j == pos as int {
                    assert(order@[i] == old_order[i]);
                } else if i < pos as int {
                    assert(order@[i] == old_order[i] && order@[j] == old_order[j - 1]);
                    assert(queued_before(kv, old_order[i] as int, old_order[j - 1] as int));
                } else if i == pos as int {
                    assert(order@[j] == old_order[j - 1]);
                    assert(lex_lt(kv[next as int], kv[old_order[j - 1] as int]));
                } else {
                    assert(order@[i] == old_order[i - 1] && order@[j] == old_order[j - 1]);
                    assert(queued_before(kv, old_order[i - 1] as int, old_order[j - 1] as int));
                }
            }
        }
        next = next + 1;
    }
    order
}

} // verus!
