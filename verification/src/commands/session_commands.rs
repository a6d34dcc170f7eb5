//! Session snapshots: the names of their files and the order in which they
//! are listed.

use vstd::prelude::*;
use vstd::string::StringExecFns;
use crate::text::{char_is_alphanumeric, chars_of, is_alphanumeric, push_char, texts, views};

verus! {

/// The character that stands for `c` in a file name: `c` itself where it is a
/// letter, a number, a hyphen or an underscore, and an underscore otherwise.
/// `alphanumeric` says whether `c` is a letter or a number.
pub open spec fn spec_sanitize_char(c: char, alphanumeric: bool) -> char {
    if alphanumeric || c == '-' || c == '_' {
        c
    } else {
        '_'
    }
}

/// `name` with every character replaced by the one that stands for it in a
/// file name.
pub open spec fn spec_sanitize(name: Seq<char>) -> Seq<char> {
    Seq::new(name.len(), |i: int| spec_sanitize_char(name[i], is_alphanumeric(name[i])))
}

/// The name of the file that holds the snapshot called `name`.
pub open spec fn spec_snapshot_file(name: Seq<char>) -> Seq<char> {
    spec_sanitize(name) + ".json"@
}

/// The character that stands for `c` in a file name, given whether `c` is a
/// letter or a number.
pub fn sanitize_char(c: char, alphanumeric: bool) -> (out: char)
    ensures
        out == spec_sanitize_char(c, alphanumeric),
{
    if alphanumeric || c == '-' || c == '_' {
        c
    } else {
        '_'
    }
}

/// Makes a snapshot's name safe for use as a file name: every character that
/// is no letter, number, hyphen or underscore becomes an underscore. The
/// result has as many characters as `name`.
pub fn sanitize_filename(name: &str) -> (out: String)
    ensures
        out@ == spec_sanitize(name@),
        out@.len() == name@.len(),
{
    let mut out = String::new();
    for c in it: name.chars()
        invariant
            it.seq() == name@,
            out@ == spec_sanitize(name@.take(it.index() as int)),
    {
        let kept = sanitize_char(c, char_is_alphanumeric(c));
        push_char(&mut out, kept);
        assert(out@ =~= spec_sanitize(name@.take(it.index() + 1)));
    }
    assert(name@.take(name@.len() as int) =~= name@);
    out
}

/// The name of the file in which the snapshot called `name` is kept: the
/// sanitized name with the extension `.json`.
pub fn snapshot_file_name(name: &str) -> (out: String)
    ensures
        out@ == spec_snapshot_file(name@),
{
    let mut out = sanitize_filename(name);
    out.append(".json");
    out
}

/// Whether `a` comes before `b` in the order of texts: character by
/// character, and a text before every text that it begins.
pub open spec fn text_less(a: Seq<char>, b: Seq<char>) -> bool
    decreases a.len(),
{
    if b.len() == 0 {
        false
    } else if a.len() == 0 {
        true
    } else if a[0] != b[0] {
        a[0] < b[0]
    } else {
        text_less(a.skip(1), b.skip(1))
    }
}

/// Whether the snapshot at position `i` is listed before the one at
/// position `j`, given when each was created: the later one first, and of
/// two created at the same time the one that stands first.
pub open spec fn listed_before(created: Seq<Seq<char>>, i: int, j: int) -> bool {
    text_less(created[j], created[i]) || (created[i] == created[j] && i < j)
}

/// Whether `order` lists the positions of `created`, each once, the newest
/// first.
pub open spec fn is_newest_first(created: Seq<Seq<char>>, order: Seq<usize>) -> bool {
    &&& order.len() == created.len()
    &&& forall|p: int| 0 <= p < order.len() ==> #[trigger] order[p] < created.len()
    &&& forall|p: int, q: int|
        0 <= p < q < order.len() ==> listed_before(
            created,
            #[trigger] order[p] as int,
            #[trigger] order[q] as int,
        )
}

/// No text comes before itself, and of two different texts one comes before
/// the other.
pub proof fn lemma_text_order_total(a: Seq<char>, b: Seq<char>)
    ensures
        !text_less(a, a),
        a != b ==> (text_less(a, b) || text_less(b, a)),
        !(text_less(a, b) && text_less(b, a)),
    decreases a.len(),
{
    if a.len() > 0 {
        lemma_text_order_total(a.skip(1), a.skip(1));
    }
    if a.len() > 0 && b.len() > 0 {
        lemma_text_order_total(a.skip(1), b.skip(1));
        if a[0] == b[0] && a.skip(1) == b.skip(1) {
            assert(a =~= seq![a[0]] + a.skip(1));
            assert(b =~= seq![b[0]] + b.skip(1));
        }
    } else if a.len() == 0 && b.len() == 0 {
        assert(a =~= b);
    }
}

/// What comes before a text comes before everything that the text comes
/// before.
pub proof fn lemma_text_order_transitive(a: Seq<char>, b: Seq<char>, c: Seq<char>)
    requires
        text_less(a, b),
        text_less(b, c),
    ensures
        text_less(a, c),
    decreases a.len(),
{
    if a.len() > 0 && a[0] == b[0] && b[0] == c[0] {
        lemma_text_order_transitive(a.skip(1), b.skip(1), c.skip(1));
    }
}

/// Whether `a` comes before `b` in the order of texts.
pub fn text_before(a: &Vec<char>, b: &Vec<char>) -> (out: bool)
    ensures
        out == text_less(a@, b@),
{
    let mut i: usize = 0;
    assert(a@.skip(0) =~= a@ && b@.skip(0) =~= b@);
    while i < a.len() && i < b.len()
        invariant
            i <= a.len(),
            i <= b.len(),
            text_less(a@, b@) == text_less(a@.skip(i as int), b@.skip(i as int)),
        decreases a.len() - i,
    {
        proof {
            assert(a@.skip(i as int)[0] == a@[i as int]);
            assert(b@.skip(i as int)[0] == b@[i as int]);
            assert(a@.skip(i as int).skip(1) =~= a@.skip(i + 1));
            assert(b@.skip(i as int).skip(1) =~= b@.skip(i + 1));
        }
        if a[i] != b[i] {
            return a[i] < b[i];
        }
        i += 1;
    }
    i < b.len()
}

/// The order in which snapshots are listed, given when each was created:
/// the positions of `created`, the newest first. Snapshots created at the
/// same time keep the order in which they stand.
pub fn newest_first(created: &Vec<String>) -> (out: Vec<usize>)
    ensures
        is_newest_first(texts(created@), out@),
{
    let n = created.len();
    let mut keys: Vec<Vec<char>> = Vec::new();
    let mut k: usize = 0;
    while k < n
        invariant
            k <= n == created.len(),
            keys.len() == k,
            forall|j: int| 0 <= j < k ==> #[trigger] keys@[j]@ == created@[j]@,
        decreases n - k,
    {
        keys.push(chars_of(created[k].as_str()));
        k += 1;
    }
    let ghost shown = texts(created@);
    assert(views(keys@) =~= shown);
    let mut order: Vec<usize> = Vec::new();
    let mut i: usize = 0;
    while i < n
        invariant
            i <= n == keys.len(),
            shown.len() == n,
            views(keys@) == shown,
            order.len() == i,
            forall|p: int| 0 <= p < order.len() ==> #[trigger] order@[p] < i,
            forall|p: int, q: int|
                0 <= p < q < order.len() ==> listed_before(
                    shown,
                    #[trigger] order@[p] as int,
                    #[trigger] order@[q] as int,
                ),
        decreases n - i,
    {
        let mut at: usize = 0;
        while at < order.len() && !text_before(&keys[order[at]], &keys[i])
            invariant
                at <= order.len() == i < n == keys.len(),
                views(keys@) == shown,
                forall|p: int| 0 <= p < order.len() ==> #[trigger] order@[p] < i,
                forall|p: int|
                    0 <= p < at ==> !text_less(shown[#[trigger] order@[p] as int], shown[i as int]),
            decreases order.len() - at,
        {
            proof {
                assert(views(keys@)[order@[at as int] as int] == keys@[order@[at as int] as int]@);
                assert(views(keys@)[i as int] == keys@[i as int]@);
            }
            at += 1;
        }
        let ghost old_order = order@;
        proof {
            if at < order.len() {
                assert(views(keys@)[order@[at as int] as int] == keys@[order@[at as int] as int]@);
                assert(views(keys@)[i as int] == keys@[i as int]@);
                assert(text_less(shown[old_order[at as int] as int], shown[i as int]));
            }
        }
        order.insert(at, i);
        proof {
            let new_order = order@;
            assert forall|p: int, q: int| 0 <= p < q < new_order.len() implies listed_before(
                shown,
                #[trigger] new_order[p] as int,
                #[trigger] new_order[q] as int,
            ) by {
                if q < at {
                    assert(new_order[p] == old_order[p] && new_order[q] == old_order[q]);
                } else if q == at {
                    // an older entry stays before the new one
                    assert(new_order[p] == old_order[p]);
                    let e = old_order[p] as int;
                    assert(!text_less(shown[e], shown[i as int]));
                    lemma_text_order_total(shown[e], shown[i as int]);
                    assert(e < i);
                } else if p < at {
                    assert(new_order[p] == old_order[p] && new_order[q] == old_order[q - 1]);
                } else if p == at {
                    // the new entry comes before everything that is older than it
                    let first = old_order[at as int] as int;
                    let e = old_order[q - 1] as int;
                    assert(new_order[q] == old_order[q - 1]);
                    if q - 1 > at {
                        assert(listed_before(shown, old_order[at as int] as int, old_order[q - 1] as int));
                        if text_less(shown[e], shown[first]) {
                            lemma_text_order_transitive(shown[e], shown[first], shown[i as int]);
                        }
                    }
                    assert(text_less(shown[e], shown[i as int]));
                } else {
                    assert(new_order[p] == old_order[p - 1] && new_order[q] == old_order[q - 1]);
                }
            }
            assert forall|p: int| 0 <= p < new_order.len() implies #[trigger] new_order[p] < i
                + 1 by {
                if p < at {
                    assert(new_order[p] == old_order[p]);
                } else if p > at {
                    assert(new_order[p] == old_order[p - 1]);
                }
            }
        }
        i += 1;
    }
    order
}

} // verus!
