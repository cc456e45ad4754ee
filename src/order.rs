//! The order of keys: text compared character by character, a proper prefix
//! first, as `String`'s own order does.
use vstd::prelude::*;
use vstd::string::StrSliceExecFns;

verus! {

/// `a` comes strictly before `b`.
pub open spec fn text_lt(a: Seq<char>, b: Seq<char>) -> bool
    decreases a.len(),
{
    if a.len() == 0 {
        b.len() > 0
    } else if b.len() == 0 {
        false
    } else if a[0] != b[0] {
        (a[0] as int) < (b[0] as int)
    } else {
        text_lt(a.drop_first(), b.drop_first())
    }
}

pub proof fn lemma_text_lt_irreflexive(a: Seq<char>)
    ensures
        !text_lt(a, a),
    decreases a.len(),
{
    if a.len() > 0 {
        lemma_text_lt_irreflexive(a.drop_first());
    }
}

pub proof fn lemma_text_lt_transitive(a: Seq<char>, b: Seq<char>, c: Seq<char>)
    requires
        text_lt(a, b),
        text_lt(b, c),
    ensures
        text_lt(a, c),
    decreases a.len(),
{
    if a.len() > 0 && b.len() > 0 && c.len() > 0 && a[0] == b[0] && b[0] == c[0] {
        lemma_text_lt_transitive(a.drop_first(), b.drop_first(), c.drop_first());
    }
}

pub proof fn lemma_text_lt_total(a: Seq<char>, b: Seq<char>)
    requires
        a != b,
    ensures
        text_lt(a, b) || text_lt(b, a),
    decreases a.len(),
{
    if a.len() > 0 && b.len() > 0 && a[0] == b[0] {
        if a.drop_first() == b.drop_first() {
            assert(a =~= seq![a[0]] + a.drop_first());
            assert(b =~= seq![b[0]] + b.drop_first());
        }
        lemma_text_lt_total(a.drop_first(), b.drop_first());
    } else if a.len() > 0 && b.len() > 0 {
        assert((a[0] as int) != (b[0] as int));
    } else if a.len() == 0 && b.len() == 0 {
        assert(a =~= b);
    }
}

/// Whether `a` comes strictly before `b`.
pub fn less_than(a: &String, b: &String) -> (r: bool)
    ensures
        r == text_lt(a@, b@),
{
    let sa = a.as_str();
    let sb = b.as_str();
    let la = sa.unicode_len();
    let lb = sb.unicode_len();
    let mut i: usize = 0;
    assert(a@.skip(0) =~= a@ && b@.skip(0) =~= b@);
    while i < la && i < lb
        invariant
            sa@ == a@,
            sb@ == b@,
            la == a@.len(),
            lb == b@.len(),
            i <= la,
            i <= lb,
            text_lt(a@, b@) == text_lt(a@.skip(i as int), b@.skip(i as int)),
        decreases la - i,
    {
        let ca = sa.get_char(i);
        let cb = sb.get_char(i);
        assert(a@.skip(i as int)[0] == ca && b@.skip(i as int)[0] == cb);
        if ca != cb {
            return (ca as u32) < (cb as u32);
        }
        assert(a@.skip(i as int).drop_first() =~= a@.skip(i + 1));
        assert(b@.skip(i as int).drop_first() =~= b@.skip(i + 1));
        i += 1;
    }
    i < lb && i >= la
}

} // verus!

verus! {

/// `k` lies after the cursor; every key does when there is none.
pub open spec fn after_cursor(cursor: Option<Seq<char>>, k: Seq<char>) -> bool {
    match cursor {
        Some(c) => text_lt(c, k),
        None => true,
    }
}

/// `k` is one of the texts of `s`.
pub open spec fn has_text(s: Seq<String>, k: Seq<char>) -> bool {
    exists|i: int| 0 <= i < s.len() && #[trigger] s[i]@ == k
}

/// `r` is the page of at most `limit` keys of `keys` after `after`, in
/// ascending order without repeats: no key after `after` that comes before
/// the page's end is left out, and when the page is not full none is.
pub open spec fn is_page(keys: Seq<String>, after: Option<Seq<char>>, limit: nat, r: Seq<String>) -> bool {
    &&& r.len() <= limit
    &&& forall|i: int|
        0 <= i < r.len() ==> has_text(keys, #[trigger] r[i]@) && after_cursor(after, r[i]@)
    &&& forall|i: int| 0 <= i < r.len() - 1 ==> text_lt(#[trigger] r[i]@, r[i + 1]@)
    &&& forall|i: int|
        0 <= i < keys.len() && after_cursor(after, #[trigger] keys[i]@) ==> has_text(r, keys[i]@)
            || (r.len() == limit && (limit == 0 || text_lt(r.last()@, keys[i]@)))
}

pub open spec fn text_of(o: Option<String>) -> Option<Seq<char>> {
    match o {
        Some(s) => Some(s@),
        None => None,
    }
}

/// The smallest key after `cursor`, if any.
fn least_after(keys: &Vec<String>, cursor: &Option<String>) -> (r: Option<usize>)
    ensures
        r is Some ==> r->Some_0 < keys.len() && after_cursor(
            text_of(*cursor),
            keys@[r->Some_0 as int]@,
        ),
        r is Some ==> forall|l: int|
            0 <= l < keys.len() && after_cursor(text_of(*cursor), #[trigger] keys@[l]@) ==> !text_lt(
                keys@[l]@,
                keys@[r->Some_0 as int]@,
            ),
        r is None ==> forall|l: int|
            0 <= l < keys.len() ==> !after_cursor(text_of(*cursor), #[trigger] keys@[l]@),
{
    let mut best: Option<usize> = None;
    let mut j: usize = 0;
    while j < keys.len()
        invariant
            j <= keys.len(),
            best is Some ==> best->Some_0 < keys.len() && after_cursor(
                text_of(*cursor),
                keys@[best->Some_0 as int]@,
            ),
            forall|l: int|
                0 <= l < j && after_cursor(text_of(*cursor), #[trigger] keys@[l]@) ==> best is Some && !text_lt(
                    keys@[l]@,
                    keys@[best->Some_0 as int]@,
                ),
        decreases keys.len() - j,
    {
        let above = match cursor {
            Some(c) => less_than(c, &keys[j]),
            None => true,
        };
        if above {
            match best {
                None => {
                    proof {
                        lemma_text_lt_irreflexive(keys@[j as int]@);
                    }
                    best = Some(j);
                },
                Some(b) => {
                    if less_than(&keys[j], &keys[b]) {
                        assert forall|l: int|
                            0 <= l < j && after_cursor(text_of(*cursor), #[trigger] keys@[l]@) implies !text_lt(
                            keys@[l]@,
                            keys@[j as int]@,
                        ) by {
                            if text_lt(keys@[l]@, keys@[j as int]@) {
                                lemma_text_lt_transitive(keys@[l]@, keys@[j as int]@, keys@[b as int]@);
                            }
                        }
                        proof {
                            lemma_text_lt_irreflexive(keys@[j as int]@);
                        }
                        best = Some(j);
                    }
                },
            }
        }
        j += 1;
    }
    best
}

/// The page of at most `limit` keys of `keys` after `start_after`, ascending.
pub fn page_keys(keys: &Vec<String>, start_after: &Option<String>, limit: usize) -> (r: Vec<String>)
    ensures
        is_page(keys@, text_of(*start_after), limit as nat, r@),
{
    let ghost after = text_of(*start_after);
    let mut r: Vec<String> = Vec::new();
    let mut cursor: Option<String> = crate::state::copy_opt(start_after);
    while r.len() < limit
        invariant
            r.len() <= limit,
            forall|i: int|
                0 <= i < r.len() ==> has_text(keys@, #[trigger] r@[i]@) && after_cursor(after, r@[i]@),
            forall|i: int| 0 <= i < r.len() - 1 ==> text_lt(#[trigger] r@[i]@, r@[i + 1]@),
            r.len() == 0 ==> text_of(cursor) == after,
            r.len() > 0 ==> text_of(cursor) == Some(r@.last()@),
            forall|i: int|
                0 <= i < keys.len() && after_cursor(after, #[trigger] keys@[i]@) && !has_text(
                    r@,
                    keys@[i]@,
                ) ==> after_cursor(text_of(cursor), keys@[i]@),
        ensures
            forall|i: int|
                0 <= i < keys.len() && after_cursor(after, #[trigger] keys@[i]@) ==> has_text(
                    r@,
                    keys@[i]@,
                ) || (r.len() == limit && (limit == 0 || text_lt(r@.last()@, keys@[i]@))),
            r.len() <= limit,
            forall|i: int|
                0 <= i < r.len() ==> has_text(keys@, #[trigger] r@[i]@) && after_cursor(after, r@[i]@),
            forall|i: int| 0 <= i < r.len() - 1 ==> text_lt(#[trigger] r@[i]@, r@[i + 1]@),
        decreases limit - r.len(),
    {
        match least_after(keys, &cursor) {
            None => {
                break;
            },
            Some(b) => {
                let next = keys[b].clone();
                let ghost old_r = r@;
                let ghost x = keys@[b as int]@;
                proof {
                    if r.len() > 0 {
                        if let Some(a) = after {
                            lemma_text_lt_transitive(a, r@.last()@, x);
                        }
                    }
                }
                r.push(next);
                assert(r@[r.len() - 1]@ == x);
                assert forall|i: int| 0 <= i < r.len() implies has_text(
                    keys@,
                    #[trigger] r@[i]@,
                ) && after_cursor(after, r@[i]@) by {
                    if i < old_r.len() {
                        assert(r@[i] == old_r[i]);
                    } else {
                        assert(keys@[b as int]@ == x);
                    }
                }
                assert forall|i: int| 0 <= i < r.len() - 1 implies text_lt(
                    #[trigger] r@[i]@,
                    r@[i + 1]@,
                ) by {
                    assert(r@[i] == old_r[i]);
                    if i + 1 < old_r.len() {
                        assert(r@[i + 1] == old_r[i + 1]);
                    }
                }
                assert forall|i: int|
                    0 <= i < keys.len() && after_cursor(after, #[trigger] keys@[i]@) && !has_text(
                        r@,
                        keys@[i]@,
                    ) implies text_lt(x, keys@[i]@) by {
                    if has_text(old_r, keys@[i]@) {
                        let w = choose|w: int| 0 <= w < old_r.len() && #[trigger] old_r[w]@ == keys@[i]@;
                        assert(r@[w] == old_r[w]);
                    }
                    if keys@[i]@ == x {
                        assert(r@[old_r.len() as int]@ == x);
                    }
                    lemma_text_lt_total(x, keys@[i]@);
                }
                cursor = Some(keys[b].clone());
            },
        }
    }
    r
}

} // verus!
