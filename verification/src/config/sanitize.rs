use crate::config::types::{
    is_pin_opacity_option, is_pin_opacity_option_spec, AppConfig, OcrProfile, TranslationProfile,
    TranslationProviderKind, ANNOTATION_COLOR_PRESET_COUNT, DEFAULT_PIN_OPACITY_PERCENT,
    MAX_MOSAIC_SIZE, MAX_NUMBER_SIZE, MAX_STROKE_WIDTH, MAX_TEXT_SIZE, MIN_MOSAIC_SIZE,
    MIN_NUMBER_SIZE, MIN_STROKE_WIDTH, MIN_TEXT_SIZE, OCR_TIMEOUT_MAX_MS, OCR_TIMEOUT_MIN_MS,
    TRANSLATION_TIMEOUT_MAX_MS, TRANSLATION_TIMEOUT_MIN_MS,
};
use crate::config::validate::{has_ocr_profile_id, has_translation_profile_id};
use crate::geometry::{spec_clamp, spec_min};
use crate::numparse::{is_ascii_digit, lemma_decimal_reads_back};
use crate::text::{
    is_blank, is_blank_spec, is_space_spec, chars_eq, chars_of, decimal_spec, push_decimal, string_from_chars, trim_chars,
    trim_end_spec, trim_spec, trim_start_spec,
};
use vstd::prelude::*;

verus! {

/// The id generated for the `k`-th fresh profile.
pub open spec fn id_candidate(prefix: Seq<char>, k: nat) -> Seq<char> {
    prefix + decimal_spec(k)
}

/// The first counter value from `k` on whose generated id is not taken yet.
pub open spec fn first_free_index(used: Seq<Seq<char>>, prefix: Seq<char>, k: nat) -> nat
    decreases usize::MAX - k,
{
    if k >= usize::MAX || !used.contains(id_candidate(prefix, k)) {
        k
    } else {
        first_free_index(used, prefix, k + 1)
    }
}

/// Normalising the first `n` ids: a trimmed, non-blank, not yet taken id is kept
/// (trimmed); any other gets the next free generated id. Yields the ids given so
/// far and the counter.
pub open spec fn normalize_ids_spec(ids: Seq<Seq<char>>, prefix: Seq<char>, n: nat) -> (Seq<Seq<char>>, nat)
    decreases n,
{
    if n == 0 {
        (Seq::<Seq<char>>::empty(), 1)
    } else {
        let (used, next) = normalize_ids_spec(ids, prefix, (n - 1) as nat);
        let t = trim_spec(ids[n - 1]);
        if t.len() > 0 && !used.contains(t) {
            (used.push(t), next)
        } else {
            let k = first_free_index(used, prefix, next);
            (used.push(id_candidate(prefix, k)), if k < usize::MAX { (k + 1) as nat } else { k })
        }
    }
}

pub open spec fn normalized_ids(ids: Seq<Seq<char>>, prefix: Seq<char>) -> Seq<Seq<char>> {
    normalize_ids_spec(ids, prefix, ids.len()).0
}

proof fn lemma_normalize_len(ids: Seq<Seq<char>>, prefix: Seq<char>, n: nat)
    ensures
        normalize_ids_spec(ids, prefix, n).0.len() == n,
        normalize_ids_spec(ids, prefix, n).1 >= 1,
        normalize_ids_spec(ids, prefix, n).1 <= usize::MAX,
    decreases n,
{
    if n > 0 {
        lemma_normalize_len(ids, prefix, (n - 1) as nat);
        let (used, next) = normalize_ids_spec(ids, prefix, (n - 1) as nat);
        lemma_first_free_bounds(used, prefix, next);
    }
}

proof fn lemma_first_free_bounds(used: Seq<Seq<char>>, prefix: Seq<char>, k: nat)
    requires
        k <= usize::MAX,
    ensures
        k <= first_free_index(used, prefix, k) <= usize::MAX,
    decreases usize::MAX - k,
{
    if !(k >= usize::MAX || !used.contains(id_candidate(prefix, k))) {
        lemma_first_free_bounds(used, prefix, k + 1);
    }
}

proof fn lemma_decimal_len(n: nat)
    ensures
        decimal_spec(n).len() >= 1,
        n >= 10 ==> decimal_spec(n).len() >= 2,
    decreases n,
{
    if n >= 10 {
        lemma_decimal_len(n / 10);
    }
}

/// Different numbers have different decimal forms.
proof fn lemma_decimal_injective(a: nat, b: nat)
    requires
        decimal_spec(a) == decimal_spec(b),
    ensures
        a == b,
    decreases a + b,
{
    lemma_decimal_len(a);
    lemma_decimal_len(b);
    if a < 10 && b < 10 {
        let ca = crate::text::digit_char_spec(a as int);
        let cb = crate::text::digit_char_spec(b as int);
        assert(decimal_spec(a) =~= seq![ca]);
        assert(decimal_spec(b) =~= seq![cb]);
        assert(seq![ca][0] == ca);
        assert(seq![cb][0] == cb);
        assert(ca == cb);
        assert((('0' as u32) + a) as char == (('0' as u32) + b) as char);
        assert(((('0' as u32) + a) as char) as u32 == ('0' as u32) + a);
        assert(((('0' as u32) + b) as char) as u32 == ('0' as u32) + b);
    } else if a >= 10 && b >= 10 {
        let da = decimal_spec(a);
        let db = decimal_spec(b);
        assert(da.drop_last() =~= decimal_spec(a / 10));
        assert(db.drop_last() =~= decimal_spec(b / 10));
        lemma_decimal_injective(a / 10, b / 10);
        assert(da.last() == db.last());
        let ca = crate::text::digit_char_spec((a % 10) as int);
        let cb = crate::text::digit_char_spec((b % 10) as int);
        assert(ca == cb);
        assert((ca as u32) == ('0' as u32) + a % 10);
        assert((cb as u32) == ('0' as u32) + b % 10);
    }
}

/// Different counter values give different generated ids.
proof fn lemma_candidate_injective(prefix: Seq<char>, a: nat, b: nat)
    requires
        id_candidate(prefix, a) == id_candidate(prefix, b),
    ensures
        a == b,
{
    let ca = id_candidate(prefix, a);
    assert(ca.skip(prefix.len() as int) =~= decimal_spec(a));
    assert(id_candidate(prefix, b).skip(prefix.len() as int) =~= decimal_spec(b));
    lemma_decimal_injective(a, b);
}

/// Among the `used.len() + 1` counter values from `k` on, one generates an
/// id that is not taken.
proof fn lemma_free_candidate_exists(used: Seq<Seq<char>>, prefix: Seq<char>, k: nat)
    ensures
        exists|j: nat| k <= j <= k + used.len() && !used.contains(#[trigger] id_candidate(prefix, j)),
{
    let m = used.len();
    if forall|j: nat| k <= j <= k + m ==> used.contains(#[trigger] id_candidate(prefix, j)) {
        let range = vstd::set_lib::set_int_range(k as int, (k + m + 1) as int);
        vstd::set_lib::lemma_int_range(k as int, (k + m + 1) as int);
        let f = |i: int| id_candidate(prefix, i as nat);
        assert(vstd::relations::injective_on(f, range)) by {
            assert forall|x: int, y: int| range.contains(x) && range.contains(y) && #[trigger] f(x) == #[trigger] f(y)
                implies x == y by {
                lemma_candidate_injective(prefix, x as nat, y as nat);
            }
        }
        vstd::set_lib::lemma_map_size(range, range.map(f), f);
        assert(range.map(f).subset_of(used.to_set())) by {
            assert forall|c: Seq<char>| range.map(f).contains(c) implies used.to_set().contains(c) by {
                let i = choose|i: int| range.contains(i) && f(i) == c;
                assert(used.contains(id_candidate(prefix, i as nat)));
            }
        }
        used.lemma_cardinality_of_set();
        vstd::set_lib::lemma_len_subset(range.map(f), used.to_set());
        assert(false);
    }
}

/// The first free counter value from `k` is free, and comes within
/// `used.len()` of `k`, when that stays below the counter's limit.
pub(crate) proof fn lemma_first_free_is_free(used: Seq<Seq<char>>, prefix: Seq<char>, k: nat)
    requires
        k + used.len() < usize::MAX,
    ensures
        !used.contains(id_candidate(prefix, first_free_index(used, prefix, k))),
        k <= first_free_index(used, prefix, k) <= k + used.len(),
{
    lemma_free_candidate_exists(used, prefix, k);
    let j = choose|j: nat| k <= j <= k + used.len() && !used.contains(#[trigger] id_candidate(prefix, j));
    lemma_first_free_before(used, prefix, k, j);
}

proof fn lemma_first_free_before(used: Seq<Seq<char>>, prefix: Seq<char>, k: nat, j: nat)
    requires
        k <= j < usize::MAX,
        !used.contains(id_candidate(prefix, j)),
    ensures
        !used.contains(id_candidate(prefix, first_free_index(used, prefix, k))),
        k <= first_free_index(used, prefix, k) <= j,
    decreases j - k,
{
    if used.contains(id_candidate(prefix, k)) {
        lemma_first_free_before(used, prefix, k + 1, j);
    }
}

/// The counter values passed over while looking for a free one are taken.
proof fn lemma_first_free_skips(used: Seq<Seq<char>>, prefix: Seq<char>, k: nat, j: nat)
    requires
        k <= j < first_free_index(used, prefix, k),
    ensures
        used.contains(id_candidate(prefix, j)),
    decreases j - k,
{
    if j > k {
        lemma_first_free_skips(used, prefix, k + 1, j);
    }
}

/// When every generated id below `next` is taken, at least `next - 1` ids are.
proof fn lemma_candidates_below(used: Seq<Seq<char>>, prefix: Seq<char>, next: nat)
    requires
        1 <= next,
        forall|j: nat| 1 <= j < next ==> used.contains(#[trigger] id_candidate(prefix, j)),
    ensures
        next - 1 <= used.len(),
{
    let range = vstd::set_lib::set_int_range(1, next as int);
    vstd::set_lib::lemma_int_range(1, next as int);
    let f = |i: int| id_candidate(prefix, i as nat);
    assert(vstd::relations::injective_on(f, range)) by {
        assert forall|x: int, y: int| range.contains(x) && range.contains(y) && #[trigger] f(x) == #[trigger] f(y)
            implies x == y by {
            lemma_candidate_injective(prefix, x as nat, y as nat);
        }
    }
    vstd::set_lib::lemma_map_size(range, range.map(f), f);
    assert(range.map(f).subset_of(used.to_set())) by {
        assert forall|c: Seq<char>| range.map(f).contains(c) implies used.to_set().contains(c) by {
            let i = choose|i: int| range.contains(i) && f(i) == c;
            assert(used.contains(id_candidate(prefix, i as nat)));
        }
    }
    used.lemma_cardinality_of_set();
    vstd::set_lib::lemma_len_subset(range.map(f), used.to_set());
}

proof fn lemma_normalize_distinct(ids: Seq<Seq<char>>, prefix: Seq<char>, n: nat)
    requires
        n <= ids.len(),
        2 * n < usize::MAX,
    ensures
        normalize_ids_spec(ids, prefix, n).0.no_duplicates(),
        forall|i: int| 0 <= i < n ==> (#[trigger] normalize_ids_spec(ids, prefix, n).0[i]).len() > 0,
        1 <= normalize_ids_spec(ids, prefix, n).1 <= n + 1,
        forall|j: nat| 1 <= j < normalize_ids_spec(ids, prefix, n).1 ==>
            normalize_ids_spec(ids, prefix, n).0.contains(#[trigger] id_candidate(prefix, j)),
    decreases n,
{
    lemma_normalize_len(ids, prefix, n);
    if n > 0 {
        let m = (n - 1) as nat;
        lemma_normalize_distinct(ids, prefix, m);
        lemma_normalize_len(ids, prefix, m);
        let (used, next) = normalize_ids_spec(ids, prefix, m);
        let (out, next2) = normalize_ids_spec(ids, prefix, n);
        let t = trim_spec(ids[n - 1]);
        if !(t.len() > 0 && !used.contains(t)) {
            lemma_first_free_is_free(used, prefix, next);
            let k = first_free_index(used, prefix, next);
            lemma_decimal_len(k);
            assert(out == used.push(id_candidate(prefix, k)));
            assert(next2 == k + 1);
            assert forall|j: nat| 1 <= j < next2 implies out.contains(#[trigger] id_candidate(prefix, j)) by {
                if j < next {
                    let w = choose|w: int| 0 <= w < used.len() && used[w] == id_candidate(prefix, j);
                    assert(out[w] == used[w]);
                } else if j < k {
                    lemma_first_free_skips(used, prefix, next, j);
                    let w = choose|w: int| 0 <= w < used.len() && used[w] == id_candidate(prefix, j);
                    assert(out[w] == used[w]);
                } else {
                    assert(out[m as int] == id_candidate(prefix, j));
                }
            }
        } else {
            assert(out == used.push(t));
            assert forall|j: nat| 1 <= j < next2 implies out.contains(#[trigger] id_candidate(prefix, j)) by {
                let w = choose|w: int| 0 <= w < used.len() && used[w] == id_candidate(prefix, j);
                assert(out[w] == used[w]);
            }
        }
        lemma_candidates_below(out, prefix, next2);
        assert forall|i: int, j: int| 0 <= i < out.len() && 0 <= j < out.len() && i != j implies out[i] != out[j] by {
            if i < m && j < m {
                assert(out[i] == used[i] && out[j] == used[j]);
            } else if i == m {
                assert(!used.contains(out[i]));
                assert(used[j] == out[j]);
            } else {
                assert(!used.contains(out[j]));
                assert(used[i] == out[i]);
            }
        }
    }
}

/// Normalizing profile ids gives every profile an id of its own: no id is
/// empty and no two are equal (for any list a `Vec` can hold: at most
/// `isize::MAX` items).
pub proof fn lemma_normalized_ids_distinct(ids: Seq<Seq<char>>, prefix: Seq<char>)
    requires
        ids.len() <= isize::MAX,
    ensures
        normalized_ids(ids, prefix).len() == ids.len(),
        normalized_ids(ids, prefix).no_duplicates(),
        forall|i: int| 0 <= i < ids.len() ==> (#[trigger] normalized_ids(ids, prefix)[i]).len() > 0,
{
    lemma_normalize_len(ids, prefix, ids.len());
    lemma_normalize_distinct(ids, prefix, ids.len());
}


proof fn lemma_trim_start_shape(s: Seq<char>)
    ensures
        trim_start_spec(s).len() <= s.len(),
        trim_start_spec(s) =~= s.subrange(s.len() - trim_start_spec(s).len(), s.len() as int),
        trim_start_spec(s).len() > 0 ==> !is_space_spec(trim_start_spec(s)[0]),
    decreases s.len(),
{
    if s.len() > 0 && is_space_spec(s[0]) {
        let rest = s.subrange(1, s.len() as int);
        lemma_trim_start_shape(rest);
        assert(rest.subrange(rest.len() - trim_start_spec(rest).len(), rest.len() as int)
            =~= s.subrange(s.len() - trim_start_spec(rest).len(), s.len() as int));
    }
}

proof fn lemma_trim_end_shape(s: Seq<char>)
    ensures
        trim_end_spec(s).len() <= s.len(),
        trim_end_spec(s) =~= s.subrange(0, trim_end_spec(s).len() as int),
        trim_end_spec(s).len() > 0 ==> !is_space_spec(trim_end_spec(s).last()),
    decreases s.len(),
{
    if s.len() > 0 && is_space_spec(s[s.len() - 1]) {
        let rest = s.subrange(0, s.len() - 1);
        lemma_trim_end_shape(rest);
        assert(rest.subrange(0, trim_end_spec(rest).len() as int) =~= s.subrange(0, trim_end_spec(rest).len() as int));
    }
}

/// A text that neither starts nor ends with white space is its own trim.
proof fn lemma_trim_unspaced(s: Seq<char>)
    requires
        s.len() > 0,
        !is_space_spec(s[0]),
        !is_space_spec(s.last()),
    ensures
        trim_spec(s) == s,
{
    assert(trim_start_spec(s) == s);
    assert(trim_end_spec(s) == s);
}

/// A trimmed text that is not empty is its own trim.
proof fn lemma_trim_fixed(s: Seq<char>)
    requires
        trim_spec(s).len() > 0,
    ensures
        trim_spec(trim_spec(s)) == trim_spec(s),
{
    let t = trim_start_spec(s);
    lemma_trim_start_shape(s);
    lemma_trim_end_shape(t);
    let r = trim_end_spec(t);
    assert(r[0] == t[0]);
    lemma_trim_unspaced(r);
}

/// Generated ids are their own trim when the prefix starts with a visible character.
proof fn lemma_candidate_trimmed(prefix: Seq<char>, k: nat)
    requires
        prefix.len() > 0,
        !is_space_spec(prefix[0]),
    ensures
        id_candidate(prefix, k).len() > 0,
        trim_spec(id_candidate(prefix, k)) == id_candidate(prefix, k),
{
    lemma_decimal_reads_back(k);
    let d = decimal_spec(k);
    let c = id_candidate(prefix, k);
    assert(c[0] == prefix[0]);
    assert(c.last() == d[d.len() - 1]);
    assert(is_ascii_digit(d[d.len() - 1]));
    lemma_trim_unspaced(c);
}

proof fn lemma_normalized_trimmed(ids: Seq<Seq<char>>, prefix: Seq<char>, n: nat)
    requires
        prefix.len() > 0,
        !is_space_spec(prefix[0]),
        n <= ids.len(),
    ensures
        forall|i: int| 0 <= i < normalize_ids_spec(ids, prefix, n).0.len() ==> {
            let e = #[trigger] normalize_ids_spec(ids, prefix, n).0[i];
            e.len() > 0 && trim_spec(e) == e
        },
    decreases n,
{
    if n > 0 {
        lemma_normalized_trimmed(ids, prefix, (n - 1) as nat);
        let (used, next) = normalize_ids_spec(ids, prefix, (n - 1) as nat);
        let t = trim_spec(ids[n - 1]);
        if t.len() > 0 && !used.contains(t) {
            lemma_trim_fixed(ids[n - 1]);
        } else {
            lemma_candidate_trimmed(prefix, first_free_index(used, prefix, next));
        }
        let r = normalize_ids_spec(ids, prefix, n).0;
        assert forall|i: int| 0 <= i < r.len() implies r[i].len() > 0 && trim_spec(r[i]) == r[i] by {
            if i < used.len() {
                assert(r[i] == used[i]);
            }
        }
    }
}

proof fn lemma_normalize_keeps(ids: Seq<Seq<char>>, prefix: Seq<char>, n: nat)
    requires
        n <= ids.len(),
        ids.no_duplicates(),
        forall|i: int| 0 <= i < ids.len() ==> (#[trigger] ids[i]).len() > 0 && trim_spec(ids[i]) == ids[i],
    ensures
        normalize_ids_spec(ids, prefix, n).0 == ids.subrange(0, n as int),
    decreases n,
{
    if n > 0 {
        lemma_normalize_keeps(ids, prefix, (n - 1) as nat);
        let used = ids.subrange(0, n - 1);
        let t = ids[n - 1];
        assert(trim_spec(ids[n - 1]) == t);
        if used.contains(t) {
            let j = choose|j: int| 0 <= j < used.len() && used[j] == t;
            assert(ids[j] == ids[n - 1]);
        }
        assert(used.push(t) =~= ids.subrange(0, n as int));
    }
}

/// Normalising ids a second time changes nothing: the ids it gives are
/// trimmed, non-empty and distinct, so each is kept (for any list a `Vec`
/// can hold, and a prefix that starts with a visible character, as both
/// profile prefixes do).
pub proof fn lemma_normalized_ids_idempotent(ids: Seq<Seq<char>>, prefix: Seq<char>)
    requires
        ids.len() <= isize::MAX,
        prefix.len() > 0,
        !is_space_spec(prefix[0]),
    ensures
        normalized_ids(normalized_ids(ids, prefix), prefix) == normalized_ids(ids, prefix),
{
    let once = normalized_ids(ids, prefix);
    lemma_normalized_ids_distinct(ids, prefix);
    lemma_normalized_trimmed(ids, prefix, ids.len());
    lemma_normalize_keeps(once, prefix, once.len());
    assert(once.subrange(0, once.len() as int) =~= once);
}

/// Normalised ids are non-empty, trimmed and distinct, and a list whose ids
/// already are all three comes back unchanged (for any list a `Vec` can
/// hold, and a prefix that starts with a visible character).
pub proof fn lemma_normalized_ids_valid(ids: Seq<Seq<char>>, prefix: Seq<char>)
    requires
        ids.len() <= isize::MAX,
        prefix.len() > 0,
        !is_space_spec(prefix[0]),
    ensures
        normalized_ids(ids, prefix).len() == ids.len(),
        normalized_ids(ids, prefix).no_duplicates(),
        forall|i: int| 0 <= i < ids.len() ==> {
            let e = #[trigger] normalized_ids(ids, prefix)[i];
            e.len() > 0 && trim_spec(e) == e
        },
        (ids.no_duplicates() && forall|i: int| 0 <= i < ids.len() ==> (#[trigger] ids[i]).len() > 0
            && trim_spec(ids[i]) == ids[i]) ==> normalized_ids(ids, prefix) == ids,
{
    lemma_normalized_ids_distinct(ids, prefix);
    lemma_normalized_trimmed(ids, prefix, ids.len());
    if ids.no_duplicates() && forall|i: int| 0 <= i < ids.len() ==> (#[trigger] ids[i]).len() > 0
        && trim_spec(ids[i]) == ids[i] {
        lemma_normalize_keeps(ids, prefix, ids.len());
        assert(ids.subrange(0, ids.len() as int) =~= ids);
    }
}

/// Choosing the default profile a second time keeps the first choice.
pub proof fn lemma_sanitized_default_id_idempotent(ids: Seq<Seq<char>>, default_id: Seq<char>)
    ensures
        sanitized_default_id(ids, sanitized_default_id(ids, default_id)) == sanitized_default_id(ids, default_id),
{
    if ids.len() > 0 && !ids.contains(default_id) {
        assert(ids.contains(ids[0]));
    }
}

fn seq_contains(used: &Vec<Vec<char>>, s: &[char]) -> (r: bool)
    ensures
        r == used@.map_values(|v: Vec<char>| v@).contains(s@),
{
    let ghost views = used@.map_values(|v: Vec<char>| v@);
    let mut j: usize = 0;
    while j < used.len()
        invariant
            j <= used@.len(),
            views == used@.map_values(|v: Vec<char>| v@),
            forall|k: int| 0 <= k < j ==> views[k] != s@,
        decreases used@.len() - j,
    {
        if chars_eq(used[j].as_slice(), s) {
            assert(views[j as int] == s@);
            return true;
        }
        j = j + 1;
    }
    false
}

/// The ids that normalisation gives, for ids `ids` and generated-id prefix `prefix`.
fn normalize_id_list(ids: &Vec<Vec<char>>, prefix: &str) -> (r: Vec<Vec<char>>)
    ensures
        r@.len() == ids@.len(),
        r@.map_values(|v: Vec<char>| v@) == normalized_ids(ids@.map_values(|v: Vec<char>| v@), prefix@),
{
    let ghost sids = ids@.map_values(|v: Vec<char>| v@);
    let pre = chars_of(prefix);
    let mut used: Vec<Vec<char>> = Vec::new();
    let mut next: usize = 1;
    let mut i: usize = 0;
    while i < ids.len()
        invariant
            i <= ids@.len(),
            sids == ids@.map_values(|v: Vec<char>| v@),
            pre@ == prefix@,
            normalize_ids_spec(sids, prefix@, i as nat) == (used@.map_values(|v: Vec<char>| v@), next as nat),
        decreases ids@.len() - i,
    {
        proof {
            lemma_normalize_len(sids, prefix@, i as nat);
        }
        let ghost prev = used@.map_values(|v: Vec<char>| v@);
        let t = trim_chars(ids[i].as_slice());
        assert(t@ == trim_spec(sids[i as int]));
        if t.len() > 0 && !seq_contains(&used, t.as_slice()) {
            used.push(t);
            proof {
                assert(used@.map_values(|v: Vec<char>| v@) =~= prev.push(t@));
            }
        } else {
            let mut k: usize = next;
            let mut cand = pre.clone();
            push_decimal(&mut cand, k);
            while k < usize::MAX && seq_contains(&used, cand.as_slice())
                invariant
                    next <= k <= usize::MAX,
                    pre@ == prefix@,
                    cand@ == id_candidate(prefix@, k as nat),
                    used@.map_values(|v: Vec<char>| v@) == prev,
                    first_free_index(prev, prefix@, next as nat) == first_free_index(prev, prefix@, k as nat),
                decreases usize::MAX - k,
            {
                k = k + 1;
                cand = pre.clone();
                push_decimal(&mut cand, k);
            }
            used.push(cand);
            proof {
                assert(used@.map_values(|v: Vec<char>| v@) =~= prev.push(id_candidate(prefix@, k as nat)));
            }
            next = if k < usize::MAX { k + 1 } else { k };
        }
        i = i + 1;
    }
    proof {
        assert(sids.len() == ids@.len());
        lemma_normalize_len(sids, prefix@, i as nat);
    }
    used
}

impl OcrProfile {
    /// Every field but the id has the same value.
    pub open spec fn same_but_id(self, other: OcrProfile) -> bool {
        &&& self.display_name@ == other.display_name@
        &&& self.provider_kind == other.provider_kind
        &&& self.base_url@ == other.base_url@
        &&& self.api_key@ == other.api_key@
        &&& self.secret_key@ == other.secret_key@
        &&& self.model@ == other.model@
        &&& self.bbox_scale_mode == other.bbox_scale_mode
    }
}

impl TranslationProfile {
    /// Every field but the id has the same value.
    pub open spec fn same_but_id(self, other: TranslationProfile) -> bool {
        &&& self.display_name@ == other.display_name@
        &&& self.provider_kind == other.provider_kind
        &&& self.base_url@ == other.base_url@
        &&& self.api_key@ == other.api_key@
        &&& self.secret_key@ == other.secret_key@
        &&& self.model@ == other.model@
        &&& self.prompt_template@ == other.prompt_template@
        &&& self.source_lang@ == other.source_lang@
        &&& self.target_lang@ == other.target_lang@
        &&& self.use_translated_image == other.use_translated_image
    }
}

pub open spec fn ocr_ids(profiles: Seq<OcrProfile>) -> Seq<Seq<char>> {
    profiles.map_values(|p: OcrProfile| p.id@)
}

pub open spec fn translation_ids(profiles: Seq<TranslationProfile>) -> Seq<Seq<char>> {
    profiles.map_values(|p: TranslationProfile| p.id@)
}

/// Gives OCR profiles trimmed, unique, non-blank ids (`profile_N` where needed).
pub fn normalize_ocr_profile_ids(profiles: &mut Vec<OcrProfile>)
    ensures
        final(profiles)@.len() == old(profiles)@.len(),
        ocr_ids(final(profiles)@) == normalized_ids(ocr_ids(old(profiles)@), "profile_"@),
        forall|i: int| 0 <= i < old(profiles)@.len() ==> (#[trigger] final(profiles)@[i]).same_but_id(old(profiles)@[i]),
{
    let ghost old_profiles = profiles@;
    let mut ids: Vec<Vec<char>> = Vec::new();
    let mut i: usize = 0;
    while i < profiles.len()
        invariant
            i <= profiles@.len(),
            profiles@ == old_profiles,
            ids@.map_values(|v: Vec<char>| v@) == ocr_ids(old_profiles).subrange(0, i as int),
        decreases profiles@.len() - i,
    {
        let v = chars_of(profiles[i].id.as_str());
        let ghost before = ids@.map_values(|v: Vec<char>| v@);
        ids.push(v);
        proof {
            assert(v@ == old_profiles[i as int].id@);
            assert(ids@.map_values(|v: Vec<char>| v@) =~= before.push(v@));
            assert(ocr_ids(old_profiles).subrange(0, i + 1) =~= ocr_ids(old_profiles).subrange(0, i as int).push(old_profiles[i as int].id@));
        }
        i = i + 1;
    }
    proof {
        assert(ocr_ids(old_profiles).subrange(0, i as int) =~= ocr_ids(old_profiles));
    }
    let new_ids = normalize_id_list(&ids, "profile_");
    let mut i: usize = 0;
    while i < profiles.len()
        invariant
            i <= profiles@.len(),
            profiles@.len() == old_profiles.len(),
            new_ids@.len() == old_profiles.len(),
            forall|j: int| 0 <= j < old_profiles.len() ==> (#[trigger] profiles@[j]).same_but_id(old_profiles[j]),
            forall|j: int| 0 <= j < i ==> (#[trigger] profiles@[j]).id@ == new_ids@[j]@,
            forall|j: int| i <= j < old_profiles.len() ==> (#[trigger] profiles@[j]).id@ == old_profiles[j].id@,
        decreases profiles@.len() - i,
    {
        let s = string_from_chars(new_ids[i].as_slice());
        profiles[i].id = s;
        i = i + 1;
    }
    proof {
        assert(ocr_ids(profiles@) =~= new_ids@.map_values(|v: Vec<char>| v@));
    }
}

/// Gives translation profiles trimmed, unique, non-blank ids (`translate_profile_N` where needed).
pub fn normalize_translation_profile_ids(profiles: &mut Vec<TranslationProfile>)
    ensures
        final(profiles)@.len() == old(profiles)@.len(),
        translation_ids(final(profiles)@) == normalized_ids(translation_ids(old(profiles)@), "translate_profile_"@),
        forall|i: int| 0 <= i < old(profiles)@.len() ==> (#[trigger] final(profiles)@[i]).same_but_id(old(profiles)@[i]),
{
    let ghost old_profiles = profiles@;
    let mut ids: Vec<Vec<char>> = Vec::new();
    let mut i: usize = 0;
    while i < profiles.len()
        invariant
            i <= profiles@.len(),
            profiles@ == old_profiles,
            ids@.map_values(|v: Vec<char>| v@) == translation_ids(old_profiles).subrange(0, i as int),
        decreases profiles@.len() - i,
    {
        let v = chars_of(profiles[i].id.as_str());
        let ghost before = ids@.map_values(|v: Vec<char>| v@);
        ids.push(v);
        proof {
            assert(v@ == old_profiles[i as int].id@);
            assert(ids@.map_values(|v: Vec<char>| v@) =~= before.push(v@));
            assert(translation_ids(old_profiles).subrange(0, i + 1) =~= translation_ids(old_profiles).subrange(0, i as int).push(old_profiles[i as int].id@));
        }
        i = i + 1;
    }
    proof {
        assert(translation_ids(old_profiles).subrange(0, i as int) =~= translation_ids(old_profiles));
    }
    let new_ids = normalize_id_list(&ids, "translate_profile_");
    let mut i: usize = 0;
    while i < profiles.len()
        invariant
            i <= profiles@.len(),
            profiles@.len() == old_profiles.len(),
            new_ids@.len() == old_profiles.len(),
            forall|j: int| 0 <= j < old_profiles.len() ==> (#[trigger] profiles@[j]).same_but_id(old_profiles[j]),
            forall|j: int| 0 <= j < i ==> (#[trigger] profiles@[j]).id@ == new_ids@[j]@,
            forall|j: int| i <= j < old_profiles.len() ==> (#[trigger] profiles@[j]).id@ == old_profiles[j].id@,
        decreases profiles@.len() - i,
    {
        let s = string_from_chars(new_ids[i].as_slice());
        profiles[i].id = s;
        i = i + 1;
    }
    proof {
        assert(translation_ids(profiles@) =~= new_ids@.map_values(|v: Vec<char>| v@));
    }
}


/// What sanitising does to one translation profile besides its id: a Baidu
/// profile gets default languages, API path and base URL where those are blank.
pub open spec fn translation_profile_filled(o: TranslationProfile, p: TranslationProfile) -> bool {
    &&& p.display_name@ == o.display_name@
    &&& p.provider_kind == o.provider_kind
    &&& p.api_key@ == o.api_key@
    &&& p.secret_key@ == o.secret_key@
    &&& p.prompt_template@ == o.prompt_template@
    &&& p.use_translated_image == o.use_translated_image
    &&& if o.provider_kind == TranslationProviderKind::BaiduImageTranslate {
        &&& p.source_lang@ == (if is_blank_spec(o.source_lang@) { "auto"@ } else { o.source_lang@ })
        &&& p.target_lang@ == (if is_blank_spec(o.target_lang@) { "zh"@ } else { o.target_lang@ })
        &&& p.model@ == (if is_blank_spec(o.model@) {
            TranslationProviderKind::BaiduImageTranslate.default_model_spec()
        } else {
            o.model@
        })
        &&& p.base_url@ == (if is_blank_spec(o.base_url@) {
            TranslationProviderKind::BaiduImageTranslate.default_base_url_spec()
        } else {
            o.base_url@
        })
    } else {
        &&& p.source_lang@ == o.source_lang@
        &&& p.target_lang@ == o.target_lang@
        &&& p.model@ == o.model@
        &&& p.base_url@ == o.base_url@
    }
}

/// The default profile id kept after sanitising, given the normalised ids.
pub open spec fn sanitized_default_id(ids: Seq<Seq<char>>, default_id: Seq<char>) -> Seq<char> {
    if ids.len() == 0 {
        Seq::<char>::empty()
    } else if ids.contains(default_id) {
        default_id
    } else {
        ids[0]
    }
}

fn fill_baidu_translation_defaults(profiles: &mut Vec<TranslationProfile>)
    ensures
        final(profiles)@.len() == old(profiles)@.len(),
        forall|i: int| 0 <= i < old(profiles)@.len() ==> {
            &&& (#[trigger] final(profiles)@[i]).id@ == old(profiles)@[i].id@
            &&& translation_profile_filled(old(profiles)@[i], final(profiles)@[i])
        },
{
    let ghost old_profiles = profiles@;
    let mut i: usize = 0;
    while i < profiles.len()
        invariant
            i <= profiles@.len(),
            profiles@.len() == old_profiles.len(),
            forall|j: int| 0 <= j < i ==> {
                &&& (#[trigger] profiles@[j]).id@ == old_profiles[j].id@
                &&& translation_profile_filled(old_profiles[j], profiles@[j])
            },
            forall|j: int| i <= j < old_profiles.len() ==> (#[trigger] profiles@[j]) == old_profiles[j],
        decreases profiles@.len() - i,
    {
        if profiles[i].provider_kind == TranslationProviderKind::BaiduImageTranslate {
            if is_blank(profiles[i].source_lang.as_str()) {
                profiles[i].source_lang = String::from_str("auto");
            }
            if is_blank(profiles[i].target_lang.as_str()) {
                profiles[i].target_lang = String::from_str("zh");
            }
            if is_blank(profiles[i].model.as_str()) {
                profiles[i].model = String::from_str(TranslationProviderKind::BaiduImageTranslate.default_model());
            }
            if is_blank(profiles[i].base_url.as_str()) {
                profiles[i].base_url = String::from_str(TranslationProviderKind::BaiduImageTranslate.default_base_url());
            }
        }
        i = i + 1;
    }
}

fn has_ocr_id(profiles: &Vec<OcrProfile>, id: &String) -> (r: bool)
    ensures
        r == ocr_ids(profiles@).contains(id@),
{
    let mut j: usize = 0;
    while j < profiles.len()
        invariant
            j <= profiles@.len(),
            forall|k: int| 0 <= k < j ==> ocr_ids(profiles@)[k] != id@,
        decreases profiles@.len() - j,
    {
        if profiles[j].id == *id {
            assert(ocr_ids(profiles@)[j as int] == id@);
            return true;
        }
        j = j + 1;
    }
    false
}

fn has_translation_id(profiles: &Vec<TranslationProfile>, id: &String) -> (r: bool)
    ensures
        r == translation_ids(profiles@).contains(id@),
{
    let mut j: usize = 0;
    while j < profiles.len()
        invariant
            j <= profiles@.len(),
            forall|k: int| 0 <= k < j ==> translation_ids(profiles@)[k] != id@,
        decreases profiles@.len() - j,
    {
        if profiles[j].id == *id {
            assert(translation_ids(profiles@)[j as int] == id@);
            return true;
        }
        j = j + 1;
    }
    false
}

/// What sanitising `c` gives: `r` is `c` with every value brought into range
/// and the profile ids made unique.
pub open spec fn sanitized(c: AppConfig, r: AppConfig) -> bool {
    &&& r.general == c.general
    &&& r.annotation_defaults.default_color_index == spec_min(
        c.annotation_defaults.default_color_index as int,
        ANNOTATION_COLOR_PRESET_COUNT - 1,
    )
    &&& r.annotation_defaults.stroke_width == spec_clamp(
        c.annotation_defaults.stroke_width as int,
        MIN_STROKE_WIDTH as int,
        MAX_STROKE_WIDTH as int,
    )
    &&& r.annotation_defaults.text_size == spec_clamp(
        c.annotation_defaults.text_size as int,
        MIN_TEXT_SIZE as int,
        MAX_TEXT_SIZE as int,
    )
    &&& r.annotation_defaults.number_size == spec_clamp(
        c.annotation_defaults.number_size as int,
        MIN_NUMBER_SIZE as int,
        MAX_NUMBER_SIZE as int,
    )
    &&& r.annotation_defaults.mosaic_size == spec_clamp(
        c.annotation_defaults.mosaic_size as int,
        MIN_MOSAIC_SIZE as int,
        MAX_MOSAIC_SIZE as int,
    )
    &&& r.annotation_defaults.text_bold == c.annotation_defaults.text_bold
    &&& r.annotation_defaults.text_italic == c.annotation_defaults.text_italic
    &&& r.annotation_defaults.text_background == c.annotation_defaults.text_background
    &&& r.annotation_defaults.text_font_family == c.annotation_defaults.text_font_family
    &&& r.pin_defaults.always_on_top == c.pin_defaults.always_on_top
    &&& r.pin_defaults.show_decoration == c.pin_defaults.show_decoration
    &&& r.pin_defaults.opacity_percent == (if is_pin_opacity_option_spec(c.pin_defaults.opacity_percent) {
        c.pin_defaults.opacity_percent
    } else {
        DEFAULT_PIN_OPACITY_PERCENT
    })
    &&& r.ocr.enabled == (c.ocr.enabled && c.ocr.profiles@.len() > 0)
    &&& r.ocr.auto_copy_full_text == c.ocr.auto_copy_full_text
    &&& r.ocr.auto_exit_after_copy == c.ocr.auto_exit_after_copy
    &&& r.ocr.request_timeout_ms == spec_clamp(
        c.ocr.request_timeout_ms as int,
        OCR_TIMEOUT_MIN_MS as int,
        OCR_TIMEOUT_MAX_MS as int,
    )
    &&& r.ocr.profiles@.len() == c.ocr.profiles@.len()
    &&& ocr_ids(r.ocr.profiles@) == normalized_ids(ocr_ids(c.ocr.profiles@), "profile_"@)
    &&& forall|i: int| 0 <= i < c.ocr.profiles@.len() ==> (#[trigger] r.ocr.profiles@[i]).same_but_id(c.ocr.profiles@[i])
    &&& r.ocr.default_profile_id@ == sanitized_default_id(ocr_ids(r.ocr.profiles@), c.ocr.default_profile_id@)
    &&& r.translation.enabled == (c.translation.enabled && c.translation.profiles@.len() > 0)
    &&& r.translation.auto_copy_full_text == c.translation.auto_copy_full_text
    &&& r.translation.auto_exit_after_copy == c.translation.auto_exit_after_copy
    &&& r.translation.request_timeout_ms == spec_clamp(
        c.translation.request_timeout_ms as int,
        TRANSLATION_TIMEOUT_MIN_MS as int,
        TRANSLATION_TIMEOUT_MAX_MS as int,
    )
    &&& r.translation.profiles@.len() == c.translation.profiles@.len()
    &&& translation_ids(r.translation.profiles@) == normalized_ids(
        translation_ids(c.translation.profiles@),
        "translate_profile_"@,
    )
    &&& forall|i: int| 0 <= i < c.translation.profiles@.len() ==> translation_profile_filled(
        c.translation.profiles@[i],
        #[trigger] r.translation.profiles@[i],
    )
    &&& r.translation.default_profile_id@ == sanitized_default_id(
        translation_ids(r.translation.profiles@),
        c.translation.default_profile_id@,
    )
}

impl AppConfig {
    /// Brings every value into its supported range: annotation sizes clamped,
    /// an unsupported pin opacity reset, timeouts clamped, profile ids made
    /// unique, Baidu translation profiles completed, a missing default profile
    /// replaced by the first one, and OCR/translation turned off without profiles.
    #[verifier::spinoff_prover]
    #[verifier::rlimit(40)]
    pub fn sanitize(self) -> (r: Self)
        ensures
            r.general == self.general,
            r.annotation_defaults.default_color_index == spec_min(
                self.annotation_defaults.default_color_index as int,
                ANNOTATION_COLOR_PRESET_COUNT - 1,
            ),
            r.annotation_defaults.stroke_width == spec_clamp(
                self.annotation_defaults.stroke_width as int,
                MIN_STROKE_WIDTH as int,
                MAX_STROKE_WIDTH as int,
            ),
            r.annotation_defaults.text_size == spec_clamp(
                self.annotation_defaults.text_size as int,
                MIN_TEXT_SIZE as int,
                MAX_TEXT_SIZE as int,
            ),
            r.annotation_defaults.number_size == spec_clamp(
                self.annotation_defaults.number_size as int,
                MIN_NUMBER_SIZE as int,
                MAX_NUMBER_SIZE as int,
            ),
            r.annotation_defaults.mosaic_size == spec_clamp(
                self.annotation_defaults.mosaic_size as int,
                MIN_MOSAIC_SIZE as int,
                MAX_MOSAIC_SIZE as int,
            ),
            r.annotation_defaults.text_bold == self.annotation_defaults.text_bold,
            r.annotation_defaults.text_italic == self.annotation_defaults.text_italic,
            r.annotation_defaults.text_background == self.annotation_defaults.text_background,
            r.annotation_defaults.text_font_family == self.annotation_defaults.text_font_family,
            r.pin_defaults.always_on_top == self.pin_defaults.always_on_top,
            r.pin_defaults.show_decoration == self.pin_defaults.show_decoration,
            r.pin_defaults.opacity_percent == (if is_pin_opacity_option_spec(self.pin_defaults.opacity_percent) {
                self.pin_defaults.opacity_percent
            } else {
                DEFAULT_PIN_OPACITY_PERCENT
            }),
            r.ocr.enabled == (self.ocr.enabled && self.ocr.profiles@.len() > 0),
            r.ocr.auto_copy_full_text == self.ocr.auto_copy_full_text,
            r.ocr.auto_exit_after_copy == self.ocr.auto_exit_after_copy,
            r.ocr.request_timeout_ms == spec_clamp(
                self.ocr.request_timeout_ms as int,
                OCR_TIMEOUT_MIN_MS as int,
                OCR_TIMEOUT_MAX_MS as int,
            ),
            r.ocr.profiles@.len() == self.ocr.profiles@.len(),
            ocr_ids(r.ocr.profiles@) == normalized_ids(ocr_ids(self.ocr.profiles@), "profile_"@),
            forall|i: int| 0 <= i < self.ocr.profiles@.len() ==> (#[trigger] r.ocr.profiles@[i]).same_but_id(self.ocr.profiles@[i]),
            r.ocr.default_profile_id@ == sanitized_default_id(ocr_ids(r.ocr.profiles@), self.ocr.default_profile_id@),
            r.translation.enabled == (self.translation.enabled && self.translation.profiles@.len() > 0),
            r.translation.auto_copy_full_text == self.translation.auto_copy_full_text,
            r.translation.auto_exit_after_copy == self.translation.auto_exit_after_copy,
            r.translation.request_timeout_ms == spec_clamp(
                self.translation.request_timeout_ms as int,
                TRANSLATION_TIMEOUT_MIN_MS as int,
                TRANSLATION_TIMEOUT_MAX_MS as int,
            ),
            r.translation.profiles@.len() == self.translation.profiles@.len(),
            translation_ids(r.translation.profiles@) == normalized_ids(
                translation_ids(self.translation.profiles@),
                "translate_profile_"@,
            ),
            forall|i: int| 0 <= i < self.translation.profiles@.len() ==> translation_profile_filled(
                self.translation.profiles@[i],
                #[trigger] r.translation.profiles@[i],
            ),
            r.translation.default_profile_id@ == sanitized_default_id(
                translation_ids(r.translation.profiles@),
                self.translation.default_profile_id@,
            ),
            sanitized(self, r),
    {
        let ghost orig = self;
        let mut c = self;
        let max_color = ANNOTATION_COLOR_PRESET_COUNT - 1;
        if c.annotation_defaults.default_color_index > max_color {
            c.annotation_defaults.default_color_index = max_color;
        }
        c.annotation_defaults.stroke_width = clamp_u32(c.annotation_defaults.stroke_width, MIN_STROKE_WIDTH, MAX_STROKE_WIDTH);
        c.annotation_defaults.text_size = clamp_u32(c.annotation_defaults.text_size, MIN_TEXT_SIZE, MAX_TEXT_SIZE);
        c.annotation_defaults.number_size = clamp_u32(c.annotation_defaults.number_size, MIN_NUMBER_SIZE, MAX_NUMBER_SIZE);
        c.annotation_defaults.mosaic_size = clamp_u32(c.annotation_defaults.mosaic_size, MIN_MOSAIC_SIZE, MAX_MOSAIC_SIZE);
        if !is_pin_opacity_option(c.pin_defaults.opacity_percent) {
            c.pin_defaults.opacity_percent = DEFAULT_PIN_OPACITY_PERCENT;
        }
        c.ocr.request_timeout_ms = clamp_u64(c.ocr.request_timeout_ms, OCR_TIMEOUT_MIN_MS, OCR_TIMEOUT_MAX_MS);
        normalize_ocr_profile_ids(&mut c.ocr.profiles);
        if c.ocr.profiles.len() == 0 {
            c.ocr.enabled = false;
            c.ocr.default_profile_id = String::new();
        } else if !has_ocr_id(&c.ocr.profiles, &c.ocr.default_profile_id) {
            c.ocr.default_profile_id = c.ocr.profiles[0].id.clone();
        }
        c.translation.request_timeout_ms = clamp_u64(
            c.translation.request_timeout_ms,
            TRANSLATION_TIMEOUT_MIN_MS,
            TRANSLATION_TIMEOUT_MAX_MS,
        );
        normalize_translation_profile_ids(&mut c.translation.profiles);
        fill_baidu_translation_defaults(&mut c.translation.profiles);
        if c.translation.profiles.len() == 0 {
            c.translation.enabled = false;
            c.translation.default_profile_id = String::new();
        } else if !has_translation_id(&c.translation.profiles, &c.translation.default_profile_id) {
            c.translation.default_profile_id = c.translation.profiles[0].id.clone();
        }
        proof {
            assert(ocr_ids(c.ocr.profiles@) =~= normalized_ids(ocr_ids(orig.ocr.profiles@), "profile_"@));
            assert(translation_ids(c.translation.profiles@) =~= normalized_ids(
                translation_ids(orig.translation.profiles@),
                "translate_profile_"@,
            ));
            assert(c.ocr.default_profile_id@ =~= sanitized_default_id(
                ocr_ids(c.ocr.profiles@),
                orig.ocr.default_profile_id@,
            ));
            assert(c.translation.default_profile_id@ =~= sanitized_default_id(
                translation_ids(c.translation.profiles@),
                orig.translation.default_profile_id@,
            ));
        }
        c
    }
}

/// `value` clamped to `lo..=hi`.
pub fn clamp_u32(value: u32, lo: u32, hi: u32) -> (r: u32)
    requires
        lo <= hi,
    ensures
        r == spec_clamp(value as int, lo as int, hi as int),
{
    if value < lo {
        lo
    } else if value > hi {
        hi
    } else {
        value
    }
}

/// `value` clamped to `lo..=hi`.
pub fn clamp_u64(value: u64, lo: u64, hi: u64) -> (r: u64)
    requires
        lo <= hi,
    ensures
        r == spec_clamp(value as int, lo as int, hi as int),
{
    if value < lo {
        lo
    } else if value > hi {
        hi
    } else {
        value
    }
}

/// Two configurations hold the same values.
pub open spec fn same_config(a: AppConfig, b: AppConfig) -> bool {
    &&& a.general == b.general
    &&& a.annotation_defaults == b.annotation_defaults
    &&& a.pin_defaults == b.pin_defaults
    &&& a.ocr.enabled == b.ocr.enabled
    &&& a.ocr.auto_copy_full_text == b.ocr.auto_copy_full_text
    &&& a.ocr.auto_exit_after_copy == b.ocr.auto_exit_after_copy
    &&& a.ocr.request_timeout_ms == b.ocr.request_timeout_ms
    &&& a.ocr.profiles@.len() == b.ocr.profiles@.len()
    &&& ocr_ids(a.ocr.profiles@) == ocr_ids(b.ocr.profiles@)
    &&& forall|i: int| 0 <= i < a.ocr.profiles@.len() ==> (#[trigger] a.ocr.profiles@[i]).same_but_id(b.ocr.profiles@[i])
    &&& a.ocr.default_profile_id@ == b.ocr.default_profile_id@
    &&& a.translation.enabled == b.translation.enabled
    &&& a.translation.auto_copy_full_text == b.translation.auto_copy_full_text
    &&& a.translation.auto_exit_after_copy == b.translation.auto_exit_after_copy
    &&& a.translation.request_timeout_ms == b.translation.request_timeout_ms
    &&& a.translation.profiles@.len() == b.translation.profiles@.len()
    &&& translation_ids(a.translation.profiles@) == translation_ids(b.translation.profiles@)
    &&& forall|i: int| 0 <= i < a.translation.profiles@.len() ==>
        (#[trigger] a.translation.profiles@[i]).same_but_id(b.translation.profiles@[i])
    &&& a.translation.default_profile_id@ == b.translation.default_profile_id@
}

proof fn lemma_not_blank(s: Seq<char>)
    requires
        s.len() > 0,
        !is_space_spec(s[0]),
        !is_space_spec(s.last()),
    ensures
        !is_blank_spec(s),
{
    lemma_trim_unspaced(s);
}

proof fn lemma_filled_twice(o: TranslationProfile, p: TranslationProfile, q: TranslationProfile)
    requires
        translation_profile_filled(o, p),
        translation_profile_filled(p, q),
    ensures
        q.same_but_id(p),
{
    if o.provider_kind == TranslationProviderKind::BaiduImageTranslate {
        reveal_strlit("auto");
        reveal_strlit("zh");
        reveal_strlit("file/2.0/mt/pictrans/v1");
        reveal_strlit("https://aip.baidubce.com");
        lemma_not_blank("auto"@);
        lemma_not_blank("zh"@);
        lemma_not_blank("file/2.0/mt/pictrans/v1"@);
        lemma_not_blank("https://aip.baidubce.com"@);
    }
}

/// Sanitising an already sanitised configuration changes nothing. The
/// profile lists are `Vec`s of items that take memory, so neither holds more
/// than `isize::MAX` of them.
pub proof fn lemma_sanitize_idempotent(c: AppConfig, once: AppConfig, twice: AppConfig)
    requires
        sanitized(c, once),
        sanitized(once, twice),
        c.ocr.profiles@.len() <= isize::MAX,
        c.translation.profiles@.len() <= isize::MAX,
    ensures
        same_config(twice, once),
{
    reveal_strlit("profile_");
    reveal_strlit("translate_profile_");
    lemma_normalized_ids_idempotent(ocr_ids(c.ocr.profiles@), "profile_"@);
    lemma_normalized_ids_idempotent(translation_ids(c.translation.profiles@), "translate_profile_"@);
    lemma_sanitized_default_id_idempotent(ocr_ids(once.ocr.profiles@), c.ocr.default_profile_id@);
    lemma_sanitized_default_id_idempotent(translation_ids(once.translation.profiles@), c.translation.default_profile_id@);
    assert(twice.annotation_defaults == once.annotation_defaults);
    assert(twice.pin_defaults == once.pin_defaults);
    assert forall|i: int| 0 <= i < twice.translation.profiles@.len() implies
        (#[trigger] twice.translation.profiles@[i]).same_but_id(once.translation.profiles@[i]) by {
        lemma_filled_twice(c.translation.profiles@[i], once.translation.profiles@[i], twice.translation.profiles@[i]);
    }
}

} // verus!
