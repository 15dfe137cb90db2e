use vstd::prelude::*;

use crate::text::{digit_char, digit_char_of, opt_string, string_from_chars};

verus! {

/// What `str::to_lowercase` makes of a text (full Unicode lowercase mapping).
pub uninterp spec fn lower_of(s: Seq<char>) -> Seq<char>;

/// Whether `char::is_alphanumeric` holds of `c` (Unicode Alphabetic or Numeric).
pub uninterp spec fn alphanumeric(c: char) -> bool;

/// Relies on `str::to_lowercase`: the result depends on the characters alone.
#[verifier::external_body]
fn lowercase(s: &str) -> (r: String)
    ensures
        r@ == lower_of(s@),
{
    s.to_lowercase()
}

/// Relies on `char::is_alphanumeric`.
#[verifier::external_body]
fn is_alphanumeric(c: char) -> (r: bool)
    ensures
        r == alphanumeric(c),
{
    c.is_alphanumeric()
}

/// The decimal numeral of `n`, without sign or padding.
pub open spec fn decimal(n: nat) -> Seq<char>
    decreases n,
{
    if n < 10 {
        seq![digit_char(n as int)]
    } else {
        decimal(n / 10).push(digit_char((n % 10) as int))
    }
}

/// The decimal numeral of `n`, as characters.
pub fn decimal_chars(n: u64) -> (r: Vec<char>)
    ensures
        r@ == decimal(n as nat),
    decreases n,
{
    if n < 10 {
        let mut v: Vec<char> = Vec::new();
        v.push(digit_char_of(n));
        assert(v@ =~= decimal(n as nat));
        v
    } else {
        let mut v = decimal_chars(n / 10);
        v.push(digit_char_of(n % 10));
        v
    }
}

/// A title's slug before de-duplication: spaces become hyphens, then every
/// character but alphanumerics and hyphens is dropped.
pub open spec fn slug_base(s: Seq<char>) -> Seq<char>
    decreases s.len(),
{
    if s.len() == 0 {
        Seq::empty()
    } else {
        let prev = slug_base(s.drop_last());
        let c = s.last();
        if c == ' ' {
            prev.push('-')
        } else if alphanumeric(c) || c == '-' {
            prev.push(c)
        } else {
            prev
        }
    }
}

/// The `k`-th slug tried for a base: the base itself, then `base-1`, `base-2`, ...
pub open spec fn slug_candidate(base: Seq<char>, k: nat) -> Seq<char> {
    if k == 0 {
        base
    } else {
        base + seq!['-'] + decimal(k)
    }
}

/// Whether some string of `v` reads `s`.
pub open spec fn in_list(v: Seq<String>, s: Seq<char>) -> bool {
    exists|i: int| 0 <= i < v.len() && (#[trigger] v[i])@ == s
}

/// The slug for a post titled `title` when `existing` are taken: the first
/// candidate for the title's lowercase base that is not taken.
pub open spec fn is_slug_for(r: Seq<char>, title: Seq<char>, existing: Seq<String>) -> bool {
    let base = slug_base(lower_of(title));
    exists|k: nat|
        #![trigger slug_candidate(base, k)]
        r == slug_candidate(base, k) && !in_list(existing, r) && forall|j: nat|
            j < k ==> in_list(existing, #[trigger] slug_candidate(base, j))
}

proof fn lemma_decimal_nonempty(n: nat)
    ensures
        decimal(n).len() >= 1,
    decreases n,
{
    if n >= 10 {
        lemma_decimal_nonempty(n / 10);
    }
}

proof fn lemma_digit_char_injective(a: int, b: int)
    requires
        0 <= a < 10,
        0 <= b < 10,
        digit_char(a) == digit_char(b),
    ensures
        a == b,
{
}

proof fn lemma_decimal_injective(a: nat, b: nat)
    requires
        decimal(a) == decimal(b),
    ensures
        a == b,
    decreases a,
{
    if a < 10 && b < 10 {
        assert(decimal(a)[0] == digit_char(a as int));
        assert(decimal(b)[0] == digit_char(b as int));
        lemma_digit_char_injective(a as int, b as int);
    } else if a < 10 {
        lemma_decimal_nonempty(b / 10);
        assert(decimal(b).len() == decimal(b / 10).len() + 1);
        assert(decimal(a).len() == 1);
    } else if b < 10 {
        lemma_decimal_nonempty(a / 10);
        assert(decimal(a).len() == decimal(a / 10).len() + 1);
        assert(decimal(b).len() == 1);
    } else {
        assert(decimal(a).drop_last() == decimal(a / 10));
        assert(decimal(b).drop_last() == decimal(b / 10));
        assert(decimal(a).last() == digit_char((a % 10) as int));
        assert(decimal(b).last() == digit_char((b % 10) as int));
        lemma_digit_char_injective((a % 10) as int, (b % 10) as int);
        lemma_decimal_injective(a / 10, b / 10);
        assert(a == b) by (nonlinear_arith)
            requires
                a / 10 == b / 10,
                a % 10 == b % 10,
        ;
    }
}

proof fn lemma_candidate_injective(base: Seq<char>, i: nat, j: nat)
    requires
        slug_candidate(base, i) == slug_candidate(base, j),
    ensures
        i == j,
{
    if i != 0 && j != 0 {
        let n = (base.len() + 1) as int;
        assert(slug_candidate(base, i).subrange(n, slug_candidate(base, i).len() as int) =~= decimal(i));
        assert(slug_candidate(base, j).subrange(n, slug_candidate(base, j).len() as int) =~= decimal(j));
        lemma_decimal_injective(i, j);
    } else if i != 0 {
        lemma_decimal_nonempty(i);
        assert(slug_candidate(base, i).len() > base.len());
    } else if j != 0 {
        lemma_decimal_nonempty(j);
        assert(slug_candidate(base, j).len() > base.len());
    }
}

/// Distinct candidates that are all taken cannot outnumber the taken strings.
proof fn lemma_taken_candidates_bounded(base: Seq<char>, existing: Seq<String>, n: nat)
    requires
        forall|j: nat| j < n ==> in_list(existing, #[trigger] slug_candidate(base, j)),
    ensures
        n <= existing.len(),
{
    let cands = Seq::new(n, |j: int| slug_candidate(base, j as nat));
    let views = existing.map_values(|s: String| s@);
    assert(cands.no_duplicates()) by {
        assert forall|a: int, b: int| 0 <= a < cands.len() && 0 <= b < cands.len() && a != b implies cands[a]
            != cands[b] by {
            if cands[a] == cands[b] {
                lemma_candidate_injective(base, a as nat, b as nat);
            }
        }
    }
    assert(cands.to_set().subset_of(views.to_set())) by {
        assert forall|c: Seq<char>| cands.to_set().contains(c) implies views.to_set().contains(c) by {
            let a = cands.index_of(c);
            assert(in_list(existing, slug_candidate(base, a as nat)));
            let i = choose|i: int| 0 <= i < existing.len() && (#[trigger] existing[i])@ == slug_candidate(base, a as nat);
            assert(views[i] == c);
        }
    }
    cands.unique_seq_to_set();
    views.lemma_cardinality_of_set();
    vstd::set_lib::lemma_len_subset(cands.to_set(), views.to_set());
}

fn list_contains(v: &Vec<String>, s: &String) -> (r: bool)
    ensures
        r == in_list(v@, s@),
{
    let mut i: usize = 0;
    while i < v.len()
        invariant
            i <= v@.len(),
            forall|j: int| 0 <= j < i ==> (#[trigger] v@[j])@ != s@,
        decreases v@.len() - i,
    {
        if v[i] == *s {
            return true;
        }
        i = i + 1;
    }
    false
}

/// Builds a URL slug from a post title that none of `existing_slugs` holds:
/// the lowercased title with spaces turned into hyphens and everything else
/// but alphanumerics and hyphens dropped, suffixed `-1`, `-2`, ... while taken.
pub fn generate_slug(title: &str, existing_slugs: Vec<String>) -> (r: String)
    ensures
        is_slug_for(r@, title@, existing_slugs@),
{
    let lower = lowercase(title);
    let n = lower.as_str().unicode_len();
    let mut out: Vec<char> = Vec::new();
    let mut i: usize = 0;
    while i < n
        invariant
            n == lower@.len(),
            i <= n,
            out@ == slug_base(lower@.subrange(0, i as int)),
        decreases n - i,
    {
        let c = lower.as_str().get_char(i);
        assert(lower@.subrange(0, i + 1).drop_last() =~= lower@.subrange(0, i as int));
        if c == ' ' {
            out.push('-');
        } else if is_alphanumeric(c) || c == '-' {
            out.push(c);
        }
        i = i + 1;
    }
    assert(lower@.subrange(0, n as int) =~= lower@);
    let base = string_from_chars(&out);
    let ghost b = base@;
    let mut slug = base.clone();
    let mut counter: usize = 0;
    let total = existing_slugs.len();
    while list_contains(&existing_slugs, &slug)
        invariant
            b == slug_base(lower_of(title@)),
            base@ == b,
            slug@ == slug_candidate(b, counter as nat),
            counter <= existing_slugs@.len(),
            total == existing_slugs@.len(),
            forall|j: nat| j < counter ==> in_list(existing_slugs@, #[trigger] slug_candidate(b, j)),
        decreases existing_slugs@.len() - counter,
    {
        proof {
            assert forall|j: nat| j < counter + 1 implies in_list(existing_slugs@, #[trigger] slug_candidate(b, j)) by {
                if j == counter {
                    assert(slug@ == slug_candidate(b, j));
                }
            }
            lemma_taken_candidates_bounded(b, existing_slugs@, (counter + 1) as nat);
        }
        counter = counter + 1;
        let mut next = base.clone();
        next.append("-");
        let digits = string_from_chars(&decimal_chars(counter as u64));
        next.append(digits.as_str());
        proof {
            reveal_strlit("-");
            assert(next@ =~= slug_candidate(b, counter as nat));
        }
        slug = next;
    }
    assert(is_slug_for(slug@, title@, existing_slugs@)) by {
        assert(slug@ == slug_candidate(b, counter as nat));
    }
    slug
}


pub struct PostRequestItem {
    pub author_id: i32,
    pub category_id: i32,
    pub title: String,
    pub description: String,
    pub post_image_url: Option<String>,
    pub content: String,
    pub slug: String,
}

pub struct PostRequest {
    pub post: PostRequestItem,
}

/// Post creation: what can be decided before the record is stored.
pub struct ControllerPost;

impl ControllerPost {
    /// The record to store for a new post: the request's fields, with the slug
    /// replaced by one made from the title that none of `existing_slugs` holds.
    pub fn create_post(create_post: &PostRequest, existing_slugs: Vec<String>) -> (r: PostRequestItem)
        ensures
            r.author_id == create_post.post.author_id,
            r.category_id == create_post.post.category_id,
            r.title@ == create_post.post.title@,
            r.description@ == create_post.post.description@,
            opt_string(r.post_image_url) == opt_string(create_post.post.post_image_url),
            r.content@ == create_post.post.content@,
            is_slug_for(r.slug@, create_post.post.title@, existing_slugs@),
    {
        let p = &create_post.post;
        let slug = generate_slug(p.title.as_str(), existing_slugs);
        let image = match &p.post_image_url {
            Some(u) => Some(u.clone()),
            None => None,
        };
        PostRequestItem {
            author_id: p.author_id,
            category_id: p.category_id,
            title: p.title.clone(),
            description: p.description.clone(),
            post_image_url: image,
            content: p.content.clone(),
            slug,
        }
    }
}

} // verus!
